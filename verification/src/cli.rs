//! The parsed command-line surface: which action was requested and with
//! what arguments. Argument parsing itself is an external collaborator;
//! these types hold its result as plain values.

use vstd::prelude::*;

verus! {

/// A parsed invocation.
pub struct Cli {
    pub command: Command,
}

/// The action requested on the command line.
pub enum Command {
    /// Interactively collect and store the configuration.
    Init,
    /// Clip `url` into the database, labelled with `tags`, in input order.
    Run { url: String, tags: Vec<String> },
    /// A database maintenance action.
    Db(DbArgs),
}

/// The arguments of the database maintenance subcommand.
pub struct DbArgs {
    pub command: DbCommand,
}

/// The database maintenance action.
pub enum DbCommand {
    /// Create the target database.
    Create,
}

} // verus!
