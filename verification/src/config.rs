//! The configuration the pipeline runs with: the Notion API key and the
//! target database identifier, loaded once per invocation and then
//! read-only. Loading and storing the file is an external collaborator.

use vstd::prelude::*;

verus! {

/// The per-run configuration, immutable for the run's duration.
pub struct Config {
    pub database_id: String,
    pub notion_api_key: String,
}

impl Default for Config {
    /// The empty configuration: both fields are the empty string.
    fn default() -> (r: Self)
        ensures
            r.database_id@ == Seq::<char>::empty(),
            r.notion_api_key@ == Seq::<char>::empty(),
    {
        Config { database_id: String::new(), notion_api_key: String::new() }
    }
}

} // verus!
