use clip_to_notion::encoding::detect_charset;

#[test]
fn test_detect_charset_with_meta_charset() {
    let html = "<meta charset=\"shift_jis\">";
    let charset = detect_charset(html);
    assert_eq!(charset, Some("shift-jis".to_string()));
}

#[test]
fn test_detect_charset_with_http_equiv() {
    let html = "<meta http-equiv=\"content-type\" content=\"text/html; charset=shift_jis\">";
    let charset = detect_charset(html);
    assert_eq!(charset, Some("shift-jis".to_string()));
}

#[test]
fn test_detect_charset_none() {
    let html = "<meta charset=\"utf-8\">";
    let charset = detect_charset(html);
    assert_eq!(charset, None);
}

#[test]
fn detect_charset_mixed_case_charset_attribute() {
    let html = "<meta charset=\"Shift_JIS\">";
    let charset = detect_charset(html);
    assert_eq!(charset, Some("shift-jis".to_string()));
}

#[test]
fn detect_charset_sjis_marker_in_content() {
    let html = "<meta http-equiv=\"Content-Type\" content=\"text/html; charset=SJIS\">";
    let charset = detect_charset(html);
    assert_eq!(charset, Some("shift-jis".to_string()));
}

#[test]
fn detect_charset_ignores_unrelated_meta() {
    let html = "<meta name=\"description\" content=\"all about shift_jis\">";
    let charset = detect_charset(html);
    assert_eq!(charset, None);
}
