use sync_wizard::addr::{
    contains_substring, media_addr_of, rewrite_syncaddr_config, rewrite_syncaddr_line,
    sync_addr_of, syncaddr_config_line,
};

#[test]
fn it_works() {
}

#[test]
fn test_contain_addr() {
    let s = "https://192.0.0.1:27701";
    let newaddr = "192.0.0.1";
    println!("{}", contains_substring(s, newaddr));
}

#[test]
fn substring_search_agrees_with_the_standard_library() {
    let cases = [
        ("https://192.0.0.1:27701", "192.0.0.1", true),
        ("https://192.0.0.1:27701", "10.0.0.5", false),
        ("", "", true),
        ("abc", "", true),
        ("", "a", false),
        ("aaab", "aab", true),
        ("aab", "aaab", false),
        ("\"syncaddr\":\"https://x\"", "syncaddr", true),
        ("\"mediaaddr\":\"https://x\"", "syncaddr", false),
    ];
    for (hay, needle, expected) in cases {
        assert_eq!(contains_substring(hay, needle), expected);
        assert_eq!(hay.contains(needle), expected);
    }
}

#[test]
fn addresses_use_the_well_known_port() {
    assert_eq!(sync_addr_of("10.0.0.5"), "https://10.0.0.5:27701");
    assert_eq!(media_addr_of("10.0.0.5"), "https://10.0.0.5:27701/msync");
    assert_eq!(sync_addr_of(""), "https://:27701");
}

#[test]
fn the_config_line_carries_the_address() {
    assert_eq!(
        syncaddr_config_line("10.0.0.5"),
        "\"syncaddr\":\"https://10.0.0.5:27701/\""
    );
}

#[test]
fn rewriting_replaces_only_the_syncaddr_line() {
    let (line, changed) = rewrite_syncaddr_line("\"syncaddr\":\"https://192.0.0.1:27701/\"", "10.0.0.5");
    assert_eq!(line, "\"syncaddr\":\"https://10.0.0.5:27701/\"");
    assert!(changed);

    // The line already carries the address: rewritten, but not a change.
    let (line, changed) = rewrite_syncaddr_line("\"syncaddr\":\"https://10.0.0.5:27701/\"", "10.0.0.5");
    assert_eq!(line, "\"syncaddr\":\"https://10.0.0.5:27701/\"");
    assert!(!changed);

    let (line, changed) = rewrite_syncaddr_line("\"auth_db_path\":\"auth.db\"", "10.0.0.5");
    assert_eq!(line, "\"auth_db_path\":\"auth.db\"");
    assert!(!changed);
}

#[test]
fn rewriting_a_whole_config_reports_whether_anything_changed() {
    let lines = vec![
        "{".to_string(),
        "\"syncaddr\":\"https://192.0.0.1:27701/\"".to_string(),
        "\"port\":27701".to_string(),
        "}".to_string(),
    ];
    let (out, changed) = rewrite_syncaddr_config(&lines, "10.0.0.5");
    assert!(changed);
    assert_eq!(out.len(), 4);
    assert_eq!(out[0], "{");
    assert_eq!(out[1], "\"syncaddr\":\"https://10.0.0.5:27701/\"");
    assert_eq!(out[2], "\"port\":27701");
    assert_eq!(out[3], "}");

    let (same, changed) = rewrite_syncaddr_config(&out, "10.0.0.5");
    assert!(!changed);
    assert_eq!(same, out);

    let no_key = vec!["{".to_string(), "}".to_string()];
    let (kept, changed) = rewrite_syncaddr_config(&no_key, "10.0.0.5");
    assert!(!changed);
    assert_eq!(kept, no_key);
}
