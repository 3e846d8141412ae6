use zonerec::Entry;
use zonerec::ZoneConfig;
use zonerec::format_line;
use zonerec::msg_create_intro;
use zonerec::msg_created;
use zonerec::msg_delete_error;
use zonerec::msg_deleted;
use zonerec::msg_no_record;
use zonerec::msg_update_error;
use zonerec::msg_update_intro;
use zonerec::msg_updated;
use zonerec::str_eq;
use zonerec::trim;

#[test]
fn endpoint_urls_are_derived_from_the_zone() {
    let config = ZoneConfig::new("zone123".to_string(), "token123".to_string());
    assert_eq!(
        config.collection_endpoint(),
        "https://api.cloudflare.com/client/v4/zones/zone123/dns_records"
    );
    assert_eq!(
        config.record_endpoint("abc9"),
        "https://api.cloudflare.com/client/v4/zones/zone123/dns_records/abc9"
    );
    assert_eq!(config.auth_header(), "Bearer token123");
}

#[test]
fn format_line_is_tab_delimited_in_field_order() {
    let e = Entry {
        id: "77".to_string(),
        name: "x.example.com".to_string(),
        rtype: "TXT".to_string(),
        content: "v=spf1 -all".to_string(),
    };
    assert_eq!(format_line(&e), "TXT\tx.example.com\tv=spf1 -all\t77");
}

#[test]
fn messages_match_the_printed_lines() {
    assert_eq!(msg_deleted("a.example.com"), "Successfully deleted a.example.com");
    assert_eq!(msg_delete_error("a.example.com"), "Error deleting a.example.com");
    assert_eq!(msg_no_record(), "No such record exists");
    assert_eq!(
        msg_update_intro("a.example.com"),
        "a.example.com already exists, trying to update..."
    );
    assert_eq!(
        msg_updated("a.example.com", "9.9.9.9", "A"),
        "Successfully Updated a.example.com with 9.9.9.9 (type: A)"
    );
    assert_eq!(msg_update_error("a.example.com"), "Error updating a.example.com");
    assert_eq!(
        msg_create_intro(),
        "No such record exists, trying to create new..."
    );
    assert_eq!(
        msg_created("a.example.com", "9.9.9.9"),
        "Successfully Updated a.example.com to point to 9.9.9.9"
    );
}

#[test]
fn trim_strips_leading_and_trailing_whitespace() {
    assert_eq!(trim(" \t 1.2.3.4 \r\n"), "1.2.3.4");
    assert_eq!(trim("1.2.3.4"), "1.2.3.4");
    assert_eq!(trim(""), "");
    assert_eq!(trim(" \n\t "), "");
    assert_eq!(trim("\u{3000}x\u{2028}y\u{00A0}"), "x\u{2028}y");
    assert_eq!(trim("a b"), "a b");
}

#[test]
fn trim_agrees_with_the_standard_library() {
    for s in [" a ", "", "  ", "a", "\u{1680}\u{2004}v4\u{2029}", "inner space kept "] {
        assert_eq!(trim(s), s.trim());
    }
}

#[test]
fn str_eq_is_exact_and_case_sensitive() {
    assert!(str_eq("abc", "abc"));
    assert!(!str_eq("abc", "Abc"));
    assert!(!str_eq("abc", "abcd"));
    assert!(!str_eq("abcd", "abc"));
    assert!(str_eq("", ""));
    assert!(!str_eq("", "a"));
}
