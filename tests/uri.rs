use kythe_indexer::uri::{escape_string, should_escape, vname_to_kythe_uri};
use kythe_indexer::vname::VName;

#[test]
fn test_vname_to_kythe_uri() {
    let mut vname = VName::new();
    vname.corpus = "google3".into();
    vname.language = "rust".into();
    vname.signature =
        "third_party/rust/sha2/v0_10/src/lib.rs::core_api::STRUCT(Sha256VarCore)".into();
    assert_eq!(
        vname_to_kythe_uri(&vname),
        "kythe://google3?lang=rust#third_party%2Frust%2Fsha2%2Fv0_10%2Fsrc%2Flib.rs%3A%3Acore_api%3A%3ASTRUCT%28Sha256VarCore%29"
    );
}

#[test]
fn uri_fields_in_order_and_path_keeps_slash() {
    let vname = VName {
        corpus: "c/x".to_string(),
        root: "r t".to_string(),
        path: "a/b.rs".to_string(),
        language: "rust".to_string(),
        signature: "s".to_string(),
    };
    assert_eq!(vname_to_kythe_uri(&vname), "kythe://c/x?lang=rust?path=a/b.rs?root=r%20t#s");
}

#[test]
fn empty_vname_uri() {
    assert_eq!(vname_to_kythe_uri(&VName::new()), "kythe:");
}

#[test]
fn unreserved_characters_are_kept() {
    assert!(!should_escape('a', true));
    assert!(!should_escape('Z', true));
    assert!(!should_escape('7', true));
    assert!(!should_escape('~', true));
    assert!(!should_escape('/', false));
    assert!(should_escape('/', true));
    assert!(should_escape('%', false));
    assert_eq!(escape_string("Az09-._~", true), "Az09-._~");
}

#[test]
fn escaping_a_clean_component_twice_changes_nothing() {
    let once = escape_string("lib.rs-x_y~z", true);
    assert_eq!(escape_string(&once, true), once);
}

#[test]
fn escaped_text_is_escaped_again() {
    let once = escape_string("a/b", true);
    assert_eq!(once, "a%2Fb");
    assert_eq!(escape_string(&once, true), "a%252Fb");
}

#[test]
fn small_codes_have_two_digits() {
    assert_eq!(escape_string("\n", false), "%0A");
    assert_eq!(escape_string("\n1", false), "%0A1");
    assert_eq!(escape_string(" ", false), "%20");
}

#[test]
fn non_ascii_characters_escape_their_utf8_bytes() {
    assert_eq!(escape_string("\u{a7}", false), "%C2%A7");
    assert_eq!(escape_string("\u{20ac}", false), "%E2%82%AC");
    assert_eq!(escape_string("\u{1f600}", false), "%F0%9F%98%80");
    assert_eq!(escape_string("\u{e9}t\u{e9}", false), "\u{e9}t\u{e9}");
}
