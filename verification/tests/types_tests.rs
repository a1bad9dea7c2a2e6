use kak_lsp::types::{
    default_offset_encoding, HoverPrecedence, OffsetEncoding, Route, ServerConfig,
};

#[test]
fn default_encoding_is_utf16() {
    assert!(matches!(default_offset_encoding(), OffsetEncoding::Utf16));
}

#[test]
fn server_config_default_is_empty_session_zero_timeout() {
    let c = ServerConfig::default();
    assert_eq!(c.session, "");
    assert_eq!(c.timeout, 0);
}

#[test]
fn hover_precedence_default_is_info_first() {
    assert!(matches!(HoverPrecedence::default(), HoverPrecedence::InfoFirst));
}

#[test]
fn routes_compare_by_all_three_fields() {
    let a = Route {
        session: "s".to_string(),
        language: "rust".to_string(),
        root: "/p".to_string(),
    };
    let b = a.clone();
    assert_eq!(a, b);
    let c = Route { root: "/q".to_string(), ..a.clone() };
    assert_ne!(a, c);
}
