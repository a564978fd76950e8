use live_relay::parser::get_og_title;

#[test]
fn extracts_title_from_meta_tag() {
    let html = "<html><head><meta property=\"og:title\" content=\"My Stream\"/></head></html>";
    assert_eq!(get_og_title(html), Some("My Stream".to_string()));
}

#[test]
fn extracts_title_without_self_closing_slash() {
    let html = "<meta property=\"og:title\" content=\"Show\">";
    assert_eq!(get_og_title(html), Some("Show".to_string()));
}

#[test]
fn accepts_whitespace_between_fields() {
    let html = "<meta \n\t property=\"og:title\" \r\n content=\"Late Night\" \n />";
    assert_eq!(get_og_title(html), Some("Late Night".to_string()));
}

#[test]
fn decodes_html_entities_in_title() {
    let html = "<meta property=\"og:title\" content=\"A &amp; B\"/>";
    assert_eq!(get_og_title(html), Some("A & B".to_string()));
}

#[test]
fn leftmost_match_wins() {
    let html =
        "<meta property=\"og:title\" content=\"First\"/><meta property=\"og:title\" content=\"Second\"/>";
    assert_eq!(get_og_title(html), Some("First".to_string()));
}

#[test]
fn missing_markup_yields_nothing() {
    assert_eq!(get_og_title("<html><body>no metadata here</body></html>"), None);
    assert_eq!(get_og_title(""), None);
}

#[test]
fn malformed_markup_yields_nothing() {
    assert_eq!(get_og_title("<meta property=\"og:title\" content=\"\"/>"), None);
    assert_eq!(get_og_title("<meta property=\"og:title\" content=\"unterminated"), None);
    assert_eq!(get_og_title("<metaproperty=\"og:title\" content=\"X\"/>"), None);
    assert_eq!(get_og_title("<meta property=\"og:description\" content=\"X\"/>"), None);
}
