use live_relay::live::resolve_title;
use live_relay::time::format_timestamp;

fn looks_like_timestamp(t: &str) {
    let chars: Vec<char> = t.chars().collect();
    assert_eq!(chars.len(), 19, "fallback title: {}", t);
    for (i, c) in chars.iter().enumerate() {
        match i {
            4 | 7 => assert_eq!(*c, '-', "fallback title: {}", t),
            10 => assert_eq!(*c, ' ', "fallback title: {}", t),
            13 | 16 => assert_eq!(*c, ':', "fallback title: {}", t),
            _ => assert!(c.is_ascii_digit(), "fallback title: {}", t),
        }
    }
}

#[test]
fn timestamp_is_zero_padded() {
    assert_eq!(format_timestamp(2024, 1, 2, 3, 4, 5), "2024-01-02 03:04:05");
    assert_eq!(format_timestamp(999, 12, 31, 23, 59, 59), "0999-12-31 23:59:59");
}

#[test]
fn fetched_title_is_kept() {
    assert_eq!(resolve_title(&Some("My Show".to_string())), "My Show");
}

#[test]
fn missing_title_falls_back_to_timestamp() {
    looks_like_timestamp(&resolve_title(&None));
}

#[test]
fn empty_title_falls_back_to_timestamp() {
    looks_like_timestamp(&resolve_title(&Some(String::new())));
}

#[test]
fn malformed_markup_still_builds_with_fallback_title() {
    let fetched = live_relay::parser::get_og_title("<html><meta content=\"x\"></html>");
    assert!(fetched.is_none());
    let title = resolve_title(&fetched);
    let d = live_relay::live::StreamArgs {
        room_index: 1,
        args: Vec::new(),
        live_key: "k".to_string(),
        srt: false,
    };
    let paths = live_relay::config::PathConfig { streamlink: None, ffmpeg: None };
    let plan = d.build("url", &title, &None, &paths);
    looks_like_timestamp(&plan.title);
}

#[test]
fn credential_rewrite_touches_only_separators() {
    assert_eq!(live_relay::strutil::map_srt_key("abc&123?xyz"), "abc,123,xyz");
    assert_eq!(live_relay::strutil::map_srt_key("plain"), "plain");
    assert_eq!(live_relay::strutil::map_safe_title("a/b"), "a\u{ff0f}b");
}
