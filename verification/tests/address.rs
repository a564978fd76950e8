use live_relay::live::{completion_message, record_path, StreamArgs};

fn descriptor(key: &str, srt: bool) -> StreamArgs {
    StreamArgs { room_index: 1, args: Vec::new(), live_key: key.to_string(), srt }
}

#[test]
fn srt_address_rewrites_credential() {
    let d = descriptor("abc&123?xyz", true);
    let addr = d.push_address();
    assert!(addr.contains("r=live/abc,123,xyz"));
    assert!(addr.starts_with("srt://6721.livepush.myqcloud.com:9000?streamid=#!::h="));
}

#[test]
fn rtmp_address_keeps_credential_raw() {
    let d = descriptor("abc&123?xyz", false);
    let addr = d.push_address();
    assert_eq!(
        addr,
        "rtmp://qqgroup.6721.livepush.ilive.qq.com/trtc_1400526639/abc&123?xyz"
    );
}

#[test]
fn format_token_follows_transport() {
    assert_eq!(descriptor("k", true).format_token(), "mpegts");
    assert_eq!(descriptor("k", false).format_token(), "flv");
}

#[test]
fn record_path_joins_root_and_template() {
    assert_eq!(record_path("rec", "Title"), "rec/{plugin}/Title/{time}.ts");
    assert_eq!(record_path("rec/", "Title"), "rec/{plugin}/Title/{time}.ts");
    assert_eq!(record_path("", "Title"), "{plugin}/Title/{time}.ts");
}

#[test]
fn completion_message_holds_title() {
    let m = completion_message("My Show");
    assert!(m.contains("My Show"));
    assert!(m.starts_with("\u{63a8}\u{6d41}\u{5df2}\u{7ed3}\u{675f}\u{3002}"));
}

#[test]
fn puller_args_order_without_recording() {
    let mut d = descriptor("k", false);
    d.args = ["--retry-open".to_string(), "3".to_string()].to_vec();
    let args = d.puller_args("https://example.com/live", &None);
    let expect = [
        "--retry-open".to_string(),
        "3".to_string(),
        "https://example.com/live".to_string(),
        "best".to_string(),
        "-O".to_string(),
    ]
    .to_vec();
    assert_eq!(args, expect);
}

#[test]
fn puller_args_order_with_recording() {
    let d = descriptor("k", false);
    let rec = Some("rec/{plugin}/T/{time}.ts".to_string());
    let args = d.puller_args("url", &rec);
    let expect = [
        "url".to_string(),
        "best".to_string(),
        "--record-and-pipe".to_string(),
        "rec/{plugin}/T/{time}.ts".to_string(),
    ]
    .to_vec();
    assert_eq!(args, expect);
}

#[test]
fn encoder_args_fixed_chain() {
    let d = descriptor("secret", true);
    let args = d.encoder_args();
    let expect = [
        "-re",
        "-i",
        "pipe:0",
        "-c:v",
        "copy",
        "-c:a",
        "aac",
        "-ar",
        "44100",
        "-b:a",
        "192k",
        "-f",
        "mpegts",
        "-drop_pkts_on_overflow",
        "1",
        "-attempt_recovery",
        "1",
        "-max_recovery_attempts",
        "5",
        "-recovery_wait_time",
        "1",
        "srt://6721.livepush.myqcloud.com:9000?streamid=#!::h=6721.livepush.myqcloud.com,r=live/secret",
    ];
    let got: Vec<&str> = args.iter().map(|a| a.as_str()).collect();
    assert_eq!(got, expect.to_vec());
}

#[test]
fn build_sanitizes_title_and_plans_recording() {
    let d = descriptor("k&x", true);
    let paths = live_relay::config::PathConfig { streamlink: None, ffmpeg: None };
    let plan = d.build("url", "a/b/c", &Some("rec".to_string()), &paths);
    assert_eq!(plan.title, "a\u{ff0f}b\u{ff0f}c");
    assert_eq!(plan.puller_program, "streamlink");
    assert_eq!(plan.encoder_program, "ffmpeg");
    let rec = plan.record_path.clone().expect("recording path");
    assert_eq!(rec, "rec/{plugin}/a\u{ff0f}b\u{ff0f}c/{time}.ts");
    assert_eq!(plan.puller_args.last().unwrap(), &rec);
    assert!(plan.encoder_args.last().unwrap().contains("r=live/k,x"));
}

#[test]
fn build_without_root_streams_to_stdout() {
    let d = descriptor("k", false);
    let paths = live_relay::config::PathConfig {
        streamlink: Some("/opt/bin/streamlink".to_string()),
        ffmpeg: Some("/opt/bin/ffmpeg".to_string()),
    };
    let plan = d.build("url", "T", &None, &paths);
    assert!(plan.record_path.is_none());
    assert_eq!(plan.puller_program, "/opt/bin/streamlink");
    assert_eq!(plan.encoder_program, "/opt/bin/ffmpeg");
    assert_eq!(plan.puller_args.last().unwrap(), "-O");
}
