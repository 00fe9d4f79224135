use cast_server::subtitle::srt_to_webvtt;

#[test]
fn converts_basic_srt_with_two_entries() {
    let srt = "\
1
00:00:01,000 --> 00:00:04,000
Hello, world!

2
00:01:15,500 --> 00:01:18,750
Second subtitle.
";

    let vtt = srt_to_webvtt(srt);
    assert!(vtt.starts_with("WEBVTT\n\n"));
    assert!(vtt.contains("00:00:01.000 --> 00:00:04.000"));
    assert!(vtt.contains("00:01:15.500 --> 00:01:18.750"));
    assert!(vtt.contains("Hello, world!"));
    assert!(vtt.contains("Second subtitle."));
}

#[test]
fn handles_windows_line_endings() {
    let srt = "1\r\n00:00:01,000 --> 00:00:04,000\r\nHello\r\n";

    let vtt = srt_to_webvtt(srt);
    assert!(vtt.starts_with("WEBVTT\n\n"));
    assert!(vtt.contains("00:00:01.000 --> 00:00:04.000"));
    assert!(vtt.contains("Hello"));
}

#[test]
fn empty_input_produces_header_only() {
    let vtt = srt_to_webvtt("");
    assert_eq!(vtt, "WEBVTT\n\n");
}


#[test]
fn timestamp_lines_only_change_commas() {
    let vtt = srt_to_webvtt("1\n00:00:01,000 --> 00:00:02,500\nYes, no\n");
    assert_eq!(vtt, "WEBVTT\n\n1\n00:00:01.000 --> 00:00:02.500\nYes, no\n");
}

#[test]
fn last_line_without_newline_gets_one() {
    assert_eq!(srt_to_webvtt("a\r\nb"), "WEBVTT\n\na\nb\n");
}

#[test]
fn arrow_needs_spaces() {
    assert_eq!(srt_to_webvtt("1,2-->3,4"), "WEBVTT\n\n1,2-->3,4\n");
}
