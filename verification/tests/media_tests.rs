use cast_server::media::{crop_filter, ffmpeg_log_lines, first_line_or, probe_failure_reason, thumbnail_failure};
use cast_server::remux::{
    background_step, prepare_step, remux_args, remux_targets, series_remux_step, BackgroundStep, PrepareStep,
    RemuxTally, SeriesRemuxStep,
};

#[test]
fn crop_filter_from_last_report() {
    let err = "[Parsed_cropdetect_0 @ 0x1] x1:0 x2:1919 crop=1920:800:0:140\n\
               [Parsed_cropdetect_0 @ 0x1] x1:0 x2:1919 y1:138 crop=1920:804:0:138 pts:5\n\
               frame=   48 fps=0.0\n";
    assert_eq!(crop_filter(err), Some("crop=1920:804:0:138".to_string()));
}

#[test]
fn crop_filter_rejects_useless_crops() {
    assert_eq!(crop_filter("x crop=1920:1080:0:0\n"), None);
    assert_eq!(crop_filter("x crop=90:1080:4:0\n"), None);
    assert_eq!(crop_filter("x crop=1920:1080:4\n"), None);
    assert_eq!(crop_filter("x crop=a:b:c:d\n"), None);
    assert_eq!(crop_filter("no report here\n"), None);
    assert_eq!(crop_filter(""), None);
    // the last reporting line decides, even when it reports nothing usable
    assert_eq!(crop_filter("a crop=1920:804:0:138\nb crop= \n"), None);
}

#[test]
fn crop_filter_keeps_signs() {
    assert_eq!(crop_filter("crop=+640:-480:-2:0"), None);
    assert_eq!(crop_filter("crop=+640:480:-2:0"), Some("crop=640:480:-2:0".to_string()));
}

#[test]
fn failure_reasons() {
    assert_eq!(thumbnail_failure("first\nsecond problem\n  \n"), "second problem");
    assert_eq!(thumbnail_failure("\n \n"), "ffmpeg failed");
    assert_eq!(
        probe_failure_reason("\nConversion failed!\n  Device creation failed: -12.  \nError opening output files\n"),
        "Device creation failed: -12."
    );
    assert_eq!(probe_failure_reason("Conversion failed!\n"), "unknown error");
    assert_eq!(first_line_or("bad input\nmore", "unknown"), "bad input");
    assert_eq!(first_line_or("", "unknown"), "unknown");
}

#[test]
fn log_lines_skip_blanks_and_stop_at_limit() {
    let lines = ffmpeg_log_lines("a\n\n b\r\nc\nd\n", 3);
    assert_eq!(lines, vec!["a".to_string(), " b".to_string(), "c".to_string()]);
}

#[test]
fn remux_targets_next_to_video() {
    let t = remux_targets("Show/Ep 1.mkv");
    assert_eq!(t.stem, "Ep 1");
    assert_eq!(t.mp4, "Show/Ep 1.mp4");
    assert_eq!(t.tmp, "Show/Ep 1.mp4.tmp");
    assert_eq!(t.legacy, "Show/.remux/Ep 1.mp4");
    let t = remux_targets("plain.avi");
    assert_eq!(t.mp4, "plain.mp4");
    assert_eq!(t.legacy, ".remux/plain.mp4");
}

#[test]
fn remux_args_for_copy_and_transcode() {
    let copy = remux_args("in.mkv", "copy", "-ignored x", &Some("out.mp4.tmp".to_string()));
    let expected: Vec<&str> = vec![
        "-hide_banner", "-loglevel", "warning", "-i", "in.mkv", "-c:v", "copy", "-c:a", "aac", "-b:a", "192k", "-ac",
        "2", "-map", "0:v:0", "-map", "0:a:0", "-map", "0:s?", "-c:s", "mov_text", "-movflags", "+faststart", "-f",
        "mp4", "-y", "out.mp4.tmp",
    ];
    assert_eq!(copy, expected);
    let enc = remux_args("in.mkv", "libx264", "  -crf 18\t-preset fast ", &None);
    assert_eq!(&enc[6..11], &["libx264", "-crf", "18", "-preset", "fast"]);
    assert_eq!(enc[enc.len() - 4..].to_vec(), vec!["frag_keyframe+empty_moov+default_base_moof", "-f", "mp4", "pipe:1"]);
}

#[test]
fn prepare_decisions() {
    assert_eq!(prepare_step(false, false, false, false, false), PrepareStep::Ready);
    assert_eq!(prepare_step(true, false, true, true, true), PrepareStep::Converted);
    assert_eq!(prepare_step(true, false, false, true, true), PrepareStep::Converting);
    assert_eq!(prepare_step(true, false, false, false, true), PrepareStep::Start { remove_partial: true });
}

#[test]
fn series_remux_counts() {
    let mut tally = RemuxTally::new();
    let steps = [
        series_remux_step(false, false, false, false),
        series_remux_step(true, true, false, false),
        series_remux_step(true, false, true, true),
        series_remux_step(true, false, true, false),
        series_remux_step(true, false, false, false),
    ];
    assert_eq!(steps[3], SeriesRemuxStep::Queue { remove_partial: true });
    for (i, s) in steps.iter().enumerate() {
        tally.count(*s, i != 3);
    }
    assert_eq!(tally.already_mp4, 1);
    assert_eq!(tally.already_done, 1);
    assert_eq!(tally.already_running, 2);
    assert_eq!(tally.queued, 1);
}

#[test]
fn background_decisions() {
    assert_eq!(background_step(true, false, false, false), BackgroundStep::Convert);
    assert_eq!(background_step(true, false, false, true), BackgroundStep::Abandoned);
    assert_eq!(background_step(true, false, true, false), BackgroundStep::Skip);
    assert_eq!(background_step(false, false, false, false), BackgroundStep::Skip);
}
