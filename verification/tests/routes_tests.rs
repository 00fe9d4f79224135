use cast_server::library::{Episode, Library, Series};
use cast_server::routes::{
    choose_next_episode, detect_video_codec, label_for, language_label, needs_remux, parse_range, path_within,
    pick_first_ok, resolve_encoder, EncoderProbe, NextEpisode, ProgressMark,
};
use cast_server::scan::{FolderEntry, SeriesFolder};
use cast_server::watching::{continue_watching, WatchReason};

fn probes(nvenc_ok: bool, qsv_ok: bool) -> Vec<EncoderProbe> {
    vec![
        ("h264_nvenc", "-nv", if nvenc_ok { Ok(()) } else { Err("no device".to_string()) }),
        ("h264_qsv", "-qsv", if qsv_ok { Ok(()) } else { Err("no device".to_string()) }),
    ]
}

#[test]
fn parse_range_forms() {
    assert_eq!(parse_range("bytes=0-99", 1000), Some((0, 99)));
    assert_eq!(parse_range("bytes=500-", 1000), Some((500, 999)));
    // a suffix range asks for the last bytes
    assert_eq!(parse_range("bytes=-100", 1000), Some((900, 999)));
    assert_eq!(parse_range("bytes=-950", 1000), Some((50, 999)));
    assert_eq!(parse_range("bytes=-5000", 1000), Some((0, 999)));
    assert_eq!(parse_range("bytes=-0", 1000), None);
    assert_eq!(parse_range("bytes=900-5000", 1000), Some((900, 999)));
}

#[test]
fn parse_range_rejects() {
    assert_eq!(parse_range("bytes=1000-", 1000), None);
    assert_eq!(parse_range("bytes=50-10", 1000), None);
    assert_eq!(parse_range("items=0-10", 1000), None);
    assert_eq!(parse_range("bytes=10", 1000), None);
    assert_eq!(parse_range("bytes=a-10", 1000), None);
    assert_eq!(parse_range("bytes=0-10", 0), None);
    assert_eq!(parse_range("bytes=0-", 0), None);
    assert_eq!(parse_range("bytes=-10", 0), None);
    assert_eq!(parse_range("bytes=-", 1000), None);
}

#[test]
fn labels_of_encoders() {
    assert_eq!(label_for("h264_nvenc"), "NVIDIA NVENC (h264_nvenc)");
    assert_eq!(label_for("h264_videotoolbox"), "Apple VideoToolbox (h264_videotoolbox)");
    assert_eq!(label_for("libx264"), "software (libx264)");
}

#[test]
fn pick_first_ok_falls_back_to_software() {
    assert_eq!(pick_first_ok(&probes(false, true)), ("h264_qsv", "-qsv"));
    assert_eq!(pick_first_ok(&probes(false, false)), ("libx264", "-pix_fmt yuv420p -crf 18 -preset fast"));
}

#[test]
fn resolve_encoder_auto() {
    let (enc, msg) = resolve_encoder(None, &probes(true, true));
    assert_eq!(enc, ("h264_nvenc", "-nv"));
    assert_eq!(msg, "Transcoding encoder: NVIDIA NVENC (h264_nvenc) (auto)");
    let (enc, _) = resolve_encoder(Some("  AUTO "), &probes(false, true));
    assert_eq!(enc.0, "h264_qsv");
    let (enc, _) = resolve_encoder(Some(""), &probes(false, false));
    assert_eq!(enc.0, "libx264");
}

#[test]
fn resolve_encoder_software() {
    let (enc, msg) = resolve_encoder(Some("Software"), &probes(true, true));
    assert_eq!(enc, ("libx264", "-pix_fmt yuv420p -crf 18 -preset fast"));
    assert_eq!(msg, "Transcoding encoder: software (libx264) — explicitly requested");
}

#[test]
fn resolve_encoder_requested_and_missing() {
    let (enc, msg) = resolve_encoder(Some("qsv"), &probes(true, true));
    assert_eq!(enc, ("h264_qsv", "-qsv"));
    assert_eq!(msg, "Transcoding encoder: Intel QuickSync (h264_qsv) (requested)");
    let (enc, msg) = resolve_encoder(Some("qsv"), &probes(true, false));
    assert_eq!(enc.0, "h264_nvenc");
    assert_eq!(
        msg,
        "Requested encoder h264_qsv isn't available on this machine; falling back to NVIDIA NVENC (h264_nvenc)"
    );
    let (enc, msg) = resolve_encoder(Some("turbo"), &probes(false, false));
    assert_eq!(enc.0, "libx264");
    assert_eq!(msg, "Unknown encoder 'turbo', falling back to software (libx264)");
}

#[test]
fn codec_decisions() {
    let enc = ("h264_nvenc", "-nv");
    assert_eq!(detect_video_codec(Some("hevc,yuv420p10le\n"), enc), enc);
    assert_eq!(detect_video_codec(Some("hevc,yuv420p"), enc), ("copy", ""));
    assert_eq!(detect_video_codec(Some("vp9,yuv420p"), enc), enc);
    assert_eq!(detect_video_codec(Some("av1,yuv420p"), enc), enc);
    assert_eq!(detect_video_codec(Some("h264,yuv420p"), enc), ("copy", ""));
    assert_eq!(detect_video_codec(None, enc), ("copy", ""));
}

#[test]
fn remux_needed_for_mkv_family() {
    assert!(needs_remux("/m/Show/a.MKV"));
    assert!(needs_remux("a.flv"));
    assert!(needs_remux("a.webm"));
    assert!(!needs_remux("a.mp4"));
    assert!(!needs_remux("noext"));
}

#[test]
fn subtitle_language_labels() {
    assert_eq!(language_label("sv"), "Swedish");
    assert_eq!(language_label("fi"), "Finnish");
    assert_eq!(language_label("pt"), "Pt");
    assert_eq!(language_label(""), "");
}

#[test]
fn traversal_is_blocked() {
    assert!(path_within("/media/Show/ep.mp4", "/media", false));
    assert!(path_within("/media", "/media", false));
    assert!(!path_within("/etc/passwd", "/media", false));
    assert!(!path_within("/media2/x", "/media", false));
    assert!(path_within("/media//Show/./ep.mp4", "/media/", false));
}

#[test]
fn windows_paths_split_on_backslash() {
    assert!(path_within("\\\\?\\C:\\media\\Show\\ep.mp4", "\\\\?\\C:\\media", true));
    assert!(!path_within("\\\\?\\C:\\media2\\ep.mp4", "\\\\?\\C:\\media", true));
    assert!(!path_within("\\\\?\\D:\\media\\ep.mp4", "\\\\?\\C:\\media", true));
    // elsewhere a backslash is part of a name
    assert!(!path_within("/media\\Show", "/media", false));
    assert!(path_within("/media\\Show", "/media", true));
}

fn lib_with_episodes(names: &[&str]) -> Library {
    let folders = vec![SeriesFolder {
        name: "Show".to_string(),
        entries: names.iter().map(|n| FolderEntry { name: n.to_string(), is_file: true, size_bytes: 1 }).collect(),
        tmdb_text: None,
    }];
    Library::scan(&folders).unwrap()
}

fn mark(ep: &Episode, started: bool, completed: bool, at: &str) -> ProgressMark {
    ProgressMark { episode_id: ep.id.clone(), started, completed, updated_at: at.to_string() }
}

#[test]
fn next_episode_returns_first_when_nothing_watched() {
    let lib = lib_with_episodes(&["S01E01.mp4", "S01E02.mp4", "S01E03.mp4"]);
    let eps = &lib.series[0].episodes;
    assert_eq!(choose_next_episode(eps, &vec![]), NextEpisode::First);
}

#[test]
fn next_episode_returns_next_after_completed() {
    let lib = lib_with_episodes(&["S01E01.mp4", "S01E02.mp4", "S01E03.mp4"]);
    let eps = &lib.series[0].episodes;
    let progress = vec![mark(&eps[0], true, true, "2024-01-01 10:00:00")];
    assert_eq!(choose_next_episode(eps, &progress), NextEpisode::Next { episode: 1 });
}

#[test]
fn next_episode_resume_in_progress() {
    let lib = lib_with_episodes(&["S01E01.mp4", "S01E02.mp4", "S01E03.mp4"]);
    let eps = &lib.series[0].episodes;
    let progress = vec![mark(&eps[0], true, false, "2024-01-01 10:00:00")];
    assert_eq!(choose_next_episode(eps, &progress), NextEpisode::Resume { episode: 0, progress: 0 });
}

#[test]
fn next_episode_all_watched_and_empty() {
    let lib = lib_with_episodes(&["S01E01.mp4", "S01E02.mp4"]);
    let eps = &lib.series[0].episodes;
    let progress = vec![mark(&eps[1], true, true, "b"), mark(&eps[0], true, true, "a")];
    assert_eq!(choose_next_episode(eps, &progress), NextEpisode::AllWatched);
    assert_eq!(choose_next_episode(&vec![], &progress), NextEpisode::NoEpisodes);
}

#[test]
fn next_episode_resumes_first_started_record() {
    let lib = lib_with_episodes(&["S01E01.mp4", "S01E02.mp4", "S01E03.mp4"]);
    let eps = &lib.series[0].episodes;
    // records come most recent first: the later episode was watched last
    let progress = vec![mark(&eps[2], true, false, "c"), mark(&eps[0], true, false, "a")];
    assert_eq!(choose_next_episode(eps, &progress), NextEpisode::Resume { episode: 2, progress: 0 });
}

fn two_series() -> Library {
    let folders = vec![
        SeriesFolder {
            name: "Alpha".to_string(),
            entries: vec![
                FolderEntry { name: "S01E01.mp4".to_string(), is_file: true, size_bytes: 1 },
                FolderEntry { name: "S01E02.mp4".to_string(), is_file: true, size_bytes: 1 },
            ],
            tmdb_text: None,
        },
        SeriesFolder {
            name: "Beta".to_string(),
            entries: vec![
                FolderEntry { name: "S01E01.mp4".to_string(), is_file: true, size_bytes: 1 },
                FolderEntry { name: "S01E02.mp4".to_string(), is_file: true, size_bytes: 1 },
            ],
            tmdb_text: None,
        },
    ];
    Library::scan(&folders).unwrap()
}

fn position(lib: &Library, title: &str) -> usize {
    lib.series.iter().position(|s| s.title == title).unwrap()
}

#[test]
fn continue_watching_returns_in_progress_series() {
    let lib = two_series();
    let a = position(&lib, "Alpha");
    let b = position(&lib, "Beta");
    let sa: &Series = &lib.series[a];
    let sb: &Series = &lib.series[b];
    let progress = vec![
        mark(&sa.episodes[0], true, true, "2024-01-01 09:00:00"),
        mark(&sb.episodes[1], true, false, "2024-01-02 09:00:00"),
    ];
    let row = continue_watching(&lib.series, &progress);
    assert_eq!(row.len(), 2);
    // most recent first
    assert_eq!(row[0].series, b);
    assert_eq!(row[0].episode, 1);
    assert_eq!(row[0].reason, WatchReason::Resume);
    assert_eq!(row[0].updated_at, "2024-01-02 09:00:00");
    assert_eq!(row[1].series, a);
    assert_eq!(row[1].episode, 1);
    assert_eq!(row[1].reason, WatchReason::Next);
}

#[test]
fn continue_watching_skips_finished_and_unwatched() {
    let lib = two_series();
    let a = position(&lib, "Alpha");
    let sa: &Series = &lib.series[a];
    let progress = vec![mark(&sa.episodes[1], true, true, "x")];
    assert!(continue_watching(&lib.series, &progress).is_empty());
    assert!(continue_watching(&lib.series, &vec![]).is_empty());
}
