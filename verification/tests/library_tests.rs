use cast_server::library::{id_from_uuid_text, is_video, normalize_language, parse_episode_filename, stable_id, try_parse_episode_filename, Library, Series};
use cast_server::scan::{FolderEntry, SeriesFolder};

fn file(name: &str) -> FolderEntry {
    FolderEntry { name: name.to_string(), is_file: true, size_bytes: 5 }
}

fn folder(name: &str, files: &[&str]) -> SeriesFolder {
    SeriesFolder { name: name.to_string(), entries: files.iter().map(|f| file(f)).collect(), tmdb_text: None }
}

fn scan(folders: Vec<SeriesFolder>) -> Library {
    Library::scan(&folders).unwrap()
}

fn first(lib: &Library) -> &Series {
    &lib.series[0]
}

#[test]
fn parse_sxxexx_with_dash_title() {
    let info = parse_episode_filename("S01E03 - Episode Title.mp4");
    assert_eq!(info.season, Some(1));
    assert_eq!(info.episode, Some(3));
    assert_eq!(info.title, "Episode Title");
}

#[test]
fn parse_sxxexx_with_dot_title() {
    let info = parse_episode_filename("S01E03.Episode.Title.mp4");
    assert_eq!(info.season, Some(1));
    assert_eq!(info.episode, Some(3));
    assert_eq!(info.title, "Episode Title");
}

#[test]
fn parse_sxxexx_with_space_title() {
    let info = parse_episode_filename("S01E03 Episode Title.mp4");
    assert_eq!(info.season, Some(1));
    assert_eq!(info.episode, Some(3));
    assert_eq!(info.title, "Episode Title");
}

#[test]
fn parse_sxxexx_no_title() {
    let info = parse_episode_filename("S1E3.mp4");
    assert_eq!(info.season, Some(1));
    assert_eq!(info.episode, Some(3));
    assert_eq!(info.title, "Episode 3");
}

#[test]
fn parse_nnxnn_with_title() {
    let info = parse_episode_filename("01x03 - Title.mp4");
    assert_eq!(info.season, Some(1));
    assert_eq!(info.episode, Some(3));
    assert_eq!(info.title, "Title");
}

#[test]
fn parse_episode_word_with_title() {
    let info = parse_episode_filename("Episode 03 - Title.mp4");
    assert_eq!(info.season, None);
    assert_eq!(info.episode, Some(3));
    assert_eq!(info.title, "Title");
}

#[test]
fn parse_bare_number_with_title() {
    let info = parse_episode_filename("03 - Title.mp4");
    assert_eq!(info.season, None);
    assert_eq!(info.episode, Some(3));
    assert_eq!(info.title, "Title");
}

#[test]
fn parse_bare_number_only() {
    let info = parse_episode_filename("03.mp4");
    assert_eq!(info.season, None);
    assert_eq!(info.episode, Some(3));
    assert_eq!(info.title, "Episode 3");
}

#[test]
fn parse_fallback_plain_title() {
    let info = parse_episode_filename("My Great Video.mp4");
    assert_eq!(info.season, None);
    assert_eq!(info.episode, None);
    assert_eq!(info.title, "My Great Video");
}

#[test]
fn parse_sxxexx_case_insensitive() {
    let info = parse_episode_filename("s02e10 - Finale.mkv");
    assert_eq!(info.season, Some(2));
    assert_eq!(info.episode, Some(10));
    assert_eq!(info.title, "Finale");
}

#[test]
fn parse_large_numbers() {
    let info = parse_episode_filename("S12E199 - Big Number.mp4");
    assert_eq!(info.season, Some(12));
    assert_eq!(info.episode, Some(199));
    assert_eq!(info.title, "Big Number");
}

#[test]
fn parse_dotted_fallback() {
    let info = parse_episode_filename("some.dotted.name.mp4");
    assert_eq!(info.season, None);
    assert_eq!(info.episode, None);
    assert_eq!(info.title, "some dotted name");
}

#[test]
fn parse_episode_word_no_title() {
    let info = parse_episode_filename("Episode 05.mp4");
    assert_eq!(info.season, None);
    assert_eq!(info.episode, Some(5));
    assert_eq!(info.title, "Episode 5");
}

#[test]
fn parse_nnxnn_no_title() {
    let info = parse_episode_filename("02x07.mkv");
    assert_eq!(info.season, Some(2));
    assert_eq!(info.episode, Some(7));
    assert_eq!(info.title, "Episode 7");
}

#[test]
fn parse_scene_release_sxxexx() {
    let info = parse_episode_filename("will trent s04e13 720p web h264-sylix.mkv");
    assert_eq!(info.season, Some(4));
    assert_eq!(info.episode, Some(13));
    // Title stripped of release tags
    assert_eq!(info.title, "Episode 13");
}

#[test]
fn parse_scene_release_prefix_sxxexx() {
    let info = parse_episode_filename("Show.Name.S02E05.Episode.Title.720p.WEB.x264.mkv");
    assert_eq!(info.season, Some(2));
    assert_eq!(info.episode, Some(5));
    assert_eq!(info.title, "Episode Title");
}

#[test]
fn parse_scene_release_dashed() {
    let info = parse_episode_filename("afo-ddbornagain-s02e01-720-web.mkv");
    assert_eq!(info.season, Some(2));
    assert_eq!(info.episode, Some(1));
}

#[test]
fn parse_compact_ssee_format() {
    let info = parse_episode_filename("afo-ddbornagain-0201-720-web.mkv");
    assert_eq!(info.season, Some(2));
    assert_eq!(info.episode, Some(1));
    assert_eq!(info.title, "Episode 1");
}

#[test]
fn parse_compact_ssee_higher_numbers() {
    let info = parse_episode_filename("show-0412-720p.mkv");
    assert_eq!(info.season, Some(4));
    assert_eq!(info.episode, Some(12));
}

#[test]
fn scan_empty_directory() {
    let lib = scan(vec![]);
    assert!(lib.series.is_empty());
}

#[test]
fn scan_with_series_and_episodes() {
    let lib = scan(vec![folder("Breaking Bad", &["S01E01.mp4", "S01E02.mkv"])]);
    assert_eq!(lib.series.len(), 1);

    let series = first(&lib);
    assert_eq!(series.title, "Breaking Bad");
    assert_eq!(series.episodes.len(), 2);
    assert_eq!(series.episodes[0].title, "Episode 1");
    assert_eq!(series.episodes[0].season_number, Some(1));
    assert_eq!(series.episodes[0].episode_number, Some(1));
    assert_eq!(series.episodes[1].title, "Episode 2");
    assert_eq!(series.episodes[1].season_number, Some(1));
    assert_eq!(series.episodes[1].episode_number, Some(2));
    assert_eq!(series.episodes[0].index, 0);
    assert_eq!(series.episodes[1].index, 1);
}

#[test]
fn non_video_files_are_ignored() {
    let lib = scan(vec![folder("Show", &["episode.mp4", "notes.txt", "subtitles.srt", "info.nfo"])]);
    let series = first(&lib);
    assert_eq!(series.episodes.len(), 1);
    assert_eq!(series.episodes[0].filename, "episode.mp4");
}

#[test]
fn series_with_only_non_video_files_is_excluded() {
    let lib = scan(vec![folder("EmptySeries", &["readme.txt"])]);
    assert!(lib.series.is_empty());
}

#[test]
fn art_detection_poster_jpg() {
    let lib = scan(vec![folder("Show", &["episode.mp4", "poster.jpg"])]);
    assert_eq!(first(&lib).art.as_deref(), Some("Show/poster.jpg"));
}

#[test]
fn art_detection_cover_png() {
    let lib = scan(vec![folder("Show", &["episode.mp4", "cover.png"])]);
    assert_eq!(first(&lib).art.as_deref(), Some("Show/cover.png"));
}

#[test]
fn art_detection_priority_order() {
    let lib = scan(vec![folder("Show", &["episode.mp4", "cover.png", "poster.jpg"])]);
    assert_eq!(first(&lib).art.as_deref(), Some("Show/poster.jpg"));
}

#[test]
fn no_art_when_absent() {
    let lib = scan(vec![folder("Show", &["episode.mp4"])]);
    assert!(first(&lib).art.is_none());
}

#[test]
fn backdrop_detection_prefers_hidden_name() {
    let lib = scan(vec![folder("Show", &["fanart.jpg", ".backdrop.png", "episode.mp4"])]);
    assert_eq!(first(&lib).backdrop.as_deref(), Some("Show/.backdrop.png"));
}

#[test]
fn folder_with_only_art_is_a_series() {
    let lib = scan(vec![folder("Artful", &["folder.png"])]);
    assert_eq!(lib.series.len(), 1);
    assert!(first(&lib).episodes.is_empty());
}

#[test]
fn stable_id_same_path_same_id() {
    let id1 = stable_id("Show/S01E01.mp4");
    let id2 = stable_id("Show/S01E01.mp4");
    assert_eq!(id1, id2);
}

#[test]
fn stable_id_different_paths_different_ids() {
    let id1 = stable_id("Show/S01E01.mp4");
    let id2 = stable_id("Show/S01E02.mp4");
    assert_ne!(id1, id2);
}

#[test]
fn stable_id_is_12_chars() {
    let id = stable_id("anything");
    assert_eq!(id.len(), 12);
}

#[test]
fn stable_id_is_uuid_prefix() {
    // the uuid v5 of "Show" in the namespace, dashes removed, first 12 digits
    let id = stable_id("Show");
    assert!(id.chars().all(|c| c.is_ascii_hexdigit() && !c.is_ascii_uppercase()));
    let full = uuid_text("Show");
    assert_eq!(id, full.replace('-', "")[..12].to_string());
}

#[test]
fn id_from_uuid_text_drops_dashes() {
    assert_eq!(id_from_uuid_text("6ba7b810-9dad-11d1-80b4-00c04fd430c8"), "6ba7b8109dad");
    assert_eq!(id_from_uuid_text("--0123456789ab-cd"), "0123456789ab");
}

fn uuid_text(name: &str) -> String {
    let ns = uuid::Uuid::from_bytes([
        0x6b, 0xa7, 0xb8, 0x10, 0x9d, 0xad, 0x11, 0xd1, 0x80, 0xb4, 0x00, 0xc0, 0x4f, 0xd4, 0x30, 0xc8,
    ]);
    uuid::Uuid::new_v5(&ns, name.as_bytes()).to_string()
}

#[test]
fn find_episode_works() {
    let lib = scan(vec![folder("Show", &["ep1.mp4"])]);
    let ep_id = first(&lib).episodes[0].id.clone();

    let (found_series, found_ep) = lib.find_episode(&ep_id).unwrap();
    assert_eq!(found_series.title, "Show");
    assert_eq!(found_ep.title, "ep1");
}

#[test]
fn find_episode_returns_none_for_unknown() {
    let lib = scan(vec![]);
    assert!(lib.find_episode("nonexistent").is_none());
}

#[test]
fn find_series_works() {
    let lib = scan(vec![folder("MyShow", &["ep.mp4"])]);
    let id = first(&lib).id.clone();
    let found = lib.find_series(&id).unwrap();
    assert_eq!(found.title, "MyShow");
}

#[test]
fn find_series_returns_none_for_unknown() {
    let lib = scan(vec![]);
    assert!(lib.find_series("nonexistent").is_none());
}

#[test]
fn all_video_extensions_detected() {
    let names: Vec<String> = ["mp4", "m4v", "mov", "mkv", "avi", "webm"].iter().map(|e| format!("file.{}", e)).collect();
    let refs: Vec<&str> = names.iter().map(|s| s.as_str()).collect();
    let lib = scan(vec![folder("Show", &refs)]);
    assert_eq!(first(&lib).episodes.len(), 6);
}

#[test]
fn uppercase_video_extension_detected() {
    let lib = scan(vec![folder("Show", &["EP.MKV"])]);
    assert_eq!(first(&lib).episodes.len(), 1);
}

#[test]
fn directories_named_like_videos_are_not_episodes() {
    let mut f = folder("Show", &["ep.mp4"]);
    f.entries.push(FolderEntry { name: "extras.mkv".to_string(), is_file: false, size_bytes: 0 });
    let lib = scan(vec![f]);
    assert_eq!(first(&lib).episodes.len(), 1);
}

#[test]
fn episodes_sorted_by_filename() {
    let lib = scan(vec![folder("Show", &["c_third.mp4", "a_first.mp4", "b_second.mp4"])]);
    let series = first(&lib);
    assert_eq!(series.episodes[0].filename, "a_first.mp4");
    assert_eq!(series.episodes[1].filename, "b_second.mp4");
    assert_eq!(series.episodes[2].filename, "c_third.mp4");
    assert_eq!(series.episodes[2].index, 2);
    assert_eq!(series.episodes[0].path, "Show/a_first.mp4");
    assert_eq!(series.episodes[0].size_bytes, 5);
}

#[test]
fn multiple_series_scanned() {
    let lib = scan(vec![folder("Alpha", &["ep.mp4"]), folder("Beta", &["ep.mp4"]), folder("Gamma", &["ep.mp4"])]);
    assert_eq!(lib.series.len(), 3);
    for w in lib.series.windows(2) {
        assert!(w[0].id < w[1].id);
    }
}

#[test]
fn series_ids_follow_folder_names() {
    let lib = scan(vec![folder("Alpha", &["ep.mp4"])]);
    assert_eq!(first(&lib).id, stable_id("Alpha"));
    assert_eq!(first(&lib).episodes[0].id, stable_id("Alpha/ep.mp4"));
}

#[test]
fn unreadable_episode_number_fails_the_scan() {
    let folders = vec![folder("Show", &["S99999999999E01.mkv"])];
    assert!(Library::scan(&folders).is_none());
}

#[test]
fn insert_replaces_series_with_same_id() {
    let mut lib = scan(vec![folder("Alpha", &["ep.mp4"]), folder("Beta", &["ep.mp4"])]);
    let mut replacement = lib.series[0].clone();
    replacement.title = "Replaced".to_string();
    let id = replacement.id.clone();
    lib.insert(replacement);
    assert_eq!(lib.series.len(), 2);
    assert_eq!(lib.find_series(&id).unwrap().title, "Replaced");
}

#[test]
fn insert_keeps_ids_ordered() {
    let mut lib = Library::new();
    for name in ["Gamma", "Alpha", "Beta", "Delta"] {
        let l = scan(vec![folder(name, &["x.mp4"])]);
        lib.insert(l.series[0].clone());
    }
    assert_eq!(lib.series.len(), 4);
    for w in lib.series.windows(2) {
        assert!(w[0].id < w[1].id);
    }
}

#[test]
fn tmdb_txt_override_detected() {
    let mut f = folder("Some Show", &["ep.mp4", "tmdb.txt"]);
    f.tmdb_text = Some("12345\n".to_string());
    let lib = scan(vec![f]);
    assert_eq!(first(&lib).tmdb_id_override, Some(12345));
}

#[test]
fn tmdb_txt_absent_gives_none() {
    let lib = scan(vec![folder("Show", &["ep.mp4"])]);
    assert_eq!(first(&lib).tmdb_id_override, None);
}

#[test]
fn tmdb_txt_invalid_content_gives_none() {
    let mut f = folder("Show", &["ep.mp4", "tmdb.txt"]);
    f.tmdb_text = Some("not-a-number".to_string());
    let lib = scan(vec![f]);
    assert_eq!(first(&lib).tmdb_id_override, None);
}

#[test]
fn subtitle_matching_srt_detected() {
    let lib = scan(vec![folder("Show", &["S01E01.mp4", "S01E01.srt"])]);
    let ep = &first(&lib).episodes[0];
    assert_eq!(ep.subtitles.len(), 1);
    assert_eq!(ep.subtitles[0].language, "en");
    assert_eq!(ep.subtitles[0].path, "Show/S01E01.srt");
}

#[test]
fn subtitle_language_suffix_detected() {
    let lib = scan(vec![folder("Show", &["S01E01.mp4", "S01E01.en.srt"])]);
    let ep = &first(&lib).episodes[0];
    assert_eq!(ep.subtitles.len(), 1);
    assert_eq!(ep.subtitles[0].language, "en");
    assert_eq!(ep.subtitles[0].path, "Show/S01E01.en.srt");
}

#[test]
fn subtitle_multiple_files_detected() {
    let lib = scan(vec![folder("Show", &["S01E01.mp4", "S01E01.srt", "S01E01.sv.srt", "S01E01.french.srt"])]);
    let ep = &first(&lib).episodes[0];
    assert_eq!(ep.subtitles.len(), 3);
    let langs: Vec<&str> = ep.subtitles.iter().map(|s| s.language.as_str()).collect();
    assert!(langs.contains(&"en"));
    assert!(langs.contains(&"sv"));
    assert!(langs.contains(&"fr"));
    // sorted by path
    assert_eq!(ep.subtitles[0].path, "Show/S01E01.french.srt");
    assert_eq!(ep.subtitles[1].path, "Show/S01E01.srt");
    assert_eq!(ep.subtitles[2].path, "Show/S01E01.sv.srt");
}

#[test]
fn subtitle_no_srt_gives_empty_vec() {
    let lib = scan(vec![folder("Show", &["S01E01.mp4"])]);
    assert!(first(&lib).episodes[0].subtitles.is_empty());
}

#[test]
fn subtitle_case_rules() {
    // the stem compares ignoring ASCII case; a language suffix needs the exact stem
    let lib = scan(vec![folder("Show", &["Ep.mp4", "ep.SRT", "EP.de.srt", "Ep.de.srt", "Ep.x.y.srt"])]);
    let ep = &first(&lib).episodes[0];
    let found: Vec<(&str, &str)> = ep.subtitles.iter().map(|s| (s.language.as_str(), s.path.as_str())).collect();
    assert_eq!(found, vec![("de", "Show/Ep.de.srt"), ("en", "Show/ep.SRT")]);
}

#[test]
fn normalize_language_codes() {
    assert_eq!(normalize_language("English"), "en");
    assert_eq!(normalize_language("SWE"), "sv");
    assert_eq!(normalize_language("deu"), "de");
    assert_eq!(normalize_language("Klingon"), "klingon");
}

#[test]
fn is_video_by_extension() {
    assert!(is_video("Show/ep.Mp4"));
    assert!(is_video("a.webm"));
    assert!(!is_video("a.srt"));
    assert!(!is_video("mp4"));
}

#[test]
fn try_parse_flags_unreadable_numbers() {
    assert!(try_parse_episode_filename("S1E99999999999.mkv").is_none());
    assert!(try_parse_episode_filename("S1E2.mkv").is_some());
}

#[test]
fn parse_title_strips_release_group() {
    let info = parse_episode_filename("S01E02 - The Title-GROUP.mkv");
    assert_eq!(info.title, "The Title");
}

#[test]
fn rescan_keeps_ids_and_order() {
    let folders = || {
        vec![
            folder("Show B", &["S01E02.mkv", "S01E01.mp4", "S01E01.en.srt", ".poster.jpg"]),
            folder("Show A", &["02.mp4", "01.mp4"]),
        ]
    };
    let a = scan(folders());
    let b = scan(folders());
    assert_eq!(a.series.len(), b.series.len());
    for (x, y) in a.series.iter().zip(b.series.iter()) {
        assert_eq!(x.id, y.id);
        assert_eq!(x.path, y.path);
        assert_eq!(x.art, y.art);
        let ex: Vec<(&str, &str, usize)> = x.episodes.iter().map(|e| (e.id.as_str(), e.path.as_str(), e.index)).collect();
        let ey: Vec<(&str, &str, usize)> = y.episodes.iter().map(|e| (e.id.as_str(), e.path.as_str(), e.index)).collect();
        assert_eq!(ex, ey);
        for (e, f) in x.episodes.iter().zip(y.episodes.iter()) {
            let sx: Vec<&str> = e.subtitles.iter().map(|t| t.path.as_str()).collect();
            let sy: Vec<&str> = f.subtitles.iter().map(|t| t.path.as_str()).collect();
            assert_eq!(sx, sy);
        }
    }
}
