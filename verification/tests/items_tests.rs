use cast_server::ingest::{extract_series_name, try_extract_series_name};
use cast_server::items::{
    display_title, episode_format, episode_label, file_name_of, list_order, orphaned_copies, related_files,
    watched_count, year_of,
};
use cast_server::library::Library;
use cast_server::routes::{encoder_candidates, encoder_probe_args, ProgressMark};
use cast_server::scan::{FolderEntry, SeriesFolder};

fn lib_with_episodes(names: &[&str]) -> Library {
    let folders = vec![SeriesFolder {
        name: "Show".to_string(),
        entries: names.iter().map(|n| FolderEntry { name: n.to_string(), is_file: true, size_bytes: 1 }).collect(),
        tmdb_text: None,
    }];
    Library::scan(&folders).unwrap()
}

fn strings(xs: &[&str]) -> Vec<String> {
    xs.iter().map(|x| x.to_string()).collect()
}

#[test]
fn series_name_before_episode_code() {
    assert_eq!(extract_series_name("Show_Name_S01E003.mkv"), "Show Name");
    assert_eq!(extract_series_name("The.Wire.s02e10.mkv"), "The Wire");
}

#[test]
fn series_name_before_spaced_dash() {
    assert_eq!(extract_series_name("Show Name - S01E03 - Episode Title.mp4"), "Show Name");
}

#[test]
fn series_name_of_scene_release() {
    assert_eq!(extract_series_name("Show.Name.S01E03.720p.WEB.x264-GROUP.mkv"), "Show Name");
    assert_eq!(extract_series_name("show.name.s01e03.720p.web.mkv"), "show name");
}

#[test]
fn series_name_with_tags_stripped() {
    assert_eq!(extract_series_name("Some Movie 1080p BluRay.mkv"), "Some Movie");
    assert_eq!(extract_series_name("Plain Name.mkv"), "Plain Name");
}

#[test]
fn series_name_trims_trailing_dash() {
    assert_eq!(extract_series_name("Show -.mkv"), "Show");
}

#[test]
fn series_name_checked_form() {
    assert_eq!(try_extract_series_name("Show_Name_S01E003.mkv"), Some("Show Name".to_string()));
    assert_eq!(try_extract_series_name("Plain Name.mkv"), Some("Plain Name".to_string()));
}

#[test]
fn titles_prefer_tmdb() {
    assert_eq!(display_title(&Some("From TMDB".to_string()), "Own"), "From TMDB");
    assert_eq!(display_title(&None, "Own"), "Own");
}

#[test]
fn formats_of_episode_files() {
    assert_eq!(episode_format("Show/S01E01.MKV"), "mkv");
    assert_eq!(episode_format("Show/S01E01.mp4"), "mp4");
    assert_eq!(episode_format("Show/README"), "unknown");
}

#[test]
fn file_names_of_paths() {
    assert_eq!(file_name_of("Show/Season 1/S01E01.mkv"), "S01E01.mkv");
    assert_eq!(file_name_of("S01E01.mkv"), "S01E01.mkv");
}

#[test]
fn labels_of_episodes() {
    assert_eq!(episode_label(Some(1), Some(3), 0), "S1 E3");
    assert_eq!(episode_label(Some(12), Some(105), 7), "S12 E105");
    assert_eq!(episode_label(None, Some(3), 4), "Episode 5");
    assert_eq!(episode_label(Some(2), None, 0), "Episode 1");
}

#[test]
fn years_of_dates() {
    assert_eq!(year_of("2021-05-03"), Some("2021".to_string()));
    assert_eq!(year_of("1999"), Some("1999".to_string()));
    assert_eq!(year_of("20"), None);
    assert_eq!(year_of(""), None);
    assert_eq!(year_of("12é4"), Some("12é".to_string()));
    assert_eq!(year_of("123é"), None);
}

#[test]
fn watched_episodes_are_counted() {
    let lib = lib_with_episodes(&["S01E01.mp4", "S01E02.mp4", "S01E03.mp4"]);
    let eps = &lib.series[0].episodes;
    let mark = |i: usize, completed: bool| ProgressMark {
        episode_id: eps[i].id.clone(),
        started: true,
        completed,
        updated_at: "2024-01-01 10:00:00".to_string(),
    };
    assert_eq!(watched_count(eps, &vec![]), 0);
    assert_eq!(watched_count(eps, &vec![mark(0, true), mark(1, false), mark(2, true)]), 2);
    // the first record of an episode decides
    assert_eq!(watched_count(eps, &vec![mark(0, false), mark(0, true)]), 0);
}

#[test]
fn series_list_order_ignores_case_and_keeps_ties() {
    assert_eq!(list_order(&strings(&["b", "A", "a", "C"])), vec![1, 2, 0, 3]);
    assert_eq!(list_order(&vec![]), Vec::<usize>::new());
}

#[test]
fn files_that_go_with_an_episode() {
    let names = strings(&["ep1.mkv", "ep1.en.srt", "ep1.mkv.mp4", "ep10.mkv", "other.txt", "ep1"]);
    assert_eq!(related_files(&names, "ep1"), vec![0, 1, 2, 5]);
}

#[test]
fn leftover_copies_of_a_series() {
    let lib = lib_with_episodes(&["ep1.mkv", "ep2.mkv"]);
    let names = strings(&["ep1.mp4", "old.mp4", "notes.txt", "ep2.mp4", "gone.mp4"]);
    assert_eq!(orphaned_copies(&lib.series[0], &names), vec![1, 4]);
}

#[test]
fn encoders_worth_probing() {
    let c = encoder_candidates();
    let names: Vec<&str> = c.iter().map(|p| p.0).collect();
    assert_eq!(names, vec!["h264_nvenc", "h264_qsv", "h264_amf", "h264_videotoolbox"]);
    assert_eq!(c[3].1, "-pix_fmt yuv420p -q:v 55");
}

#[test]
fn probe_arguments_name_the_encoder() {
    let args = encoder_probe_args("h264_qsv");
    assert_eq!(args.len(), 12);
    assert_eq!(args[8], "h264_qsv");
    assert_eq!(args[6], "testsrc=duration=1:size=256x256:rate=25");
    assert_eq!(args[11], "-");
}
