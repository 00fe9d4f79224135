use cast_server::tmdb::{
    clean_search_query, image_extension, image_url, fetch_step, FetchStep, lookup_start, lookup_after_miss,
    LookupStep, genres_text, season_numbers, season_episodes, TmdbEpisodeRecord, episode_credits, CastRecord,
};

#[test]
fn clean_search_query_removes_year_and_resolution() {
    assert_eq!(clean_search_query("Breaking Bad (2008) 1080p"), "Breaking Bad");
}

#[test]
fn clean_search_query_removes_dots_and_tags() {
    assert_eq!(clean_search_query("The.Wire.S01.720p.BluRay"), "The Wire");
}

#[test]
fn clean_search_query_removes_brackets_and_encoding() {
    assert_eq!(clean_search_query("My Show [2020] WEB-DL x265"), "My Show");
}

#[test]
fn clean_search_query_preserves_simple_name() {
    assert_eq!(clean_search_query("Simple Name"), "Simple Name");
}

#[test]
fn clean_search_query_removes_multiple_tags() {
    assert_eq!(clean_search_query("Some.Show.2019.1080p.WEB-DL.H.265.AAC"), "Some Show");
}

#[test]
fn clean_search_query_handles_underscores() {
    assert_eq!(clean_search_query("My_Show_2020_HDTV"), "My Show");
}


#[test]
fn clean_search_query_removes_season_tag_and_collapses_spaces() {
    assert_eq!(clean_search_query("Lost  S02   Complete"), "Lost Complete");
}

#[test]
fn clean_search_query_keeps_years_inside_words() {
    assert_eq!(clean_search_query("Blade Runner 2049x"), "Blade Runner 2049x");
}

#[test]
fn image_extension_png_and_default() {
    assert_eq!(image_extension("https://x/y/poster.PNG?size=2"), "png");
    assert_eq!(image_extension("https://x/y/poster.jpg#frag"), "jpg");
    assert_eq!(image_extension("https://x/y/poster"), "jpg");
}

#[test]
fn image_url_joins_size_and_path() {
    assert_eq!(image_url("w500", "/abc.jpg"), "https://image.tmdb.org/t/p/w500/abc.jpg");
}

#[test]
fn fetch_step_order() {
    assert_eq!(fetch_step(true, true, true, false, true), FetchStep::Complete);
    assert_eq!(fetch_step(true, false, true, false, true), FetchStep::Abandoned);
    assert_eq!(fetch_step(true, false, true, true, true), FetchStep::Fetch);
    assert_eq!(fetch_step(false, true, true, false, false), FetchStep::Fetch);
}

#[test]
fn lookup_uses_override_then_cleaned_name() {
    assert_eq!(lookup_start("Anything", Some(42)), LookupStep::Detail(42));
    assert_eq!(lookup_start("The.Wire.S01", None), LookupStep::Search("The Wire".to_string()));
    assert_eq!(lookup_start("Simple", None), LookupStep::Search("Simple".to_string()));
    assert_eq!(lookup_after_miss("The.Wire.S01", 1), LookupStep::Search("The.Wire.S01".to_string()));
    assert_eq!(lookup_after_miss("The.Wire.S01", 2), LookupStep::Done);
    assert_eq!(lookup_after_miss("Simple", 1), LookupStep::Done);
}

#[test]
fn genres_joined_with_commas() {
    assert_eq!(genres_text(&vec![]), None);
    assert_eq!(genres_text(&vec!["Drama".to_string()]), Some("Drama".to_string()));
    assert_eq!(
        genres_text(&vec!["Drama".to_string(), "Crime".to_string(), "Thriller".to_string()]),
        Some("Drama, Crime, Thriller".to_string())
    );
}

#[test]
fn seasons_without_episodes_or_specials_are_skipped() {
    assert_eq!(season_numbers(&vec![(0, 5), (1, 10), (2, 0), (3, 8)]), vec![1, 3]);
}

#[test]
fn season_episode_records_become_infos() {
    let recs = vec![TmdbEpisodeRecord {
        id: 7,
        episode_number: 2,
        name: Some("Pilot".to_string()),
        overview: None,
        air_date: Some("2020-01-01".to_string()),
        runtime: Some(42),
        still_path: Some("/s.jpg".to_string()),
    }];
    let eps = season_episodes(&recs, 3);
    assert_eq!(eps.len(), 1);
    assert_eq!(eps[0].tmdb_episode_id, 7);
    assert_eq!(eps[0].season_number, 3);
    assert_eq!(eps[0].episode_number, 2);
    assert_eq!(eps[0].title.as_deref(), Some("Pilot"));
    assert_eq!(eps[0].runtime_minutes, Some(42));
    assert_eq!(eps[0].still_url.as_deref(), Some("https://image.tmdb.org/t/p/w300/s.jpg"));
}

#[test]
fn credits_order_defaults_to_position() {
    let rec = |id: u64, order: Option<u32>| CastRecord {
        id,
        name: format!("P{id}"),
        character: None,
        profile_path: Some("/p.jpg".to_string()),
        order,
    };
    let credits = episode_credits(&Some(vec![rec(1, Some(5)), rec(2, None)]), &None);
    assert_eq!(credits.cast.len(), 2);
    assert_eq!(credits.cast[0].order, 5);
    assert_eq!(credits.cast[1].order, 1);
    assert!(!credits.cast[1].is_guest);
    assert_eq!(credits.cast[0].profile_url.as_deref(), Some("https://image.tmdb.org/t/p/w185/p.jpg"));
    assert!(credits.guest_stars.is_empty());
    let guests = episode_credits(&None, &Some(vec![rec(3, None)]));
    assert!(guests.guest_stars[0].is_guest);
    assert_eq!(guests.guest_stars[0].order, 0);
}
