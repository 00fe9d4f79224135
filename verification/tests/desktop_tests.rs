use cast_server::desktop::{
    check_config, config_from_env, config_problem_message, default_encoder, dropped_videos, env_file_content,
    env_quote, server_config, AppConfig, ConfigProblem, LogBuffer,
};

#[test]
fn log_buffer_keeps_the_newest() {
    let mut log = LogBuffer::new(2);
    log.push_at("one".to_string(), "10:00:00".to_string());
    log.push_at("two".to_string(), "10:00:01".to_string());
    log.push_at("three".to_string(), "10:00:02".to_string());
    assert_eq!(log.entries.len(), 2);
    assert_eq!(log.entries[0].message, "two");
    assert_eq!(log.entries[1].message, "three");
    assert_eq!(log.entries[1].timestamp, "10:00:02");
}

#[test]
fn log_buffer_stamps_local_time() {
    let mut log = LogBuffer::new(500);
    log.push("hello".to_string());
    let t = &log.entries[0].timestamp;
    assert_eq!(t.len(), 8);
    assert_eq!(&t[2..3], ":");
    assert_eq!(&t[5..6], ":");
}

#[test]
fn log_buffer_of_zero_keeps_nothing() {
    let mut log = LogBuffer::new(0);
    log.push_at("x".to_string(), "00:00:00".to_string());
    assert!(log.entries.is_empty());
}

#[test]
fn defaults() {
    assert_eq!(default_encoder(), "auto");
    let c = AppConfig::default();
    assert_eq!(c.server_name, "Cast Server");
    assert_eq!(c.port, 3456);
    assert_eq!(c.encoder, "auto");
    assert!(c.media_path.is_empty());
}

#[test]
fn quoting_escapes_specials() {
    assert_eq!(env_quote(r#"C:\Media "x" $HOME"#), r#""C:\\Media \"x\" \$HOME""#);
    assert_eq!(env_quote(""), "\"\"");
}

#[test]
fn env_file_writes_non_defaults() {
    let mut c = AppConfig::default();
    c.media_path = "/m".to_string();
    assert_eq!(env_file_content(&c), "CAST_MEDIA_PATH=\"/m\"\nCAST_PORT=3456\n");
    c.tmdb_key = "k".to_string();
    c.server_name = "Den".to_string();
    c.port = 80;
    c.encoder = "qsv".to_string();
    assert_eq!(
        env_file_content(&c),
        "CAST_MEDIA_PATH=\"/m\"\nTMDB_API_KEY=\"k\"\nCAST_SERVER_NAME=\"Den\"\nCAST_PORT=80\nCAST_ENCODER=\"qsv\"\n"
    );
}

#[test]
fn env_values_round_trip_through_dotenvy() {
    let value = r#"C:\My "Shows" $HOME"#;
    let text = format!("CAST_MEDIA_PATH={}\n", env_quote(value));
    let parsed: Vec<(String, String)> = dotenvy::from_read_iter(text.as_bytes()).map(|r| r.unwrap()).collect();
    assert_eq!(parsed, vec![("CAST_MEDIA_PATH".to_string(), value.to_string())]);
}

#[test]
fn config_from_environment_values() {
    let c = config_from_env(None, None, None, Some("notaport".to_string()), None);
    assert_eq!(c.port, 3456);
    assert_eq!(c.server_name, "Cast Server");
    assert_eq!(c.encoder, "auto");
    let c = config_from_env(Some("/m".to_string()), Some("k".to_string()), Some("N".to_string()), Some("8080".to_string()), Some("nvenc".to_string()));
    assert_eq!(c.media_path, "/m");
    assert_eq!(c.tmdb_key, "k");
    assert_eq!(c.server_name, "N");
    assert_eq!(c.port, 8080);
    assert_eq!(c.encoder, "nvenc");
    assert_eq!(config_from_env(None, None, None, Some("70000".to_string()), None).port, 3456);
}

#[test]
fn saving_checks_in_order() {
    let mut c = AppConfig::default();
    c.media_path = "   ".to_string();
    assert_eq!(check_config(&c, true, true), Err(ConfigProblem::MediaPathMissing));
    c.media_path = "/m".to_string();
    assert_eq!(check_config(&c, false, false), Err(ConfigProblem::MediaFolderMissing));
    assert_eq!(check_config(&c, true, false), Err(ConfigProblem::NotAFolder));
    c.port = 0;
    assert_eq!(check_config(&c, true, true), Err(ConfigProblem::PortZero));
    c.port = 1;
    assert_eq!(check_config(&c, true, true), Ok(()));
    assert_eq!(config_problem_message(ConfigProblem::MediaFolderMissing, "/m"), "Media folder does not exist: /m");
    assert_eq!(config_problem_message(ConfigProblem::PortZero, "/m"), "Port must be between 1 and 65535");
}

#[test]
fn server_config_drops_empty_values() {
    let mut c = AppConfig::default();
    c.media_path = "/m".to_string();
    c.encoder = String::new();
    let s = server_config(&c);
    assert_eq!(s.media_path, "/m");
    assert_eq!(s.tmdb_key, None);
    assert_eq!(s.encoder_override, None);
    assert_eq!(s.name, "Cast Server");
    c.tmdb_key = "key".to_string();
    assert_eq!(server_config(&c).tmdb_key.as_deref(), Some("key"));
}

#[test]
fn dropped_files_filtered_to_videos() {
    let paths = vec!["/a/x.MKV".to_string(), "/a/y.txt".to_string(), "/a/z.m4v".to_string(), "/a/w".to_string()];
    assert_eq!(dropped_videos(&paths), vec!["/a/x.MKV".to_string(), "/a/z.m4v".to_string()]);
}
