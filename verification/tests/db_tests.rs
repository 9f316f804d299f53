use split_server::db::pool_settings;

#[test]
fn pool_settings_for_a_valid_url() {
    let settings = pool_settings("sqlite://split.db").unwrap();
    assert_eq!(settings.max_connections, 5);
    assert!(!settings.log_statements);
    assert_eq!(
        settings.pragmas,
        vec![
            ("journal_mode", "WAL"),
            ("foreign_keys", "ON"),
            ("synchronous", "NORMAL"),
            ("temp_store", "MEMORY"),
            ("cache_size", "-200000"),
        ]
    );
    let options = format!("{:?}", settings.options);
    assert!(options.contains("journal_mode"));
    assert!(options.contains("-200000"));
}

#[test]
fn pool_settings_for_an_in_memory_database() {
    assert!(pool_settings("sqlite::memory:").is_ok());
}

#[test]
fn pool_settings_refuse_a_bad_url() {
    assert!(pool_settings("sqlite://split.db?mode=sideways").is_err());
}
