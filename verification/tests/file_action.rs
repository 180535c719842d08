use simplesql::file_action::{
    file_dialog_title, path_has_sql_extension, suggested_file_name, suggested_save_path,
    suggested_suffix, FileAction, MAX_TIMESTAMP_SECONDS,
};

#[test]
fn suggested_file_name_uses_the_timestamp_of_the_second() {
    assert_eq!(suggested_file_name(0), "query_1970-01-01T00:00:00Z.sql");
    assert_eq!(suggested_file_name(1518568087), "query_2018-02-14T00:28:07Z.sql");
    assert_eq!(suggested_file_name(951782400), "query_2000-02-29T00:00:00Z.sql");
    assert_eq!(suggested_file_name(MAX_TIMESTAMP_SECONDS), "query_9999-12-31T23:59:59Z.sql");
}

#[test]
fn save_path_gets_default_name_when_extension_is_missing() {
    assert_eq!(
        suggested_save_path("/home/user", 1518568087, false),
        "/home/user/query_2018-02-14T00:28:07Z.sql"
    );
    assert_eq!(
        suggested_save_path("C:\\Users\\u", 1518568087, true),
        "C:\\Users\\u\\query_2018-02-14T00:28:07Z.sql"
    );
    assert_eq!(suggested_save_path("", 0, false), "/query_1970-01-01T00:00:00Z.sql");
    assert_eq!(
        suggested_save_path("/tmp/notes.sql.bak", 0, false),
        "/tmp/notes.sql.bak/query_1970-01-01T00:00:00Z.sql"
    );
    assert_eq!(
        suggested_save_path("/tmp/q.SQL", 0, false),
        "/tmp/q.SQL/query_1970-01-01T00:00:00Z.sql"
    );
}

#[test]
fn save_path_with_extension_is_unchanged() {
    assert_eq!(suggested_save_path("/home/user/a.sql", 1518568087, false), "/home/user/a.sql");
    assert_eq!(suggested_save_path(".sql", 7, true), ".sql");
    assert_eq!(suggested_suffix("/home/user/a.sql", 7, false), "");
    assert_eq!(suggested_suffix("/home/user", 0, false), "/query_1970-01-01T00:00:00Z.sql");
}

#[test]
fn save_path_always_ends_in_the_extension() {
    for path in ["", "/", "/a/b", "a.sql", "a.sqlx", "a.sq", "sql", "x.sql/", "\u{e4}.sql"] {
        for windows in [false, true] {
            let proposed = suggested_save_path(path, 86400, windows);
            assert!(proposed.ends_with(".sql"));
            assert!(proposed.starts_with(path));
            if path.ends_with(".sql") {
                assert_eq!(proposed, path);
            }
        }
    }
}

#[test]
fn sql_extension_is_a_suffix() {
    assert!(path_has_sql_extension("a.sql"));
    assert!(path_has_sql_extension(".sql"));
    assert!(!path_has_sql_extension("a.sql "));
    assert!(!path_has_sql_extension("asql"));
    assert!(!path_has_sql_extension(""));
}

#[test]
fn dialog_titles() {
    assert_eq!(file_dialog_title(Some(FileAction::Save)), "Save SQL to File");
    assert_eq!(file_dialog_title(Some(FileAction::Load)), "Load SQL from File");
    assert_eq!(file_dialog_title(None), "File Action");
}
