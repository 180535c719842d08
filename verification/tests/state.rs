use simplesql::config::{default_config, Config, ConfigError, Connection, Credential};
use simplesql::state::AppState;
use simplesql::tab::Tab;

fn credential(name: &str, connection: &str) -> Credential {
    Credential {
        name: name.to_string(),
        connection: connection.to_string(),
        username: format!("user_{}", name),
        password: format!("pw_{}", name),
    }
}

fn connection(name: &str, kind: &str, port: u16) -> Connection {
    Connection { name: name.to_string(), kind: kind.to_string(), host: "db.local".to_string(), port }
}

fn config_of(names: &[&str]) -> Config {
    Config {
        schema: None,
        connections: vec![connection("main", "mysql", 3306)],
        credentials: names.iter().map(|n| credential(n, "main")).collect(),
    }
}

#[test]
fn test_app_state_default_user() {
    let state = AppState::new(default_config());
    assert!(!state.user.name.is_empty());
    assert_eq!(state.current_tab.to_index(), 0);
    assert!(state.sql_query.contains("select"));
}

#[test]
fn app_state_starts_with_first_credential() {
    let state = AppState::new(default_config());
    assert_eq!(state.user.name, "mysql_default");
    assert_eq!(state.active().name, "mysql_default");
    assert_eq!(state.sql_query, "select * from data;");
    assert_eq!(state.db, "bewerbungen");
    assert_eq!(state.current_tab, Tab::SqlEditor);
    assert!(state.table.is_empty());
    assert!(state.table.raw_data.is_none());
}

#[test]
fn default_config_contents() {
    let c = default_config();
    assert_eq!(c.schema, None);
    let connections: Vec<(String, String, String, u16)> = c
        .connections
        .iter()
        .map(|x| (x.name.clone(), x.kind.clone(), x.host.clone(), x.port))
        .collect();
    assert_eq!(
        connections,
        vec![
            ("Local mariaDB".to_string(), "mariadb".to_string(), "localhost".to_string(), 3306),
            ("Local MySQL".to_string(), "mysql".to_string(), "localhost".to_string(), 3306),
            ("Local PostgreSQL".to_string(), "postgresql".to_string(), "localhost".to_string(), 5432),
        ]
    );
    let credentials: Vec<(String, String, String, String)> = c
        .credentials
        .iter()
        .map(|x| (x.name.clone(), x.connection.clone(), x.username.clone(), x.password.clone()))
        .collect();
    assert_eq!(
        credentials,
        vec![
            (
                "mysql_default".to_string(),
                "Local mariaDB".to_string(),
                "root".to_string(),
                "".to_string()
            ),
            (
                "postgresql_default".to_string(),
                "Local PostgreSQL".to_string(),
                "postgres".to_string(),
                "".to_string()
            ),
        ]
    );
    assert_eq!(c.validate(), Ok(()));
}

#[test]
fn rotation_wraps_around() {
    let mut state = AppState::new(config_of(&["a", "b", "c"]));
    assert_eq!(state.user.name, "a");
    state.set_next_user();
    assert_eq!(state.user.name, "b");
    assert_eq!(state.user.username, "user_b");
    state.set_next_user();
    assert_eq!(state.user.name, "c");
    state.set_next_user();
    assert_eq!(state.user.name, "a");
}

#[test]
fn rotating_n_times_returns_to_start() {
    for n in 1..6usize {
        let names: Vec<String> = (0..n).map(|i| format!("cred{}", i)).collect();
        let refs: Vec<&str> = names.iter().map(|s| s.as_str()).collect();
        for start in 0..n {
            let mut state = AppState::new(config_of(&refs));
            for _ in 0..start {
                state.set_next_user();
            }
            let before = state.user.clone();
            for _ in 0..n {
                state.set_next_user();
            }
            assert_eq!(state.user.name, before.name);
            assert_eq!(state.user.username, before.username);
            assert_eq!(state.user.password, before.password);
            assert_eq!(state.user.connection, before.connection);
        }
    }
}

#[test]
fn rotation_with_one_credential_stays() {
    let mut state = AppState::new(config_of(&["only"]));
    state.set_next_user();
    assert_eq!(state.user.name, "only");
}

#[test]
fn rotation_from_unknown_user_goes_to_second() {
    let mut state = AppState::new(config_of(&["a", "b", "c"]));
    state.user = credential("stranger", "main");
    state.set_next_user();
    assert_eq!(state.user.name, "b");
}

#[test]
fn rotation_keeps_everything_else() {
    let mut state = AppState::new(config_of(&["a", "b"]));
    state.sql_query = "select 1".to_string();
    state.db = "shop".to_string();
    state.current_tab = Tab::LogViewer;
    state.set_next_user();
    assert_eq!(state.sql_query, "select 1");
    assert_eq!(state.db, "shop");
    assert_eq!(state.current_tab, Tab::LogViewer);
    assert_eq!(state.config.credentials.len(), 2);
}

#[test]
fn resolve_finds_first_profile_of_that_name() {
    let mut config = config_of(&["a"]);
    config.connections.push(connection("other", "postgres", 5432));
    config.connections.push(connection("main", "generic", 1));
    let state = AppState::new(config);
    let found = state.resolve(&credential("x", "main")).unwrap();
    assert_eq!(found.kind, "mysql");
    assert_eq!(found.port, 3306);
    let other = state.resolve(&credential("x", "other")).unwrap();
    assert_eq!(other.kind, "postgres");
    assert!(state.resolve(&credential("x", "missing")).is_none());
    assert!(state.resolve(&credential("x", "")).is_none());
}

#[test]
fn find_credential_and_connection() {
    let config = config_of(&["a", "b", "a"]);
    assert_eq!(config.find_credential(&"a".to_string()), Some(0));
    assert_eq!(config.find_credential(&"b".to_string()), Some(1));
    assert_eq!(config.find_credential(&"c".to_string()), None);
    assert_eq!(config.find_connection(&"main".to_string()), Some(0));
    assert_eq!(config.find_connection(&"Main".to_string()), None);
}

#[test]
fn validate_reports_each_fault() {
    assert_eq!(config_of(&[]).validate(), Err(ConfigError::NoCredentials));
    assert_eq!(config_of(&["a", "b"]).validate(), Ok(()));
    assert_eq!(config_of(&["a", "b", "a"]).validate(), Err(ConfigError::DuplicateCredential));
    let mut twice = config_of(&["a"]);
    twice.connections.push(connection("main", "postgres", 5432));
    assert_eq!(twice.validate(), Err(ConfigError::DuplicateConnection));
    let mut unknown = config_of(&["a"]);
    unknown.credentials.push(credential("b", "nowhere"));
    assert_eq!(unknown.validate(), Err(ConfigError::UnknownConnection));
    let mut no_connections = config_of(&["a"]);
    no_connections.connections.clear();
    assert_eq!(no_connections.validate(), Err(ConfigError::UnknownConnection));
    // the first fault in order is the one reported
    let mut both = config_of(&["a", "a"]);
    both.connections.push(connection("main", "postgres", 5432));
    assert_eq!(both.validate(), Err(ConfigError::DuplicateConnection));
}

#[test]
fn clones_are_equal_field_by_field() {
    let c = credential("a", "main");
    let d = c.clone();
    assert_eq!((c.name, c.connection, c.username, c.password), (d.name, d.connection, d.username, d.password));
    let x = connection("main", "mysql", 3306);
    let y = x.clone();
    assert_eq!((x.name, x.kind, x.host, x.port), (y.name, y.kind, y.host, y.port));
}

#[test]
fn from_config_checks_the_configuration() {
    let state = AppState::from_config(default_config()).unwrap();
    assert_eq!(state.user.name, "mysql_default");
    assert_eq!(AppState::from_config(config_of(&[])).unwrap_err(), ConfigError::NoCredentials);
    assert_eq!(
        AppState::from_config(config_of(&["a", "a"])).unwrap_err(),
        ConfigError::DuplicateCredential
    );
}
