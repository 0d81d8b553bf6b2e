use modtorio::config::{store_updates_from_env, StoreOptionField};
use modtorio::cache::{checksum_matches_meta, schema_needs_applying, CacheBuilder, CacheMetaField, CacheMetaValue, Game, GameMod, ReleaseDependency};
use modtorio::config::{
    Builder, DebugOptions, EnvConfig, FileConfig, LogLevel, NetAddress, NetworkOptions, OptsConfig, StoreConfig,
    CacheOptions, DEFAULT_STORE_EXPIRY,
};
use modtorio::settings::limit::Limit;
use modtorio::settings::network::SocketAddress;
use modtorio::sql::{all_params, select_params, sql_equals, sql_parameter, SqlField};

fn file_config() -> FileConfig {
    FileConfig {
        debug: DebugOptions { log_level: LogLevel::Trace, portal_page_size: Limit::Limited(5) },
        store: CacheOptions { expiry: 60 },
        network: NetworkOptions {
            listen: vec![
                NetAddress::Tcp(SocketAddress::V4 { ip: 0, port: 1337 }),
                NetAddress::Unix(String::from("/temp/path")),
            ],
        },
    }
}

#[test]
fn full_config() {
    let config = Builder::new()
        .apply_config_file(file_config())
        .apply_opts(OptsConfig::new(Some(LogLevel::Trace), Some(60)))
        .apply_store(StoreConfig { portal_username: Some(String::from("store_username")), portal_token: Some(String::from("store_username")) })
        .apply_env(EnvConfig { portal_username: Some(String::from("env_username")), portal_token: Some(String::from("env_token")) })
        .build();
    assert_eq!(config.log_level(), LogLevel::Trace);
    assert_eq!(config.store_expiry(), 60);
    assert_eq!(config.portal_username(), "env_username");
    assert_eq!(config.portal_token(), "env_token");
    assert_eq!(config.listen().len(), 2);
    assert!(matches!(config.listen()[0], NetAddress::Tcp(SocketAddress::V4 { ip: 0, port: 1337 })));
    match &config.listen()[1] {
        NetAddress::Unix(p) => assert_eq!(p, "/temp/path"),
        other => panic!("unexpected address {:?}", other),
    }
    assert_eq!(config.portal_page_size(), Limit::Limited(5));
}

#[test]
fn later_sources_only_override_what_they_give() {
    let config = Builder::new()
        .apply_config_file(file_config())
        .apply_opts(OptsConfig::new(None, Some(10)))
        .apply_store(StoreConfig { portal_username: Some(String::from("su")), portal_token: None })
        .apply_env(EnvConfig { portal_username: None, portal_token: Some(String::from("et")) })
        .build();
    assert_eq!(config.log_level(), LogLevel::Trace);
    assert_eq!(config.store_expiry(), 10);
    assert_eq!(config.portal_username(), "su");
    assert_eq!(config.portal_token(), "et");
    let default = Builder::new().build();
    assert_eq!(default.log_level(), LogLevel::Info);
    assert_eq!(default.portal_username(), "");
    assert_eq!(CacheOptions::default().expiry, DEFAULT_STORE_EXPIRY);
}

#[test]
fn net_address_texts() {
    assert_eq!(NetAddress::unix_path("unix:/temp/path").as_deref(), Some("/temp/path"));
    assert_eq!(NetAddress::unix_path("0.0.0.0:1337"), None);
    assert_eq!(NetAddress::unix_path("unix"), None);
    assert_eq!(NetAddress::unix_text("/temp/path"), "unix:/temp/path");
}

fn fields(spec: &[(&str, bool, bool)]) -> Vec<SqlField> {
    spec.iter().map(|(n, i, g)| SqlField { name: n.to_string(), is_index: *i, ignore_in_all_params: *g }).collect()
}

#[test]
fn sql_statements() {
    assert_eq!(sql_parameter("path"), ":path");
    assert_eq!(sql_equals("id"), "id = :id");
    let game = Game::schema();
    assert_eq!(game.select(), "SELECT * FROM game WHERE id = :id");
    assert_eq!(game.select_all(), "SELECT * FROM game");
    assert_eq!(game.insert_into(), "INSERT INTO game (path) VALUES (:path)");
    assert_eq!(game.update(), "UPDATE game SET path = :path WHERE id = :id");
    assert_eq!(game.replace_into(), "REPLACE INTO game (id, path) VALUES (:id, :path)");
    assert_eq!(all_params(&game.fields), vec![":path"]);
    assert_eq!(select_params(&game.fields), vec![":id"]);
    let gm = GameMod::schema();
    assert_eq!(
        gm.replace_into(),
        "REPLACE INTO game_mod (game, factorio_mod, mod_version, mod_zip, zip_checksum) VALUES (:game, :factorio_mod, :mod_version, :mod_zip, :zip_checksum)"
    );
    let rd = ReleaseDependency::schema();
    assert_eq!(
        rd.select(),
        "SELECT * FROM release_dependency WHERE release_mod_name = :release_mod_name AND release_version = :release_version"
    );
    assert_eq!(
        rd.update(),
        "UPDATE release_dependency SET name = :name, requirement = :requirement, version_req = :version_req WHERE release_mod_name = :release_mod_name, release_version = :release_version"
    );
    let meta = CacheMetaValue::schema();
    assert_eq!(meta.select(), "SELECT * FROM _meta WHERE field = :field");
    let none = fields(&[("a", false, false)]);
    assert_eq!(modtorio::sql::select_clause("t", &none), "SELECT * FROM t WHERE ");
}

#[test]
fn cache_schema_checks() {
    let stored = Some(CacheMetaValue { field: CacheMetaField::SchemaChecksum, value: Some(String::from("abc")) });
    assert!(checksum_matches_meta(&stored, "abc"));
    assert!(!checksum_matches_meta(&stored, "abd"));
    let unset = Some(CacheMetaValue { field: CacheMetaField::SchemaChecksum, value: None });
    assert!(!checksum_matches_meta(&unset, "abc"));
    assert!(!checksum_matches_meta(&None, "abc"));
    assert!(schema_needs_applying(false, &stored, "abc"));
    assert!(!schema_needs_applying(true, &stored, "abc"));
    assert!(schema_needs_applying(true, &None, "abc"));
    assert_eq!(CacheMetaField::SchemaChecksum.to_string(), "SchemaChecksum");
    assert_eq!(CacheMetaField::from_name("SchemaChecksum"), Some(CacheMetaField::SchemaChecksum));
    assert_eq!(CacheMetaField::from_name("Other"), None);
    let builder = CacheBuilder::new("CREATE TABLE x (a);").with_db_path("/tmp/db");
    assert_eq!(builder.db_path(), "/tmp/db");
    assert_eq!(builder.schema_statement(), "BEGIN TRANSACTION; CREATE TABLE x (a); COMMIT;");
    assert_eq!(CacheBuilder::new("").db_path(), "modtorio.db");
}

#[test]
fn store_options_from_env() {
    let vars = vec![
        (String::from("MODTORIO_PORTAL_TOKEN"), String::from("t")),
        (String::from("HOME"), String::from("/root")),
        (String::from("MODTORIO_PORTAL_USERNAME"), String::from("u")),
    ];
    let updates = store_updates_from_env(&vars);
    assert_eq!(updates, vec![(StoreOptionField::PortalToken, String::from("t")), (StoreOptionField::PortalUsername, String::from("u"))]);
    assert!(store_updates_from_env(&vec![]).is_empty());
}

#[test]
fn log_level_names() {
    assert_eq!(LogLevel::from_name("trace"), Some(LogLevel::Trace));
    assert_eq!(LogLevel::from_name("off"), Some(LogLevel::Off));
    assert_eq!(LogLevel::from_name("warn"), Some(LogLevel::Warn));
    assert_eq!(LogLevel::from_name(""), Some(LogLevel::default()));
    assert_eq!(LogLevel::from_name("Trace"), None);
    assert_eq!(LogLevel::from_name("verbose"), None);
}
