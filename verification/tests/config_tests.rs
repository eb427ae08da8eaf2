use alpee_core::config::Config;
use alpee_core::error::FileRead;

#[test]
fn default_config_values() {
    let c = Config::default();
    assert_eq!(c.host, "127.0.0.1");
    assert_eq!(c.port, 8001);
    assert_eq!(c.modules_dir, "./modules");
    assert_eq!(c.socket_path, "/tmp/alpee-core.sock");
    assert_eq!(c.log_level, "info");
}

#[test]
fn missing_file_gives_the_default() {
    let c = Config::from_file(FileRead::Missing).unwrap();
    assert_eq!(c.port, 8001);
    assert_eq!(c.host, "127.0.0.1");
}

#[test]
fn parsed_file_is_taken_as_is() {
    let given = Config {
        host: "0.0.0.0".to_string(),
        port: 9000,
        modules_dir: "/srv/modules".to_string(),
        socket_path: "/run/alpee.sock".to_string(),
        log_level: "debug".to_string(),
    };
    let c = Config::from_file(FileRead::Parsed(given)).unwrap();
    assert_eq!(c.host, "0.0.0.0");
    assert_eq!(c.port, 9000);
    assert_eq!(c.modules_dir, "/srv/modules");
    assert_eq!(c.socket_path, "/run/alpee.sock");
    assert_eq!(c.log_level, "debug");
}

#[test]
fn unreadable_file_is_reported() {
    let e = Config::from_file(FileRead::Unreadable("denied".to_string())).unwrap_err();
    assert_eq!(e, "Failed to read alpee.toml: denied");
}

#[test]
fn malformed_file_is_reported() {
    let e = Config::from_file(FileRead::Malformed("missing field `port`".to_string())).unwrap_err();
    assert_eq!(e, "Failed to parse alpee.toml: missing field `port`");
}
