use yomiage::config::{
    config_file_path, resolve_input_paths, validate_target_ids, Config, ConfigError, Environment,
    FileConfig, TargetConfig, VoicevoxConfig,
};

fn target(id: &str, path: &str) -> TargetConfig {
    TargetConfig { id: id.to_string(), input_path: path.to_string() }
}

fn no_env() -> Environment {
    Environment { bind_addr: None, data_dir: None, voicevox_url: None, poll_interval_seconds: None }
}

#[test]
fn unique_valid_ids_are_accepted() {
    assert!(validate_target_ids(&[target("a", "a.txt"), target("b-2", "b.txt")]).is_ok());
    assert!(validate_target_ids(&[]).is_ok());
}

#[test]
fn first_invalid_id_is_reported() {
    match validate_target_ids(&[target("ok", "x"), target("bad id", "y"), target("", "z")]) {
        Err(ConfigError::InvalidTargetId(id)) => assert_eq!(id, "bad id"),
        _ => panic!("expected an invalid ID"),
    }
}

#[test]
fn duplicate_id_is_reported() {
    match validate_target_ids(&[target("a", "x"), target("b", "y"), target("a", "z")]) {
        Err(ConfigError::DuplicateTargetId(id)) => assert_eq!(id, "a"),
        _ => panic!("expected a duplicate ID"),
    }
}

#[test]
fn relative_input_paths_follow_the_config_file() {
    let mut targets = vec![target("a", "./sample.txt"), target("b", "/abs/b.txt")];
    resolve_input_paths(&mut targets, "/etc/yomiage/config.toml");
    assert_eq!(targets[0].input_path, "/etc/yomiage/./sample.txt");
    assert_eq!(targets[1].input_path, "/abs/b.txt");
    assert_eq!(targets[0].id, "a");

    let mut bare = vec![target("a", "sample.txt")];
    resolve_input_paths(&mut bare, "config.toml");
    assert_eq!(bare[0].input_path, "sample.txt");
}

#[test]
fn defaults_apply_when_variables_are_unset() {
    let file = FileConfig { voicevox: VoicevoxConfig { speaker: 3 }, targets: vec![target("sample", "s.txt")] };
    let config = Config::load("dir/config.toml", file, no_env()).ok().unwrap();
    assert_eq!(config.bind_addr, "0.0.0.0:8080");
    assert_eq!(config.data_dir, "./data");
    assert_eq!(config.voicevox_url, "http://127.0.0.1:50021");
    assert_eq!(config.poll_interval_seconds, 300);
    assert_eq!(config.voicevox.speaker, 3);
    assert_eq!(config.targets[0].input_path, "dir/s.txt");
    assert_eq!(config_file_path(None), "config.toml");
    assert_eq!(config_file_path(Some("/x.toml".to_string())), "/x.toml");
}

#[test]
fn environment_overrides_defaults() {
    let file = FileConfig { voicevox: VoicevoxConfig { speaker: 1 }, targets: vec![] };
    let env = Environment {
        bind_addr: Some("127.0.0.1:1".to_string()),
        data_dir: Some("/data".to_string()),
        voicevox_url: Some("http://vv:50021//".to_string()),
        poll_interval_seconds: Some("+15".to_string()),
    };
    let config = Config::load("config.toml", file, env).ok().unwrap();
    assert_eq!(config.bind_addr, "127.0.0.1:1");
    assert_eq!(config.data_dir, "/data");
    assert_eq!(config.voicevox_url, "http://vv:50021");
    assert_eq!(config.poll_interval_seconds, 15);
}

#[test]
fn poll_interval_must_be_positive() {
    for value in ["0", "-3", "abc", ""] {
        let file = FileConfig { voicevox: VoicevoxConfig { speaker: 1 }, targets: vec![] };
        let env = Environment { poll_interval_seconds: Some(value.to_string()), ..no_env() };
        assert!(matches!(Config::load("c.toml", file, env), Err(ConfigError::InvalidPollInterval)));
    }
}

#[test]
fn id_errors_come_before_poll_errors() {
    let file = FileConfig { voicevox: VoicevoxConfig { speaker: 1 }, targets: vec![target("x y", "a")] };
    let env = Environment { poll_interval_seconds: Some("0".to_string()), ..no_env() };
    assert!(matches!(Config::load("c.toml", file, env), Err(ConfigError::InvalidTargetId(_))));
}
