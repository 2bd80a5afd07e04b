use obake_launcher::errors::LauncherError;
use obake_launcher::resolve::{default_search_paths, select_config_source, ConfigSource};

#[test]
fn test_default_search_paths() {
    let paths = default_search_paths("/home/obake");
    assert_eq!(paths.len(), 2);
    assert_eq!(paths[0], "/home/obake/.config/obake/config.toml");
    assert_eq!(paths[1], "/etc/obake/config.toml");

    let no_home = default_search_paths("");
    assert_eq!(no_home[0], "/.config/obake/config.toml");
    assert_eq!(no_home[1], "/etc/obake/config.toml");
}

#[test]
fn test_override_short_circuits() {
    // The override is chosen as given even though both candidates exist:
    // the search paths are never a fallback.
    let candidates = default_search_paths("/home/obake");
    let chosen = select_config_source(
        Some("/custom/config.toml".to_string()),
        candidates,
        &vec![true, true],
    )
    .unwrap();
    match chosen {
        ConfigSource::Override { path } => assert_eq!(path, "/custom/config.toml"),
        ConfigSource::Probed { .. } => panic!("override must not fall back to probing"),
    }
}

#[test]
fn test_override_nonexistent_still_chosen() {
    // An override pointing at a path that does not exist is still the
    // chosen source: the load then fails hard instead of probing.
    let candidates = default_search_paths("/home/obake");
    let chosen = select_config_source(
        Some("/nonexistent/config.toml".to_string()),
        candidates,
        &vec![true, true],
    )
    .unwrap();
    match chosen {
        ConfigSource::Override { path } => assert_eq!(path, "/nonexistent/config.toml"),
        ConfigSource::Probed { .. } => panic!("override must not fall back to probing"),
    }
}

#[test]
fn test_user_path_preferred() {
    let candidates = default_search_paths("/home/obake");
    let chosen = select_config_source(None, candidates, &vec![true, true]).unwrap();
    match chosen {
        ConfigSource::Probed { path } => {
            assert_eq!(path, "/home/obake/.config/obake/config.toml")
        }
        ConfigSource::Override { .. } => panic!("no override was given"),
    }
}

#[test]
fn test_system_path_fallback() {
    let candidates = default_search_paths("/home/obake");
    let chosen = select_config_source(None, candidates, &vec![false, true]).unwrap();
    match chosen {
        ConfigSource::Probed { path } => assert_eq!(path, "/etc/obake/config.toml"),
        ConfigSource::Override { .. } => panic!("no override was given"),
    }
}

#[test]
fn test_config_invalid_carries_path() {
    // A file that exists but fails to parse is reported as invalid with
    // the offending path, distinct from "not found".
    let err = LauncherError::ConfigInvalid { path: "/etc/obake/config.toml".to_string() };
    match err {
        LauncherError::ConfigInvalid { path } => assert_eq!(path, "/etc/obake/config.toml"),
        _ => panic!("expected ConfigInvalid"),
    }
}

#[test]
fn test_not_found_lists_both_paths() {
    let candidates = default_search_paths("/home/obake");
    let err = select_config_source(None, candidates, &vec![false, false]).unwrap_err();
    match err {
        LauncherError::ConfigNotFound { probed } => {
            assert_eq!(probed.len(), 2);
            assert_eq!(probed[0], "/home/obake/.config/obake/config.toml");
            assert_eq!(probed[1], "/etc/obake/config.toml");
        }
        _ => panic!("expected ConfigNotFound"),
    }
}
