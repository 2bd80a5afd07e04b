use obake_launcher::config::{AudioConfig, AudioInterface, Config, DataConfig};

fn sample_config() -> Config {
    Config {
        audio: AudioConfig {
            default_interface: "mixpre".to_string(),
            interfaces: vec![(
                "mixpre".to_string(),
                AudioInterface {
                    interface_type: "jack".to_string(),
                    unit: Some("jack@mixpre.service".to_string()),
                },
            )],
        },
        data: DataConfig {
            images_dir: "/test/images".to_string(),
            setups_dir: "/test/setups".to_string(),
            data_dir: "/test/data".to_string(),
        },
    }
}

#[test]
fn test_config_loading() {
    let config = sample_config();
    assert_eq!(config.audio.default_interface, "mixpre");
    assert!(config.get_audio_interface("mixpre").is_some());

    let mixpre_interface = config.get_audio_interface("mixpre").unwrap();
    assert_eq!(mixpre_interface.interface_type, "jack");
    assert!(mixpre_interface.unit.is_some());
    assert_eq!(mixpre_interface.unit.as_ref().unwrap(), "jack@mixpre.service");
}

#[test]
fn test_config_load_search_paths() {
    let config = Config {
        audio: AudioConfig {
            default_interface: "test".to_string(),
            interfaces: vec![(
                "test".to_string(),
                AudioInterface {
                    interface_type: "test".to_string(),
                    unit: Some("test.service".to_string()),
                },
            )],
        },
        data: DataConfig {
            images_dir: "/test/images".to_string(),
            setups_dir: "/test/setups".to_string(),
            data_dir: "/test/data".to_string(),
        },
    };

    assert_eq!(config.audio.default_interface, "test");
    assert!(config.get_audio_interface("test").is_some());

    assert_eq!(config.data.images_dir, "/test/images");
    assert_eq!(config.data.setups_dir, "/test/setups");
    assert_eq!(config.data.data_dir, "/test/data");

    assert_eq!(config.get_images_dir(), "/test/images");
    assert_eq!(config.get_setups_dir(), "/test/setups");
    assert_eq!(config.get_data_dir(), "/test/data");

    let (images_dir, setups_dir, data_dir) = config.get_data_dirs();
    assert_eq!(images_dir, "/test/images");
    assert_eq!(setups_dir, "/test/setups");
    assert_eq!(data_dir, "/test/data");
}

#[test]
fn test_optional_unit_field() {
    let config = Config {
        audio: AudioConfig {
            default_interface: "alsa".to_string(),
            interfaces: vec![
                (
                    "alsa".to_string(),
                    AudioInterface { interface_type: "alsa".to_string(), unit: None },
                ),
                (
                    "jack".to_string(),
                    AudioInterface {
                        interface_type: "jack".to_string(),
                        unit: Some("jack.service".to_string()),
                    },
                ),
            ],
        },
        data: DataConfig {
            images_dir: "/test/images".to_string(),
            setups_dir: "/test/setups".to_string(),
            data_dir: "/test/data".to_string(),
        },
    };

    let alsa_interface = config.get_audio_interface("alsa").unwrap();
    assert_eq!(alsa_interface.interface_type, "alsa");
    assert!(alsa_interface.unit.is_none());

    let jack_interface = config.get_audio_interface("jack").unwrap();
    assert_eq!(jack_interface.interface_type, "jack");
    assert!(jack_interface.unit.is_some());
    assert_eq!(jack_interface.unit.as_ref().unwrap(), "jack.service");
}

#[test]
fn test_data_configuration() {
    let config = Config {
        audio: AudioConfig {
            default_interface: "test".to_string(),
            interfaces: vec![(
                "test".to_string(),
                AudioInterface { interface_type: "test".to_string(), unit: None },
            )],
        },
        data: DataConfig {
            images_dir: "/custom/images".to_string(),
            setups_dir: "/custom/setups".to_string(),
            data_dir: "/custom/data".to_string(),
        },
    };

    assert_eq!(config.data.images_dir, "/custom/images");
    assert_eq!(config.data.setups_dir, "/custom/setups");
    assert_eq!(config.data.data_dir, "/custom/data");

    assert_eq!(config.get_images_dir(), "/custom/images");
    assert_eq!(config.get_setups_dir(), "/custom/setups");
    assert_eq!(config.get_data_dir(), "/custom/data");

    let (images_dir, setups_dir, data_dir) = config.get_data_dirs();
    assert_eq!(images_dir, "/custom/images");
    assert_eq!(setups_dir, "/custom/setups");
    assert_eq!(data_dir, "/custom/data");

    let image_path = format!("{}/shape.sif", config.get_images_dir());
    let setup_path = format!("{}/setup.toml", config.get_setups_dir());
    let log_path = format!("{}/app.log", config.get_data_dir());

    assert_eq!(image_path, "/custom/images/shape.sif");
    assert_eq!(setup_path, "/custom/setups/setup.toml");
    assert_eq!(log_path, "/custom/data/app.log");
}

#[test]
fn test_default_interface_lookup() {
    let config = sample_config();
    let default = config.get_default_audio_interface().unwrap();
    assert_eq!(default.interface_type, "jack");

    let dangling = Config {
        audio: AudioConfig {
            default_interface: "absent".to_string(),
            interfaces: vec![(
                "present".to_string(),
                AudioInterface { interface_type: "alsa".to_string(), unit: None },
            )],
        },
        data: DataConfig {
            images_dir: "/i".to_string(),
            setups_dir: "/s".to_string(),
            data_dir: "/d".to_string(),
        },
    };
    assert!(dangling.get_default_audio_interface().is_none());
    assert!(dangling.get_audio_interface("absent").is_none());
}

#[test]
fn test_list_audio_interfaces_order() {
    let config = Config {
        audio: AudioConfig {
            default_interface: "b".to_string(),
            interfaces: vec![
                (
                    "b".to_string(),
                    AudioInterface { interface_type: "jack".to_string(), unit: None },
                ),
                (
                    "a".to_string(),
                    AudioInterface { interface_type: "alsa".to_string(), unit: None },
                ),
            ],
        },
        data: DataConfig {
            images_dir: "/i".to_string(),
            setups_dir: "/s".to_string(),
            data_dir: "/d".to_string(),
        },
    };
    let names = config.list_audio_interfaces();
    assert_eq!(names.len(), 2);
    assert_eq!(names[0], "b");
    assert_eq!(names[1], "a");
}
