use obake_launcher::setup::{SetupConfig, SetupSection, ShapeConfig};

fn sample_setup() -> SetupConfig {
    SetupConfig {
        setup: SetupSection {
            interface: "mixpre".to_string(),
            shapes: vec!["serialosc".to_string(), "siren".to_string()],
        },
        shapes: vec![
            (
                "serialosc".to_string(),
                ShapeConfig {
                    image: Some("serialosc.sif".to_string()),
                    env: Some(vec![(
                        "SINGULARITY_BIND".to_string(),
                        "/run/udev:/run/udev".to_string(),
                    )]),
                },
            ),
            (
                "siren".to_string(),
                ShapeConfig { image: Some("siren.sif".to_string()), env: None },
            ),
        ],
    }
}

#[test]
fn test_setup_config_loading() {
    let config = sample_setup();
    assert_eq!(config.setup.interface, "mixpre");
    assert!(config.setup.shapes.contains(&"serialosc".to_string()));
    assert!(config.setup.shapes.contains(&"siren".to_string()));

    let serialosc_shape = config.get_shape("serialosc").unwrap();
    assert!(serialosc_shape.image.is_some());
    assert_eq!(serialosc_shape.image.as_ref().unwrap(), "serialosc.sif");
    assert!(serialosc_shape.env.is_some());

    let env = serialosc_shape.env.as_ref().unwrap();
    assert!(env.iter().any(|(k, _)| k == "SINGULARITY_BIND"));
    let bind = env
        .iter()
        .find(|(k, _)| k == "SINGULARITY_BIND")
        .map(|(_, v)| v)
        .unwrap();
    assert_eq!(bind, "/run/udev:/run/udev");
}

#[test]
fn test_setup_config_with_tempfile() {
    let config = SetupConfig {
        setup: SetupSection {
            interface: "test_interface".to_string(),
            shapes: vec!["shape1".to_string(), "shape2".to_string()],
        },
        shapes: vec![
            (
                "shape1".to_string(),
                ShapeConfig { image: Some("shape1.sif".to_string()), env: None },
            ),
            (
                "shape2".to_string(),
                ShapeConfig {
                    image: Some("shape2.sif".to_string()),
                    env: Some(vec![("TEST_VAR".to_string(), "test_value".to_string())]),
                },
            ),
        ],
    };

    assert_eq!(config.setup.interface, "test_interface");
    assert_eq!(config.setup.shapes.len(), 2);
    assert!(config.setup.shapes.contains(&"shape1".to_string()));
    assert!(config.setup.shapes.contains(&"shape2".to_string()));

    let shape1 = config.get_shape("shape1").unwrap();
    assert!(shape1.image.is_some());
    assert_eq!(shape1.image.as_ref().unwrap(), "shape1.sif");
    assert!(shape1.env.is_none());

    let shape2 = config.get_shape("shape2").unwrap();
    assert!(shape2.image.is_some());
    assert_eq!(shape2.image.as_ref().unwrap(), "shape2.sif");
    assert!(shape2.env.is_some());

    let env = shape2.env.as_ref().unwrap();
    assert!(env.iter().any(|(k, _)| k == "TEST_VAR"));
    let value = env.iter().find(|(k, _)| k == "TEST_VAR").map(|(_, v)| v).unwrap();
    assert_eq!(value, "test_value");

    let managed_shapes = config.get_managed_shapes();
    assert_eq!(managed_shapes.len(), 2);

    let available_shapes = config.list_shapes();
    assert_eq!(available_shapes.len(), 2);
}

#[test]
fn test_optional_image_field() {
    let config = SetupConfig {
        setup: SetupSection {
            interface: "test_interface".to_string(),
            shapes: vec![
                "shape_with_image".to_string(),
                "shape_without_image".to_string(),
            ],
        },
        shapes: vec![
            (
                "shape_with_image".to_string(),
                ShapeConfig { image: Some("shape_with_image.sif".to_string()), env: None },
            ),
            ("shape_without_image".to_string(), ShapeConfig { image: None, env: None }),
        ],
    };

    let shape_with_image = config.get_shape("shape_with_image").unwrap();
    assert!(shape_with_image.image.is_some());
    assert_eq!(shape_with_image.image.as_ref().unwrap(), "shape_with_image.sif");

    let shape_without_image = config.get_shape("shape_without_image").unwrap();
    assert!(shape_without_image.image.is_none());
}

#[test]
fn test_get_shape_missing() {
    let config = sample_setup();
    assert!(config.get_shape("absent").is_none());
}

#[test]
fn test_list_shapes_order() {
    let config = sample_setup();
    let names = config.list_shapes();
    assert_eq!(names.len(), 2);
    assert_eq!(names[0], "serialosc");
    assert_eq!(names[1], "siren");

    let managed = config.get_managed_shapes();
    assert_eq!(managed, &vec!["serialosc".to_string(), "siren".to_string()]);
}
