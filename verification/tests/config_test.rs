use imagetowebp::cli::CliArgs;
use imagetowebp::config::ConvertConfig;

#[test]
fn test_cli_args_to_config() {
    let args = CliArgs {
        input: vec!["dir1".to_string(), "file2.png".to_string()],
        output: Some("out_dir".to_string()),
        quality: 85,
        lossless: false,
        max_dimension: Some(1920),
        overwrite: true,
    };

    let config = args.to_config();
    assert_eq!(config.input_paths.len(), 2);
    assert_eq!(config.output_dir, Some("out_dir".to_string()));
    assert_eq!(config.quality, 85);
    assert_eq!(config.max_dimension, Some(1920));
    assert!(config.overwrite);
}

#[test]
fn test_config_validation_valid() {
    let config = ConvertConfig {
        input_paths: vec!["test.jpg".to_string()],
        quality: 80,
        ..Default::default()
    };
    assert!(config.validate().is_ok());
}

#[test]
fn test_config_validation_empty_inputs() {
    let config = ConvertConfig::default();
    assert!(config.validate().is_err());
}

#[test]
fn test_config_validation_invalid_quality() {
    let config = ConvertConfig {
        input_paths: vec!["test.jpg".to_string()],
        quality: 105,
        ..Default::default()
    };
    assert!(config.validate().is_err());
}

#[test]
fn default_config_values() {
    let config = ConvertConfig::default();
    assert!(config.input_paths.is_empty());
    assert_eq!(config.output_dir, None);
    assert_eq!(config.quality, 80);
    assert!(!config.lossless);
    assert_eq!(config.max_dimension, None);
    assert!(!config.overwrite);
}

#[test]
fn validation_messages_follow_rule_order() {
    let empty = ConvertConfig { quality: 0, max_dimension: Some(0), ..Default::default() };
    assert_eq!(
        empty.validate(),
        Err("At least one input file or directory must be specified.".to_string())
    );

    let zero_quality = ConvertConfig {
        input_paths: vec!["a.png".to_string()],
        quality: 0,
        max_dimension: Some(0),
        ..Default::default()
    };
    assert_eq!(zero_quality.validate(), Err("Quality must be between 1 and 100.".to_string()));

    let zero_dimension = ConvertConfig {
        input_paths: vec!["a.png".to_string()],
        max_dimension: Some(0),
        ..Default::default()
    };
    assert_eq!(zero_dimension.validate(), Err("Max dimension must be greater than 0.".to_string()));
}

#[test]
fn validation_quality_bounds() {
    for (quality, ok) in [(1u8, true), (100, true), (101, false), (255, false)] {
        let config = ConvertConfig {
            input_paths: vec!["a.png".to_string()],
            quality,
            max_dimension: Some(1),
            ..Default::default()
        };
        assert_eq!(config.validate().is_ok(), ok);
    }
}
