use imagetowebp::cli::{parse_input_paths, parse_output_dir, WizardAnswers};
use imagetowebp::text::{comma_separated_items, is_white_space, split_commas, trim};

#[test]
fn input_paths_split_trimmed_and_blank_dropped() {
    assert_eq!(
        parse_input_paths(" photo1.png, ,photo2.jpg ,"),
        vec!["photo1.png".to_string(), "photo2.jpg".to_string()]
    );
    assert_eq!(parse_input_paths("./images"), vec!["./images".to_string()]);
    assert!(parse_input_paths("").is_empty());
    assert!(parse_input_paths(" , ,").is_empty());
}

#[test]
fn output_dir_blank_is_none() {
    assert_eq!(parse_output_dir(""), None);
    assert_eq!(parse_output_dir("   \t"), None);
    assert_eq!(parse_output_dir("  out dir \n"), Some("out dir".to_string()));
}

#[test]
fn trim_uses_unicode_white_space() {
    assert_eq!(trim("\u{3000}\u{a0} 画像.png\u{2029}\t"), "画像.png".to_string());
    assert_eq!(trim("  "), String::new());
    assert_eq!(trim("a b"), "a b".to_string());
    assert!(is_white_space('\u{85}'));
    assert!(is_white_space('\u{200a}'));
    assert!(!is_white_space('\u{200b}'));
    assert!(!is_white_space('x'));
    for c in ['\t', '\n', ' ', '\u{a0}', '\u{1680}', '\u{2000}', '\u{2028}', '\u{202f}', '\u{205f}', '\u{3000}', 'a', '\u{180e}', '\u{feff}'] {
        assert_eq!(is_white_space(c), c.is_whitespace());
    }
}

#[test]
fn split_keeps_empty_pieces() {
    assert_eq!(
        split_commas(",a,,b"),
        vec![String::new(), "a".to_string(), String::new(), "b".to_string()]
    );
    assert_eq!(split_commas(""), vec![String::new()]);
    assert_eq!(comma_separated_items(" x ,y"), vec!["x".to_string(), "y".to_string()]);
}

#[test]
fn wizard_lossless_forces_quality_100() {
    let answers = WizardAnswers {
        input_text: "a.png, b.png".to_string(),
        output_text: " ".to_string(),
        lossless: true,
        quality: 40,
        max_dimension: Some(1920),
        overwrite: false,
    };
    let config = answers.to_config();
    assert_eq!(config.input_paths, vec!["a.png".to_string(), "b.png".to_string()]);
    assert_eq!(config.output_dir, None);
    assert_eq!(config.quality, 100);
    assert!(config.lossless);
    assert_eq!(config.max_dimension, Some(1920));
    assert!(!config.overwrite);
}

#[test]
fn wizard_lossy_keeps_answered_quality() {
    let answers = WizardAnswers {
        input_text: "./images".to_string(),
        output_text: "out".to_string(),
        lossless: false,
        quality: 55,
        max_dimension: None,
        overwrite: true,
    };
    let config = answers.to_config();
    assert_eq!(config.input_paths, vec!["./images".to_string()]);
    assert_eq!(config.output_dir, Some("out".to_string()));
    assert_eq!(config.quality, 55);
    assert_eq!(config.max_dimension, None);
    assert!(config.overwrite);
}
