use imagetowebp::config::ConvertConfig;
use imagetowebp::converter::{
    determine_output_path, webp_encoding, webp_file_name, ConversionResult, ConvertError,
    WebpEncoding,
};
use imagetowebp::paths::{is_supported_extension, is_supported_image, unique_in_path_order};

#[test]
fn test_preserve_structure_output_path() {
    let result =
        determine_output_path("/images/blog/header.png", Some("/images"), Some("/out"), true)
            .unwrap();
    assert_eq!(result, "/out/blog/header.webp".to_string());
}

#[test]
fn test_flat_output_path_without_preserve_structure() {
    let result = determine_output_path("/images/blog/header.png", None, Some("/out"), false).unwrap();
    assert_eq!(result, "/out/header.webp".to_string());
}

#[test]
fn output_path_next_to_input() {
    assert_eq!(
        determine_output_path("photos/cat.jpeg", None, None, false).unwrap(),
        "photos/cat.webp".to_string()
    );
    assert_eq!(determine_output_path("cat.jpeg", None, None, false).unwrap(), "cat.webp".to_string());
    assert_eq!(
        determine_output_path("/a/archive.tar.gz", Some("/a"), None, true).unwrap(),
        "/a/archive.tar.webp".to_string()
    );
}

#[test]
fn output_path_flat_when_outside_root() {
    assert_eq!(
        determine_output_path("/other/x.png", Some("/images"), Some("/out"), true).unwrap(),
        "/out/x.webp".to_string()
    );
    assert_eq!(
        determine_output_path("/images/blog/header.png", Some("/images"), Some("/out"), false)
            .unwrap(),
        "/out/header.webp".to_string()
    );
    assert_eq!(
        determine_output_path("/images/top.png", Some("/images"), Some("/out"), true).unwrap(),
        "/out/top.webp".to_string()
    );
}

#[test]
fn output_path_without_file_name_fails() {
    assert_eq!(
        determine_output_path("/", None, Some("/out"), false),
        Err(ConvertError::InvalidFileName { input: "/".to_string() })
    );
    assert_eq!(
        determine_output_path("photos/..", None, None, false),
        Err(ConvertError::InvalidFileName { input: "photos/..".to_string() })
    );
}

#[test]
fn webp_name_appends_extension() {
    assert_eq!(webp_file_name("header"), "header.webp".to_string());
    assert_eq!(webp_file_name(""), ".webp".to_string());
}

#[test]
fn supported_images_by_extension() {
    assert!(is_supported_image("img1.png"));
    assert!(is_supported_image("dir/img2.JPG"));
    assert!(is_supported_image("/x/y/img3.jpeg"));
    assert!(is_supported_image("a.Tiff"));
    assert!(is_supported_image("a.webp"));
    assert!(is_supported_image("a.BMP"));
    assert!(!is_supported_image("notes.txt"));
    assert!(!is_supported_image("png"));
    assert!(!is_supported_image(".png"));
    assert!(!is_supported_image("image.gif"));
    assert!(is_supported_extension("jpg"));
    assert!(!is_supported_extension("JPG"));
    assert!(!is_supported_extension("tif"));
}

#[test]
fn saved_bytes_is_signed_difference() {
    let mut r = ConversionResult {
        input_path: "a.png".to_string(),
        output_path: "a.webp".to_string(),
        original_size_bytes: 1000,
        converted_size_bytes: 400,
        was_skipped: false,
    };
    assert_eq!(r.saved_bytes(), 600);
    r.converted_size_bytes = 1500;
    assert_eq!(r.saved_bytes(), -500);
    r.original_size_bytes = u64::MAX;
    r.converted_size_bytes = u64::MAX;
    assert_eq!(r.saved_bytes(), 0);
    r.original_size_bytes = i64::MAX as u64;
    r.converted_size_bytes = 0;
    assert_eq!(r.saved_bytes(), i64::MAX);
}

#[test]
fn encoding_from_config() {
    let lossy = ConvertConfig { quality: 75, ..Default::default() };
    assert_eq!(webp_encoding(&lossy), WebpEncoding::Lossy { quality: 75 });
    let lossless = ConvertConfig { quality: 75, lossless: true, ..Default::default() };
    assert_eq!(webp_encoding(&lossless), WebpEncoding::Lossless);
}

#[test]
fn unique_paths_in_path_order() {
    let paths = vec![
        "b.png".to_string(),
        "a/./b".to_string(),
        "a.png".to_string(),
        "a/b".to_string(),
        "b.png".to_string(),
    ];
    assert_eq!(
        unique_in_path_order(&paths),
        vec!["a/./b".to_string(), "a.png".to_string(), "b.png".to_string()]
    );
    let paths = vec!["/a.b".to_string(), "/a/b".to_string()];
    assert_eq!(unique_in_path_order(&paths), vec!["/a/b".to_string(), "/a.b".to_string()]);
    assert!(unique_in_path_order(&Vec::new()).is_empty());
}

#[test]
fn unique_of_concatenation_is_union() {
    let a = vec!["/x/b.png".to_string(), "/x/a.png".to_string()];
    let b = vec!["/x/c.png".to_string(), "/x/a.png".to_string()];
    let mut both = a.clone();
    both.extend(b.clone());
    assert_eq!(
        unique_in_path_order(&both),
        vec!["/x/a.png".to_string(), "/x/b.png".to_string(), "/x/c.png".to_string()]
    );
    let reordered = vec![
        "/x/c.png".to_string(),
        "/x/a.png".to_string(),
        "/x/b.png".to_string(),
        "/x/c.png".to_string(),
    ];
    assert_eq!(unique_in_path_order(&reordered), unique_in_path_order(&both));
}
