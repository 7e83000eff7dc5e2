use imagetowebp::config::ConvertConfig;
use imagetowebp::converter::{ConversionResult, ConvertError, WebpEncoding};
use imagetowebp::job::{step, Answer, ConvertJob, JobState, Phase, Request};

/// Answers the requests of a conversion from fixed replies and returns the
/// requests made and the outcome.
struct Replies {
    is_file: bool,
    size: Result<u64, String>,
    exists: bool,
    existing: Result<u64, String>,
    dir_exists: bool,
    create_dir: Result<(), String>,
    decode: Result<(), String>,
    encode: Result<u64, String>,
    create_file: Result<(), String>,
    write: Result<(), String>,
}

fn good_replies() -> Replies {
    Replies {
        is_file: true,
        size: Ok(5000),
        exists: false,
        existing: Ok(0),
        dir_exists: true,
        create_dir: Ok(()),
        decode: Ok(()),
        encode: Ok(1200),
        create_file: Ok(()),
        write: Ok(()),
    }
}

fn drive(job: &ConvertJob, replies: &Replies) -> (Vec<String>, Result<ConversionResult, ConvertError>) {
    let mut state = JobState::start();
    let mut answer = Answer::Begin;
    let mut trace = Vec::new();
    for _ in 0..20 {
        let (next, request) = step(job, state, answer);
        state = next;
        answer = match request {
            Request::CheckIsFile { path } => {
                trace.push(format!("is_file {}", path));
                Answer::Flag(replies.is_file)
            }
            Request::ReadSize { path } => {
                trace.push(format!("size {}", path));
                Answer::Size(replies.size.clone())
            }
            Request::CheckExists { path } => {
                trace.push(format!("exists {}", path));
                Answer::Flag(replies.exists)
            }
            Request::ReadExistingSize { path } => {
                trace.push(format!("existing {}", path));
                Answer::Size(replies.existing.clone())
            }
            Request::CheckDirExists { dir } => {
                trace.push(format!("dir_exists {}", dir));
                Answer::Flag(replies.dir_exists)
            }
            Request::CreateDir { dir } => {
                trace.push(format!("create_dir {}", dir));
                Answer::Done(replies.create_dir.clone())
            }
            Request::Decode { path } => {
                trace.push(format!("decode {}", path));
                Answer::Done(replies.decode.clone())
            }
            Request::Encode { max_dimension, encoding } => {
                trace.push(format!("encode {:?} {:?}", max_dimension, encoding));
                Answer::Size(replies.encode.clone())
            }
            Request::CreateFile { path } => {
                trace.push(format!("create {}", path));
                Answer::Done(replies.create_file.clone())
            }
            Request::Write { path } => {
                trace.push(format!("write {}", path));
                Answer::Done(replies.write.clone())
            }
            Request::Finish { outcome } => {
                assert!(state.phase == Phase::Done);
                return (trace, outcome);
            }
        };
    }
    panic!("conversion did not finish");
}

fn job(overwrite: bool) -> ConvertJob {
    let config = ConvertConfig {
        input_paths: vec!["in/pic.png".to_string()],
        quality: 70,
        max_dimension: Some(100),
        overwrite,
        ..Default::default()
    };
    ConvertJob::new("in/pic.png".to_string(), None, Some("out".to_string()), &config)
}

#[test]
fn full_conversion_runs_every_step() {
    let (trace, outcome) = drive(&job(false), &good_replies());
    assert_eq!(
        trace,
        vec![
            "is_file in/pic.png",
            "size in/pic.png",
            "exists out/pic.webp",
            "dir_exists out",
            "decode in/pic.png",
            "encode Some(100) Lossy { quality: 70 }",
            "create out/pic.webp",
            "write out/pic.webp",
        ]
    );
    assert_eq!(
        outcome,
        Ok(ConversionResult {
            input_path: "in/pic.png".to_string(),
            output_path: "out/pic.webp".to_string(),
            original_size_bytes: 5000,
            converted_size_bytes: 1200,
            was_skipped: false,
        })
    );
}

#[test]
fn existing_output_is_skipped_without_overwrite() {
    let replies = Replies { exists: true, existing: Ok(321), ..good_replies() };
    let (trace, outcome) = drive(&job(false), &replies);
    assert_eq!(
        trace,
        vec!["is_file in/pic.png", "size in/pic.png", "exists out/pic.webp", "existing out/pic.webp"]
    );
    let result = outcome.unwrap();
    assert!(result.was_skipped);
    assert_eq!(result.converted_size_bytes, 321);
    assert_eq!(result.original_size_bytes, 5000);

    let replies = Replies { exists: true, existing: Err("gone".to_string()), ..good_replies() };
    let (_, outcome) = drive(&job(false), &replies);
    assert_eq!(outcome.unwrap().converted_size_bytes, 0);
}

#[test]
fn existing_output_is_replaced_with_overwrite() {
    let replies = Replies { exists: true, ..good_replies() };
    let (trace, outcome) = drive(&job(true), &replies);
    assert!(trace.contains(&"write out/pic.webp".to_string()));
    assert!(!outcome.unwrap().was_skipped);
}

#[test]
fn missing_directory_is_created() {
    let replies = Replies { dir_exists: false, ..good_replies() };
    let (trace, outcome) = drive(&job(false), &replies);
    assert_eq!(trace[4], "create_dir out".to_string());
    assert!(outcome.is_ok());

    let replies = Replies { dir_exists: false, create_dir: Err("denied".to_string()), ..good_replies() };
    let (_, outcome) = drive(&job(false), &replies);
    assert_eq!(
        outcome,
        Err(ConvertError::CreateDir { dir: "out".to_string(), reason: "denied".to_string() })
    );
}

#[test]
fn each_failure_ends_the_conversion() {
    let (trace, outcome) = drive(&job(false), &Replies { is_file: false, ..good_replies() });
    assert_eq!(trace.len(), 1);
    assert_eq!(outcome, Err(ConvertError::NotAFile { input: "in/pic.png".to_string() }));

    let (_, outcome) =
        drive(&job(false), &Replies { size: Err("io".to_string()), ..good_replies() });
    assert_eq!(
        outcome,
        Err(ConvertError::Metadata { input: "in/pic.png".to_string(), reason: "io".to_string() })
    );

    let (trace, outcome) =
        drive(&job(false), &Replies { decode: Err("corrupt".to_string()), ..good_replies() });
    assert!(!trace.iter().any(|t| t.starts_with("create")));
    assert_eq!(
        outcome,
        Err(ConvertError::Decode {
            input: "in/pic.png".to_string(),
            reason: "corrupt".to_string()
        })
    );

    let (_, outcome) =
        drive(&job(false), &Replies { encode: Err("encoder".to_string()), ..good_replies() });
    assert_eq!(outcome, Err(ConvertError::Encode { reason: "encoder".to_string() }));

    let (_, outcome) =
        drive(&job(false), &Replies { create_file: Err("ro".to_string()), ..good_replies() });
    assert_eq!(
        outcome,
        Err(ConvertError::CreateFile { output: "out/pic.webp".to_string(), reason: "ro".to_string() })
    );

    let (_, outcome) =
        drive(&job(false), &Replies { write: Err("full".to_string()), ..good_replies() });
    assert_eq!(
        outcome,
        Err(ConvertError::Write { output: "out/pic.webp".to_string(), reason: "full".to_string() })
    );
}

#[test]
fn input_without_file_name_fails_after_size() {
    let config = ConvertConfig { input_paths: vec!["/".to_string()], ..Default::default() };
    let job = ConvertJob::new("/".to_string(), None, None, &config);
    let (trace, outcome) = drive(&job, &good_replies());
    assert_eq!(trace, vec!["is_file /", "size /"]);
    assert_eq!(outcome, Err(ConvertError::InvalidFileName { input: "/".to_string() }));
}

#[test]
fn job_settings_from_config() {
    let config = ConvertConfig { lossless: true, quality: 10, overwrite: true, ..Default::default() };
    let job = ConvertJob::new(
        "/images/blog/a.png".to_string(),
        Some("/images".to_string()),
        Some("/out".to_string()),
        &config,
    );
    assert!(job.preserve_structure);
    assert!(job.overwrite);
    assert_eq!(job.encoding, WebpEncoding::Lossless);
    let (trace, outcome) = drive(&job, &good_replies());
    assert_eq!(trace[2], "exists /out/blog/a.webp".to_string());
    assert_eq!(outcome.unwrap().output_path, "/out/blog/a.webp".to_string());
}
