use imagetowebp::converter::{ConversionResult, ConvertError};
use imagetowebp::processor::{summarize, ProcessSummary};

fn ok(original: u64, converted: u64, skipped: bool) -> Result<ConversionResult, ConvertError> {
    Ok(ConversionResult {
        input_path: "in.png".to_string(),
        output_path: "in.webp".to_string(),
        original_size_bytes: original,
        converted_size_bytes: converted,
        was_skipped: skipped,
    })
}

fn failed() -> Result<ConversionResult, ConvertError> {
    Err(ConvertError::Decode { input: "corrupt.jpg".to_string(), reason: "bad".to_string() })
}

#[test]
fn summary_counts_each_kind() {
    let outcomes = vec![ok(1000, 300, false), failed(), ok(500, 200, false), ok(80, 60, true)];
    let summary = summarize(&outcomes);
    assert_eq!(
        summary,
        ProcessSummary {
            total_files: 4,
            success_count: 2,
            skipped_count: 1,
            failed_count: 1,
            original_total_bytes: 1580,
            converted_total_bytes: 560,
        }
    );
    assert_eq!(summary.total_saved_bytes(), 1020);
    assert_eq!(
        summary.success_count + summary.skipped_count + summary.failed_count,
        summary.total_files
    );
}

#[test]
fn summary_of_nothing_is_default() {
    assert_eq!(summarize(&Vec::new()), ProcessSummary::default());
    let d = ProcessSummary::default();
    assert_eq!(d.total_files, 0);
    assert_eq!(d.total_saved_bytes(), 0);
}

#[test]
fn summary_order_does_not_matter() {
    let a = vec![ok(10, 3, false), failed(), ok(7, 9, true)];
    let b = vec![ok(7, 9, true), ok(10, 3, false), failed()];
    assert_eq!(summarize(&a), summarize(&b));
}

#[test]
fn byte_totals_wrap_like_u64_counters() {
    let outcomes = vec![ok(u64::MAX, 1, false), ok(2, u64::MAX, false)];
    let summary = summarize(&outcomes);
    assert_eq!(summary.original_total_bytes, 1);
    assert_eq!(summary.converted_total_bytes, 0);
}

#[test]
fn saved_bytes_negative_when_larger() {
    let summary = summarize(&vec![ok(100, 250, false)]);
    assert_eq!(summary.total_saved_bytes(), -150);
}
