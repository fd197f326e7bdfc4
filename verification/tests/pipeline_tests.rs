use std::time::{Duration, UNIX_EPOCH};

use doc_validation::clock::{get_current_timestamp, timestamp_of};
use doc_validation::decode::{decode, DecodeError, DecodeErrorKind};
use doc_validation::engine::Violation;
use doc_validation::pipeline::{admit_source, judge, run, PipelineOutcome, MAX_SOURCE_BYTES};
use doc_validation::report::{render_defect, render_violation, report_lines};
use doc_validation::rules::RuleKind;
use doc_validation::text::option_to_string;

fn document_with_email(email: &str) -> Vec<u8> {
    format!(
        "schemaId: v1
basics:
  name: Jane Doe
  label: Engineer
  imageUrl: https://example.com/jane.png
  email: {}
  phone: 555-0100
  contactUrl: https://example.com/jane
  summary: Builds things.
  location:
    city: San Francisco
    countryCode: US
",
        email
    )
    .into_bytes()
}

fn violation(path: &str) -> Violation {
    Violation {
        field_path: path.to_string(),
        rule: RuleKind::EmailFormat,
        message: "is not a valid email address".to_string(),
    }
}

#[test]
fn run_succeeds_on_a_valid_document() {
    assert_eq!(run(Ok(document_with_email("user@example.com"))), PipelineOutcome::Success);
}

#[test]
fn run_reports_a_decode_failure_for_a_document_without_basics() {
    let outcome = run(Ok(b"schemaId: v1\n".to_vec()));
    match &outcome {
        PipelineOutcome::DecodeFailure(error) => assert_eq!(error.path, "basics"),
        other => panic!("unexpected outcome: {:?}", other),
    }
    assert_eq!(
        outcome,
        PipelineOutcome::DecodeFailure(DecodeError {
            path: "basics".to_string(),
            kind: DecodeErrorKind::MissingField,
        })
    );
}

#[test]
fn run_reports_one_violation_for_a_bad_email() {
    let outcome = run(Ok(document_with_email("bad-email")));
    match &outcome {
        PipelineOutcome::ValidationFailure(found) => {
            assert_eq!(found.len(), 1);
            assert_eq!(found[0].field_path, "basics.email");
        },
        other => panic!("unexpected outcome: {:?}", other),
    }
    assert_eq!(outcome, PipelineOutcome::ValidationFailure(vec![violation("basics.email")]));
}

#[test]
fn run_hands_on_the_reason_of_a_failed_source() {
    assert_eq!(
        run(Err("file not found".to_string())),
        PipelineOutcome::SourceError("file not found".to_string())
    );
    assert_eq!(run(Err(String::new())), PipelineOutcome::SourceError(String::new()));
}

#[test]
fn run_reports_a_syntax_error_as_a_decode_failure() {
    assert_eq!(
        run(Ok(b"{ basics: ".to_vec())),
        PipelineOutcome::DecodeFailure(DecodeError {
            path: String::new(),
            kind: DecodeErrorKind::Syntax,
        })
    );
}

#[test]
fn run_reports_a_decode_failure_before_any_violation() {
    let source = String::from_utf8(document_with_email("bad-email"))
        .unwrap()
        .replace("    countryCode: US\n", "");
    assert_eq!(
        run(Ok(source.into_bytes())),
        PipelineOutcome::DecodeFailure(DecodeError {
            path: "basics.location.countryCode".to_string(),
            kind: DecodeErrorKind::MissingField,
        })
    );
}

#[test]
fn judge_follows_the_decoding_result() {
    let valid = document_with_email("a@b.com");
    assert_eq!(judge(decode(&valid)), PipelineOutcome::Success);
    let invalid = document_with_email("a@");
    assert_eq!(
        judge(decode(&invalid)),
        PipelineOutcome::ValidationFailure(vec![violation("basics.email")])
    );
    let error = DecodeError { path: "basics".to_string(), kind: DecodeErrorKind::WrongType };
    assert_eq!(judge(Err(error.clone())), PipelineOutcome::DecodeFailure(error));
}

#[test]
fn admit_source_passes_bytes_within_the_limit() {
    assert_eq!(MAX_SOURCE_BYTES, 4 * 1024 * 1024);
    assert_eq!(admit_source(Vec::new()), Ok(Vec::new()));
    assert_eq!(admit_source(vec![1, 2, 3]), Ok(vec![1, 2, 3]));
    let full = vec![b' '; MAX_SOURCE_BYTES];
    assert_eq!(admit_source(full.clone()), Ok(full));
}

#[test]
fn admit_source_refuses_bytes_over_the_limit() {
    let over = vec![b' '; MAX_SOURCE_BYTES + 1];
    assert_eq!(admit_source(over), Err("source is larger than the limit".to_string()));
}

#[test]
fn an_oversized_source_ends_in_a_source_error() {
    let over = vec![b' '; MAX_SOURCE_BYTES + 1];
    assert_eq!(
        run(admit_source(over)),
        PipelineOutcome::SourceError("source is larger than the limit".to_string())
    );
}

#[test]
fn report_has_one_line_for_success() {
    assert_eq!(report_lines(&PipelineOutcome::Success), vec!["document is valid".to_string()]);
}

#[test]
fn report_shows_the_reason_of_a_source_error() {
    assert_eq!(
        report_lines(&PipelineOutcome::SourceError("file not found".to_string())),
        vec!["source error: file not found".to_string()]
    );
}

#[test]
fn report_shows_the_path_and_kind_of_a_decode_failure() {
    let missing = DecodeError { path: "basics".to_string(), kind: DecodeErrorKind::MissingField };
    assert_eq!(render_defect(&missing), "decode error at basics: required field is missing");
    let wrong = DecodeError {
        path: "basics.location.countryCode".to_string(),
        kind: DecodeErrorKind::WrongType,
    };
    assert_eq!(
        render_defect(&wrong),
        "decode error at basics.location.countryCode: field has the wrong type"
    );
    let syntax = DecodeError { path: String::new(), kind: DecodeErrorKind::Syntax };
    assert_eq!(
        render_defect(&syntax),
        "decode error at document root: not a well-formed document"
    );
    assert_eq!(
        report_lines(&PipelineOutcome::DecodeFailure(missing)),
        vec!["decode error at basics: required field is missing".to_string()]
    );
}

#[test]
fn report_has_a_line_for_every_violation() {
    let found = vec![violation("basics.email"), violation("basics.location.contact")];
    assert_eq!(
        report_lines(&PipelineOutcome::ValidationFailure(found)),
        vec![
            "basics.email: is not a valid email address".to_string(),
            "basics.location.contact: is not a valid email address".to_string(),
        ]
    );
    assert_eq!(
        render_violation(&violation("basics.email")),
        "basics.email: is not a valid email address"
    );
    assert_eq!(report_lines(&PipelineOutcome::ValidationFailure(Vec::new())), Vec::<String>::new());
}

#[test]
fn option_to_string_copies_the_text_or_gives_the_empty_string() {
    assert_eq!(option_to_string(&Some("San Francisco".to_string())), "San Francisco");
    assert_eq!(option_to_string(&Some(String::new())), "");
    assert_eq!(option_to_string(&None), "");
}

#[test]
fn the_clock_reads_a_time_after_the_epoch() {
    let first = get_current_timestamp().expect("the clock is set after 1970");
    assert!(first > 1_500_000_000);
}

#[test]
fn timestamp_of_counts_the_whole_seconds() {
    assert_eq!(timestamp_of(Ok(Duration::new(5, 999_999_999))), Some(5));
    assert_eq!(timestamp_of(Ok(Duration::new(0, 0))), Some(0));
    assert_eq!(timestamp_of(Ok(Duration::from_millis(1_700_000_000_250))), Some(1_700_000_000));
}

#[test]
fn timestamp_of_gives_nothing_for_a_clock_before_the_epoch() {
    let later = UNIX_EPOCH + Duration::from_secs(10);
    assert_eq!(timestamp_of(UNIX_EPOCH.duration_since(later)), None);
}
