//! Rendering an outcome as lines of text for a reader.

use vstd::prelude::*;
use vstd::string::*;
use crate::decode::{DecodeError, DecodeErrorKind, Defect};
use crate::engine::{Violation, ViolationView};
use crate::pipeline::{Outcome, PipelineOutcome};

verus! {

/// What a kind of decode failure is called in a report.
pub open spec fn kind_text(kind: DecodeErrorKind) -> Seq<char> {
    match kind {
        DecodeErrorKind::Syntax => "not a well-formed document"@,
        DecodeErrorKind::MissingField => "required field is missing"@,
        DecodeErrorKind::WrongType => "field has the wrong type"@,
    }
}

/// The line for a decode failure: where it is, and what it is.
pub open spec fn defect_line(defect: Defect) -> Seq<char> {
    "decode error at "@ + (if defect.path.len() == 0 {
        "document root"@
    } else {
        defect.path
    }) + ": "@ + kind_text(defect.kind)
}

/// The line for a violation: its field path, then its message.
pub open spec fn violation_line(violation: ViolationView) -> Seq<char> {
    violation.field_path + ": "@ + violation.message
}

/// The lines of a report: one for each violation of a validation failure,
/// in order, and a single line for every other outcome.
pub open spec fn report(outcome: Outcome) -> Seq<Seq<char>> {
    match outcome {
        Outcome::Success => seq!["document is valid"@],
        Outcome::SourceError(reason) => seq!["source error: "@ + reason],
        Outcome::DecodeFailure(defect) => seq![defect_line(defect)],
        Outcome::ValidationFailure(found) => found.map_values(
            |violation: ViolationView| violation_line(violation),
        ),
    }
}

/// The text of each line.
pub open spec fn texts(lines: Seq<String>) -> Seq<Seq<char>> {
    lines.map_values(|line: String| line@)
}

/// Renders the line for a decode failure.
pub fn render_defect(error: &DecodeError) -> (line: String)
    ensures
        line@ == defect_line(error@),
{
    let mut line = String::from_str("decode error at ");
    if error.path.as_str().is_empty() {
        line.append("document root");
    } else {
        line.append(error.path.as_str());
    }
    line.append(": ");
    match error.kind {
        DecodeErrorKind::Syntax => line.append("not a well-formed document"),
        DecodeErrorKind::MissingField => line.append("required field is missing"),
        DecodeErrorKind::WrongType => line.append("field has the wrong type"),
    }
    line
}

/// Renders the line for a violation.
pub fn render_violation(violation: &Violation) -> (line: String)
    ensures
        line@ == violation_line(violation@),
{
    let mut line = violation.field_path.clone();
    line.append(": ");
    line.append(violation.message.as_str());
    line
}

/// Renders an outcome. Every violation of a validation failure gets its own
/// line, not only the first.
pub fn report_lines(outcome: &PipelineOutcome) -> (lines: Vec<String>)
    ensures
        texts(lines@) == report(outcome@),
{
    let mut lines: Vec<String> = Vec::new();
    match outcome {
        PipelineOutcome::Success => {
            lines.push(String::from_str("document is valid"));
        },
        PipelineOutcome::SourceError(reason) => {
            let mut line = String::from_str("source error: ");
            line.append(reason.as_str());
            lines.push(line);
        },
        PipelineOutcome::DecodeFailure(error) => {
            lines.push(render_defect(error));
        },
        PipelineOutcome::ValidationFailure(found) => {
            let mut i: usize = 0;
            while i < found.len()
                invariant
                    i <= found.len(),
                    lines@.len() == i,
                    forall|k: int| 0 <= k < i ==> (#[trigger] lines@[k])@ == violation_line(found@[k]@),
                decreases found.len() - i,
            {
                lines.push(render_violation(&found[i]));
                i = i + 1;
            }
        },
    }
    assert(texts(lines@) =~= report(outcome@));
    lines
}

/// A report of a validation failure names every violation: it has as many
/// lines as there are violations, and each line starts with the path of its
/// violation and ends with its message.
pub proof fn lemma_report_names_every_violation(found: Seq<ViolationView>, k: int)
    requires
        0 <= k < found.len(),
    ensures
        report(Outcome::ValidationFailure(found)).len() == found.len(),
        report(Outcome::ValidationFailure(found))[k] == found[k].field_path + ": "@
            + found[k].message,
{
}

} // verus!
