//! The pipeline: from a source's bytes to one outcome.
//!
//! A run obtains the bytes, decodes them and validates the profile, each
//! stage once. The first stage that fails decides the outcome, and the three
//! kinds of failure are never turned into one another.

use vstd::prelude::*;
use vstd::string::*;
use crate::decode::{decode, decoded_bytes, DecodeError, Defect};
use crate::engine::{views, Violation, ViolationView};
use crate::model::{Profile, ProfileView};
use crate::validate::{validate, violations};

verus! {

/// How a run ended.
#[derive(Clone, Debug, PartialEq, Eq)]
pub enum PipelineOutcome {
    /// The document was obtained, decoded and found valid.
    Success,
    /// The document could not be obtained; the reason is the source's own.
    SourceError(String),
    /// The bytes do not match the document model.
    DecodeFailure(DecodeError),
    /// The document breaks one or more rules; all violations, in order.
    ValidationFailure(Vec<Violation>),
}

/// The mathematical value of a [`PipelineOutcome`].
pub enum Outcome {
    Success,
    SourceError(Seq<char>),
    DecodeFailure(Defect),
    ValidationFailure(Seq<ViolationView>),
}

impl View for PipelineOutcome {
    type V = Outcome;

    open spec fn view(&self) -> Outcome {
        match self {
            PipelineOutcome::Success => Outcome::Success,
            PipelineOutcome::SourceError(reason) => Outcome::SourceError(reason@),
            PipelineOutcome::DecodeFailure(error) => Outcome::DecodeFailure(error@),
            PipelineOutcome::ValidationFailure(found) => Outcome::ValidationFailure(views(found@)),
        }
    }
}

/// The value of what a source handed over: its bytes, or its reason for
/// handing over none.
pub open spec fn source_view(source: Result<Vec<u8>, String>) -> Result<Seq<u8>, Seq<char>> {
    match source {
        Ok(bytes) => Ok(bytes@),
        Err(reason) => Err(reason@),
    }
}

/// The value of a decoding result.
pub open spec fn decoding_view(decoding: Result<Profile, DecodeError>) -> Result<
    ProfileView,
    Defect,
> {
    match decoding {
        Ok(profile) => Ok(profile@),
        Err(error) => Err(error@),
    }
}

/// The outcome that follows from a decoding result: the decode failure, or
/// else what validating the profile gives.
pub open spec fn judged(decoding: Result<ProfileView, Defect>) -> Outcome {
    match decoding {
        Err(defect) => Outcome::DecodeFailure(defect),
        Ok(profile) => if violations(profile).len() == 0 {
            Outcome::Success
        } else {
            Outcome::ValidationFailure(violations(profile))
        },
    }
}

/// The outcome of a run on what the source handed over.
pub open spec fn outcome_of(source: Result<Seq<u8>, Seq<char>>) -> Outcome {
    match source {
        Err(reason) => Outcome::SourceError(reason),
        Ok(bytes) => judged(decoded_bytes(bytes)),
    }
}

/// The largest source, in bytes, that a run should be given.
pub const MAX_SOURCE_BYTES: usize = 4194304;

/// Holds a source's bytes to the size limit: bytes within the limit pass
/// unchanged, and larger ones are turned into the source's failure.
pub fn admit_source(bytes: Vec<u8>) -> (admitted: Result<Vec<u8>, String>)
    ensures
        match admitted {
            Ok(passed) => bytes@.len() <= MAX_SOURCE_BYTES && passed == bytes,
            Err(reason) => bytes@.len() > MAX_SOURCE_BYTES && reason@
                == "source is larger than the limit"@,
        },
{
    if bytes.len() <= MAX_SOURCE_BYTES {
        Ok(bytes)
    } else {
        Err(String::from_str("source is larger than the limit"))
    }
}

/// Finishes a run from the result of decoding: reports the decode failure,
/// or validates the profile and reports what that gives.
pub fn judge(decoding: Result<Profile, DecodeError>) -> (outcome: PipelineOutcome)
    ensures
        outcome@ == judged(decoding_view(decoding)),
{
    match decoding {
        Err(error) => PipelineOutcome::DecodeFailure(error),
        Ok(profile) => match validate(&profile) {
            Ok(()) => PipelineOutcome::Success,
            Err(found) => PipelineOutcome::ValidationFailure(found),
        },
    }
}

/// Runs the pipeline on what the source handed over.
///
/// A source that failed ends the run with its reason, unchanged. Otherwise
/// the bytes are decoded and the profile validated.
pub fn run(source: Result<Vec<u8>, String>) -> (outcome: PipelineOutcome)
    ensures
        outcome@ == outcome_of(source_view(source)),
{
    match source {
        Err(reason) => PipelineOutcome::SourceError(reason),
        Ok(bytes) => judge(decode(bytes.as_slice())),
    }
}

/// Each failure kind has its own cause, and success has none: a run ends in
/// a source error exactly when the source failed, in a decode failure
/// exactly when the bytes were obtained and do not decode, in a validation
/// failure exactly when they decode to a profile with violations, and in
/// success exactly when they decode to a profile without any.
pub proof fn lemma_outcome_kinds(source: Result<Seq<u8>, Seq<char>>)
    ensures
        outcome_of(source) is SourceError <==> source is Err,
        outcome_of(source) is DecodeFailure <==> (source matches Ok(bytes) && decoded_bytes(
            bytes,
        ) is Err),
        outcome_of(source) is ValidationFailure <==> (source matches Ok(bytes) && decoded_bytes(
            bytes,
        ) matches Ok(profile) && violations(profile).len() > 0),
        outcome_of(source) is Success <==> (source matches Ok(bytes) && decoded_bytes(
            bytes,
        ) matches Ok(profile) && violations(profile).len() == 0),
        source matches Err(reason) ==> outcome_of(source) == Outcome::SourceError(reason),
{
}

} // verus!
