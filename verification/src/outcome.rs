//! What a guarded run of the parser can end in, and what each ending becomes:
//! a snapshot or one error message, never anything in between.

use crate::error::BoundaryError;
use crate::recording::Recording;
use crate::snapshot::{
    flatten_recording, lemma_snapshot_timestamps_increase, snapshot_of, snapshot_possible,
    timestamps_increase, ComtradeInfo, SnapshotShape,
};
use vstd::prelude::*;

verus! {

/// How a run of the parser inside its fault barrier ended.
#[derive(Clone, Debug, PartialEq)]
pub enum ParseOutcome<S> {
    /// The parser returned a recording.
    Parsed(Recording<S>),
    /// The parser returned an error; holds the debug rendering of it.
    Rejected(String),
    /// The parser terminated abnormally; holds the text that the termination
    /// carried, if it carried any.
    Aborted(Option<String>),
}

/// The recording or the error that an outcome stands for.
pub open spec fn contained<S>(outcome: ParseOutcome<S>) -> Result<Recording<S>, BoundaryError> {
    match outcome {
        ParseOutcome::Parsed(recording) => Ok(recording),
        ParseOutcome::Rejected(cause) => Err(BoundaryError::ParseError(cause)),
        ParseOutcome::Aborted(payload) => Err(BoundaryError::AbnormalTermination(payload)),
    }
}

/// Turns the outcome of a guarded parser run into a recording or an error.
pub fn contain_outcome<S>(outcome: ParseOutcome<S>) -> (result: Result<
    Recording<S>,
    BoundaryError,
>)
    ensures
        result == contained(outcome),
{
    match outcome {
        ParseOutcome::Parsed(recording) => Ok(recording),
        ParseOutcome::Rejected(cause) => Err(BoundaryError::ParseError(cause)),
        ParseOutcome::Aborted(payload) => Err(BoundaryError::AbnormalTermination(payload)),
    }
}

/// The error that stands for a recording without a snapshot of the wanted
/// shape: the parser broke its own promise about the sampling-rate table,
/// which is an abnormal end that carried no text.
pub open spec fn broken_recording() -> BoundaryError {
    BoundaryError::AbnormalTermination(None)
}

/// The result of a whole call, from the outcome of its parser run: the
/// complete snapshot of the recording, or the message of the one error.
/// Every snapshot handed out has strictly increasing timestamps.
pub fn build_snapshot<S: Copy>(outcome: ParseOutcome<S>, shape: SnapshotShape) -> (result: Result<
    ComtradeInfo<S>,
    String,
>)
    ensures
        match contained(outcome) {
            Ok(recording) => if snapshot_possible(recording@, shape) {
                result matches Ok(info) && info@ == snapshot_of(recording@, shape)
            } else {
                result matches Err(message) && message@ == broken_recording().message_text()
            },
            Err(error) => result matches Err(message) && message@ == error.message_text(),
        },
        result matches Ok(info) ==> timestamps_increase(info@),
{
    match contain_outcome(outcome) {
        Ok(recording) => match flatten_recording(&recording, shape) {
            Some(info) => {
                proof {
                    lemma_snapshot_timestamps_increase(recording@, shape);
                }
                Ok(info)
            },
            None => Err(BoundaryError::AbnormalTermination(None).message()),
        },
        Err(error) => Err(error.message()),
    }
}

} // verus!
