use vstd::prelude::*;

use crate::stage::StageAction;

verus! {

/// Why a pipeline run did not end in order.
#[derive(PartialEq, Eq, Structural, Clone, Copy, Debug)]
pub enum PipelineError {
    /// The codec or the stream selection could not be set up; no thread started.
    Init,
    /// The codec rejected a packet and the stage aborted.
    Decode,
    /// A stage did not reach a cancellation check within its budget of polls.
    ShutdownTimeout,
}

/// How a decode stage thread ended, from the last action its stage asked for:
/// `Fail` is a decode error, anything else an orderly end.
pub fn stage_outcome(last: StageAction) -> (r: Result<(), PipelineError>)
    ensures
        last == StageAction::Fail ==> r == Err::<(), PipelineError>(PipelineError::Decode),
        last != StageAction::Fail ==> r is Ok,
{
    match last {
        StageAction::Fail => Err(PipelineError::Decode),
        _ => Ok(()),
    }
}

/// One poll of a stage that was asked to stop. `Ok(true)` once it has
/// finished, `Ok(false)` to poll again while fewer than `max_polls` polls were
/// spent, and `ShutdownTimeout` when the budget is used up.
pub fn check_shutdown(finished: bool, polls: u64, max_polls: u64) -> (r: Result<bool, PipelineError>)
    ensures
        finished ==> r == Ok::<bool, PipelineError>(true),
        !finished && polls < max_polls ==> r == Ok::<bool, PipelineError>(false),
        !finished && polls >= max_polls ==> r == Err::<bool, PipelineError>(
            PipelineError::ShutdownTimeout,
        ),
{
    if finished {
        Ok(true)
    } else if polls < max_polls {
        Ok(false)
    } else {
        Err(PipelineError::ShutdownTimeout)
    }
}

} // verus!
