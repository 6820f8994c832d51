//! Creating a junction, as a sequence of requests to the platform.
//!
//! The library decides; the caller acts. [`start`] looks at the request and
//! names the first thing to ask of the platform. The caller performs it and
//! hands the platform's answer to [`advance`], which names the next one, until
//! the step is [`JunctionStep::Done`].
//!
//! On success the platform is asked, in this order, to create the directory,
//! to open it for writing, to set the reparse point and to close the
//! directory again. The first failure ends the sequence and is reported once,
//! with the text the platform gave for it; a directory that was created
//! before the failure is left as it is, only the open handle is closed.

use vstd::prelude::*;

use crate::error::LinkError;
use crate::reparse::{create_reparse_data, fits_length_fields, is_reparse_buffer, reparse_buffer};
use crate::wide::null_terminate;

verus! {

/// Where the junction is to be created and where it points, both as code
/// units without terminator.
#[derive(Debug, PartialEq, Eq)]
pub struct LinkRequest {
    pub link_path: Vec<u16>,
    pub target_path: Vec<u16>,
}

/// What the platform answered to the action it was last asked to perform.
#[derive(Debug, PartialEq, Eq)]
pub enum Answer {
    Succeeded,
    /// The action failed; the text is the platform's own description.
    Failed(String),
}

/// One request to the platform.
#[derive(Debug, PartialEq, Eq)]
pub enum JunctionAction {
    /// Create an empty directory at `path`, a wide string with terminator,
    /// with no special security descriptor.
    CreateDirectory { path: Vec<u16> },
    /// Open the directory just created for write access.
    OpenDirectory,
    /// Install `buffer` as the reparse data of the open directory.
    SetReparsePoint { buffer: Vec<u8> },
    /// Release the handle of the open directory.
    CloseDirectory,
}

/// What the creator waits for.
#[derive(Debug, PartialEq, Eq)]
pub enum JunctionState {
    /// The platform was asked to create the directory.
    CreatingDirectory { buffer: Vec<u8> },
    /// The directory exists; the platform was asked to open it.
    OpeningDirectory { buffer: Vec<u8> },
    /// The directory is open; the platform was asked to set the reparse point.
    SettingReparsePoint,
    /// The platform was asked to close the directory; `outcome` is what the
    /// invocation will report.
    ClosingDirectory { outcome: Result<(), LinkError> },
}

/// The creator's decision after an answer.
#[derive(Debug, PartialEq, Eq)]
pub enum JunctionStep {
    /// Perform `action` and come back with the platform's answer.
    Continue { state: JunctionState, action: JunctionAction },
    /// Nothing is left to do.
    Done { outcome: Result<(), LinkError> },
}

impl JunctionState {
    /// Whether a handle to the directory is open in this state and the
    /// platform has not yet been asked to close it.
    pub open spec fn holds_handle(&self) -> bool {
        self is SettingReparsePoint
    }

    /// Whether the directory has been created in this state.
    pub open spec fn directory_exists(&self) -> bool {
        !(self is CreatingDirectory)
    }

    /// Whether the state is one that [`start`] and [`advance`] lead to: the
    /// buffer it keeps is a complete reparse buffer, and the outcome it keeps
    /// is success or a failure to set the reparse point.
    pub open spec fn wf(&self) -> bool {
        match self {
            JunctionState::CreatingDirectory { buffer } => is_reparse_buffer(buffer@),
            JunctionState::OpeningDirectory { buffer } => is_reparse_buffer(buffer@),
            JunctionState::SettingReparsePoint => true,
            JunctionState::ClosingDirectory { outcome } => outcome is Ok || (outcome matches Err(
                error,
            ) && error is ReparsePointSetFailed),
        }
    }
}

/// The decision that follows `answer` in `state`.
pub open spec fn next_step(state: JunctionState, answer: Answer) -> JunctionStep {
    match state {
        JunctionState::CreatingDirectory { buffer } => match answer {
            Answer::Succeeded => JunctionStep::Continue {
                state: JunctionState::OpeningDirectory { buffer },
                action: JunctionAction::OpenDirectory,
            },
            Answer::Failed(detail) => JunctionStep::Done {
                outcome: Err(LinkError::DirectoryCreateFailed(detail)),
            },
        },
        JunctionState::OpeningDirectory { buffer } => match answer {
            Answer::Succeeded => JunctionStep::Continue {
                state: JunctionState::SettingReparsePoint,
                action: JunctionAction::SetReparsePoint { buffer },
            },
            Answer::Failed(detail) => JunctionStep::Done {
                outcome: Err(LinkError::DirectoryOpenFailed(detail)),
            },
        },
        JunctionState::SettingReparsePoint => match answer {
            Answer::Succeeded => JunctionStep::Continue {
                state: JunctionState::ClosingDirectory { outcome: Ok(()) },
                action: JunctionAction::CloseDirectory,
            },
            Answer::Failed(detail) => JunctionStep::Continue {
                state: JunctionState::ClosingDirectory {
                    outcome: Err(LinkError::ReparsePointSetFailed(detail)),
                },
                action: JunctionAction::CloseDirectory,
            },
        },
        JunctionState::ClosingDirectory { outcome } => JunctionStep::Done { outcome },
    }
}

/// Takes up a request. The reparse buffer is built before the platform is
/// asked for anything, so a target that is too long is refused while nothing
/// has been created yet.
pub fn start(request: LinkRequest) -> (step: JunctionStep)
    ensures
        !fits_length_fields(request.target_path@.len()) ==> step == (JunctionStep::Done {
            outcome: Err(LinkError::TargetPathTooLong),
        }),
        fits_length_fields(request.target_path@.len()) ==> {
            &&& step matches JunctionStep::Continue {
                state: JunctionState::CreatingDirectory { buffer },
                action: JunctionAction::CreateDirectory { path },
            }
            &&& buffer@ == reparse_buffer(request.target_path@)
            &&& path@ == request.link_path@.push(0)
            &&& is_reparse_buffer(buffer@)
        },
{
    let target = null_terminate(request.target_path.as_slice());
    assert(target@.drop_last() == request.target_path@);
    match create_reparse_data(target.as_slice()) {
        Err(error) => JunctionStep::Done { outcome: Err(error) },
        Ok(buffer) => {
            let path = null_terminate(request.link_path.as_slice());
            JunctionStep::Continue {
                state: JunctionState::CreatingDirectory { buffer },
                action: JunctionAction::CreateDirectory { path },
            }
        },
    }
}

/// Decides what follows the platform's `answer` to the action that led to
/// `state`.
///
/// A reparse point is asked for only once the directory is created and open.
/// The handle is held from then until the platform is asked to close it,
/// which happens whatever it answered to the reparse point; the invocation
/// never ends while the handle is held. From a well-formed state the next
/// state is well-formed, the buffer handed to the platform is a complete
/// reparse buffer, and a failure the invocation ends with is a junction
/// failure. Whichever request failed, the failure carries the platform's text
/// for it unchanged.
pub fn advance(state: JunctionState, answer: Answer) -> (step: JunctionStep)
    ensures
        step == next_step(state, answer),
        step matches JunctionStep::Continue { state: next, action } ==> {
            &&& action is SetReparsePoint ==> state is OpeningDirectory && answer is Succeeded
            &&& action is CloseDirectory <==> state.holds_handle()
            &&& next.holds_handle() <==> action is SetReparsePoint
            &&& next.directory_exists()
        },
        step is Done ==> !state.holds_handle(),
        state.wf() ==> {
            &&& step matches JunctionStep::Continue { state: next, action } ==> {
                &&& next.wf()
                &&& action matches JunctionAction::SetReparsePoint { buffer } ==> is_reparse_buffer(
                    buffer@,
                )
            }
            &&& step matches JunctionStep::Done { outcome: Err(error) }
                ==> error.is_junction_failure() && error.spec_exit_code() == 2
        },
        answer matches Answer::Failed(detail) ==> {
            &&& state is CreatingDirectory ==> step == (JunctionStep::Done {
                outcome: Err(LinkError::DirectoryCreateFailed(detail)),
            })
            &&& state is OpeningDirectory ==> step == (JunctionStep::Done {
                outcome: Err(LinkError::DirectoryOpenFailed(detail)),
            })
            &&& state is SettingReparsePoint ==> step == (JunctionStep::Continue {
                state: JunctionState::ClosingDirectory {
                    outcome: Err(LinkError::ReparsePointSetFailed(detail)),
                },
                action: JunctionAction::CloseDirectory,
            })
        },
{
    match state {
        JunctionState::CreatingDirectory { buffer } => match answer {
            Answer::Succeeded => JunctionStep::Continue {
                state: JunctionState::OpeningDirectory { buffer },
                action: JunctionAction::OpenDirectory,
            },
            Answer::Failed(detail) => JunctionStep::Done {
                outcome: Err(LinkError::DirectoryCreateFailed(detail)),
            },
        },
        JunctionState::OpeningDirectory { buffer } => match answer {
            Answer::Succeeded => JunctionStep::Continue {
                state: JunctionState::SettingReparsePoint,
                action: JunctionAction::SetReparsePoint { buffer },
            },
            Answer::Failed(detail) => JunctionStep::Done {
                outcome: Err(LinkError::DirectoryOpenFailed(detail)),
            },
        },
        JunctionState::SettingReparsePoint => match answer {
            Answer::Succeeded => JunctionStep::Continue {
                state: JunctionState::ClosingDirectory { outcome: Ok(()) },
                action: JunctionAction::CloseDirectory,
            },
            Answer::Failed(detail) => JunctionStep::Continue {
                state: JunctionState::ClosingDirectory {
                    outcome: Err(LinkError::ReparsePointSetFailed(detail)),
                },
                action: JunctionAction::CloseDirectory,
            },
        },
        JunctionState::ClosingDirectory { outcome } => JunctionStep::Done { outcome },
    }
}

} // verus!
