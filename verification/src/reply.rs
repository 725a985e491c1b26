//! What the host hands back: its reply to a fallible command, and how the
//! library reads it.

use crate::command::{InvocationError, PipelineError};
use crate::stage::Transition;
use vstd::prelude::*;

verus! {

/// What the host reports of the last command it was handed.
#[derive(Clone, Copy, Debug, PartialEq, Eq, Structural)]
pub enum Reply {
    /// The command succeeded.
    Completed,
    /// The module text was accepted, and the body of the module it gave
    /// holds `operations` operations.
    Parsed { operations: usize },
    /// The command failed: the backend gave a null handle or a failure
    /// status.
    Failed,
    /// The invoked function raised a native fault.
    Trapped,
}

/// The fallible command whose reply the run waits for.
#[derive(Clone, Copy, Debug, PartialEq, Eq, Structural)]
pub enum Awaiting {
    /// No reply is due: the run takes requests.
    Nothing,
    /// The parse of a module text.
    Parse,
    /// The insertion of a built operation, whose type and attribute texts
    /// the backend parses.
    Insert,
    /// The run of the pass pipeline.
    Lowering,
    /// The creation of the engine.
    Engine,
    /// The call of a compiled function.
    Invocation,
}

impl Awaiting {
    /// The move that the run makes when the awaited command succeeds. The
    /// insertion of an operation leaves the stage as it is.
    pub open spec fn transition(self) -> Option<Transition> {
        match self {
            Awaiting::Nothing => None,
            Awaiting::Parse => Some(Transition::BuildModule),
            Awaiting::Insert => None,
            Awaiting::Lowering => Some(Transition::Lower),
            Awaiting::Engine => Some(Transition::CreateEngine),
            Awaiting::Invocation => Some(Transition::Invoke),
        }
    }
}

/// Whether `reply` can answer the command that `awaiting` stands for.
pub open spec fn fits(awaiting: Awaiting, reply: Reply) -> bool {
    match awaiting {
        Awaiting::Nothing => false,
        Awaiting::Parse => reply is Parsed || reply is Failed,
        Awaiting::Insert | Awaiting::Lowering | Awaiting::Engine => reply is Completed
            || reply is Failed,
        Awaiting::Invocation => reply is Completed || reply is Failed || reply is Trapped,
    }
}

/// The error that `reply` means for the awaited command, or `None` where
/// the command succeeded. A text that the backend refuses is a parse error,
/// a failed run of the pipeline a lowering error, a null engine an engine
/// creation error; an entry function that the engine does not find and one
/// that traps are the two invocation errors.
pub open spec fn verdict(awaiting: Awaiting, reply: Reply) -> Option<PipelineError> {
    match reply {
        Reply::Completed => None,
        Reply::Parsed { .. } => None,
        Reply::Trapped => Some(PipelineError::Invocation(InvocationError::Trap)),
        Reply::Failed => match awaiting {
            Awaiting::Nothing => None,
            Awaiting::Parse => Some(PipelineError::Parse),
            Awaiting::Insert => Some(PipelineError::Parse),
            Awaiting::Lowering => Some(PipelineError::Lowering),
            Awaiting::Engine => Some(PipelineError::EngineCreation),
            Awaiting::Invocation => Some(
                PipelineError::Invocation(InvocationError::SymbolNotFound),
            ),
        },
    }
}

/// Tells whether `reply` can answer the command that `awaiting` stands for.
pub fn accepts(awaiting: Awaiting, reply: Reply) -> (fitting: bool)
    ensures
        fitting == fits(awaiting, reply),
{
    match awaiting {
        Awaiting::Nothing => false,
        Awaiting::Parse => match reply {
            Reply::Parsed { .. } | Reply::Failed => true,
            _ => false,
        },
        Awaiting::Insert | Awaiting::Lowering | Awaiting::Engine => match reply {
            Reply::Completed | Reply::Failed => true,
            _ => false,
        },
        Awaiting::Invocation => match reply {
            Reply::Completed | Reply::Failed | Reply::Trapped => true,
            _ => false,
        },
    }
}

/// Reads `reply` as the outcome of the awaited command.
pub fn classify(awaiting: Awaiting, reply: Reply) -> (error: Option<PipelineError>)
    ensures
        error == verdict(awaiting, reply),
{
    match reply {
        Reply::Completed => None,
        Reply::Parsed { .. } => None,
        Reply::Trapped => Some(PipelineError::Invocation(InvocationError::Trap)),
        Reply::Failed => match awaiting {
            Awaiting::Nothing => None,
            Awaiting::Parse => Some(PipelineError::Parse),
            Awaiting::Insert => Some(PipelineError::Parse),
            Awaiting::Lowering => Some(PipelineError::Lowering),
            Awaiting::Engine => Some(PipelineError::EngineCreation),
            Awaiting::Invocation => Some(
                PipelineError::Invocation(InvocationError::SymbolNotFound),
            ),
        },
    }
}

} // verus!
