//! The stages of one pipeline run and the moves between them.

use vstd::prelude::*;

verus! {

/// Where a run stands. A run starts `Uninitialized` and only moves forward;
/// `TornDown` and `Failed` end it.
#[derive(Clone, Copy, Debug, PartialEq, Eq, Structural)]
pub enum Stage {
    /// Nothing has been created.
    Uninitialized,
    /// The context stands, with its dialects loaded.
    ContextReady,
    /// The module exists and can be filled.
    ModuleBuilt,
    /// The pass pipeline has run over the module, with success.
    Lowered,
    /// The module has been compiled into an engine.
    EngineReady,
    /// A compiled function has been called at least once.
    Invoked,
    /// Everything has been released, the context last.
    TornDown,
    /// A command has failed. Only a new run leads on from here.
    Failed,
}

/// A move that a run can make.
#[derive(Clone, Copy, Debug, PartialEq, Eq, Structural)]
pub enum Transition {
    /// The context is created.
    CreateContext,
    /// The module is created, empty or from a text.
    BuildModule,
    /// The pass pipeline runs through.
    Lower,
    /// The engine is created.
    CreateEngine,
    /// A compiled function is called and returns.
    Invoke,
    /// The run is ended in good order.
    TearDown,
    /// A command fails.
    Fail,
}

impl Stage {
    /// The position of a stage in the order of a run.
    pub open spec fn rank(self) -> nat {
        match self {
            Stage::Uninitialized => 0,
            Stage::ContextReady => 1,
            Stage::ModuleBuilt => 2,
            Stage::Lowered => 3,
            Stage::EngineReady => 4,
            Stage::Invoked => 5,
            Stage::TornDown => 6,
            Stage::Failed => 7,
        }
    }

    /// A run in a terminal stage makes no further move.
    pub open spec fn terminal(self) -> bool {
        self is TornDown || self is Failed
    }

    /// A context stands in every stage between its creation and the end of
    /// the run.
    pub open spec fn started(self) -> bool {
        !(self is Uninitialized) && !self.terminal()
    }

    /// The stage that `transition` leads to from `self`, where the move is
    /// allowed.
    pub open spec fn after(self, transition: Transition) -> Option<Stage> {
        match transition {
            Transition::CreateContext => if self is Uninitialized {
                Some(Stage::ContextReady)
            } else {
                None
            },
            Transition::BuildModule => if self is ContextReady {
                Some(Stage::ModuleBuilt)
            } else {
                None
            },
            Transition::Lower => if self is ModuleBuilt {
                Some(Stage::Lowered)
            } else {
                None
            },
            Transition::CreateEngine => if self is Lowered {
                Some(Stage::EngineReady)
            } else {
                None
            },
            Transition::Invoke => if self is EngineReady || self is Invoked {
                Some(Stage::Invoked)
            } else {
                None
            },
            Transition::TearDown => if self.started() {
                Some(Stage::TornDown)
            } else {
                None
            },
            Transition::Fail => if self.started() {
                Some(Stage::Failed)
            } else {
                None
            },
        }
    }

    /// Whether the run has ended.
    pub fn is_terminal(self) -> (ended: bool)
        ensures
            ended == self.terminal(),
    {
        match self {
            Stage::TornDown | Stage::Failed => true,
            _ => false,
        }
    }

    /// Whether a context stands.
    pub fn is_started(self) -> (standing: bool)
        ensures
            standing == self.started(),
    {
        match self {
            Stage::Uninitialized | Stage::TornDown | Stage::Failed => false,
            _ => true,
        }
    }

    /// Makes the move `transition`, or refuses it with `None`.
    pub fn advance(self, transition: Transition) -> (next: Option<Stage>)
        ensures
            next == self.after(transition),
    {
        match transition {
            Transition::CreateContext => match self {
                Stage::Uninitialized => Some(Stage::ContextReady),
                _ => None,
            },
            Transition::BuildModule => match self {
                Stage::ContextReady => Some(Stage::ModuleBuilt),
                _ => None,
            },
            Transition::Lower => match self {
                Stage::ModuleBuilt => Some(Stage::Lowered),
                _ => None,
            },
            Transition::CreateEngine => match self {
                Stage::Lowered => Some(Stage::EngineReady),
                _ => None,
            },
            Transition::Invoke => match self {
                Stage::EngineReady | Stage::Invoked => Some(Stage::Invoked),
                _ => None,
            },
            Transition::TearDown => if self.is_started() {
                Some(Stage::TornDown)
            } else {
                None
            },
            Transition::Fail => if self.is_started() {
                Some(Stage::Failed)
            } else {
                None
            },
        }
    }
}

/// A move never leads backward: the stage after it ranks higher, but for a
/// repeated invocation, which stays at `Invoked`.
pub proof fn lemma_forward_only(stage: Stage, transition: Transition)
    requires
        stage.after(transition) is Some,
    ensures
        stage.rank() < stage.after(transition)->0.rank() || (stage is Invoked && transition is Invoke
            && stage.after(transition)->0 is Invoked),
{
}

/// A run that was torn down or has failed makes no further move, and a
/// failure ends a run from every stage in which a context stands.
pub proof fn lemma_terminal_stages(stage: Stage, transition: Transition)
    ensures
        stage.terminal() ==> stage.after(transition) is None,
        stage.started() ==> stage.after(Transition::Fail) == Some(Stage::Failed),
        stage.after(transition) matches Some(next) && next is Failed ==> transition is Fail,
{
}

} // verus!
