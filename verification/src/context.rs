//! The library's account of the backend context: the stage of the run,
//! the loaded dialects, and what stands in the backend.

use crate::ir::Module;
use crate::plan::{baseline_dialects, target_dialect};
use crate::reply::Awaiting;
use crate::stage::{Stage, Transition};
use vstd::prelude::*;
use vstd::string::*;

verus! {

/// The library's account of the backend context and of what was derived
/// from it.
#[derive(Debug, PartialEq, Eq)]
pub struct Context {
    /// Where the run stands.
    pub stage: Stage,
    /// The reply that is due.
    pub awaiting: Awaiting,
    /// The function to call once the engine stands, while an `execute` is
    /// under way.
    pub entry: Option<String>,
    /// The names of the loaded dialects, in the order of loading.
    pub dialects: Vec<String>,
    /// The module of the run, while the backend holds it.
    pub module: Option<Module>,
    /// Whether the backend holds an execution engine.
    pub engine: bool,
    /// Whether the backend holds the context.
    pub live: bool,
}

/// `loaded` with `name` among its members: unchanged where it is one, with
/// `name` as the new last member where it is not.
pub open spec fn with_dialect(loaded: Seq<Seq<char>>, name: Seq<char>) -> Seq<Seq<char>> {
    if loaded.contains(name) {
        loaded
    } else {
        loaded.push(name)
    }
}

impl Context {
    /// The names of the loaded dialects.
    pub open spec fn loaded(&self) -> Seq<Seq<char>> {
        self.dialects.deep_view()
    }

    /// Nothing has been created yet.
    pub open spec fn fresh(&self) -> bool {
        &&& self.stage is Uninitialized
        &&& self.awaiting is Nothing
        &&& self.entry is None
        &&& self.loaded().len() == 0
        &&& self.module is None
        &&& !self.engine
        &&& !self.live
    }

    /// What holds of the account between any two requests: what stands in
    /// the backend agrees with the stage, an engine never outlives its
    /// module nor a module its context, and a reply is due only for a
    /// command that the stage allows.
    pub open spec fn wf(&self) -> bool {
        &&& self.loaded().no_duplicates()
        &&& (self.module matches Some(module) ==> module.wf())
        &&& (self.engine ==> self.module is Some)
        &&& (self.module is Some ==> self.live)
        &&& (self.live ==> forall|i: int|
            0 <= i < baseline_dialects().len() ==> self.loaded().contains(
                #[trigger] baseline_dialects()[i],
            ))
        &&& (!self.live ==> self.loaded().len() == 0)
        &&& (self.entry is Some ==> self.awaiting is Engine || self.awaiting is Invocation)
        &&& (self.awaiting is Lowering ==> self.loaded().contains(target_dialect()))
        &&& match self.stage {
            Stage::Uninitialized => !self.live && self.awaiting is Nothing,
            Stage::ContextReady => self.live && self.module is None && (self.awaiting is Nothing
                || self.awaiting is Parse),
            Stage::ModuleBuilt => self.live && self.module is Some && !self.engine && (
            self.awaiting is Nothing || self.awaiting is Insert || self.awaiting is Lowering),
            Stage::Lowered => self.live && self.module is Some && !self.engine
                && self.loaded().contains(target_dialect()) && (self.awaiting is Nothing
                || self.awaiting is Engine),
            Stage::EngineReady => self.live && self.module is Some && (self.awaiting is Nothing || (
            self.awaiting is Invocation && self.engine)),
            Stage::Invoked => self.live && (self.awaiting is Nothing || (self.awaiting is Invocation
                && self.engine)),
            Stage::TornDown => !self.live && self.awaiting is Nothing,
            Stage::Failed => self.awaiting is Nothing,
        }
    }

    /// Makes the move `transition`, which the stage allows.
    pub fn advance(&mut self, transition: Transition)
        requires
            old(self).stage.after(transition) is Some,
        ensures
            *final(self) == (Context {
                stage: old(self).stage.after(transition)->0,
                ..*old(self)
            }),
    {
        match self.stage.advance(transition) {
            Some(stage) => {
                self.stage = stage;
            },
            None => {},
        }
    }

    /// Enters `name` among the loaded dialects, unless it is one of them.
    pub fn load(&mut self, name: &str)
        ensures
            final(self).loaded() == with_dialect(old(self).loaded(), name@),
            *final(self) == (Context { dialects: final(self).dialects, ..*old(self) }),
    {
        let wanted = String::from_str(name);
        let ghost loaded = self.loaded();
        let mut i: usize = 0;
        while i < self.dialects.len()
            invariant
                i <= self.dialects.len(),
                wanted@ == name@,
                loaded == self.loaded(),
                *self == *old(self),
                !loaded.take(i as int).contains(name@),
            decreases self.dialects.len() - i,
        {
            if self.dialects[i] == wanted {
                assert(loaded[i as int] == name@);
                return ;
            }
            assert(loaded.take(i + 1) =~= loaded.take(i as int).push(loaded[i as int]));
            i += 1;
        }
        assert(loaded.take(i as int) =~= loaded);
        self.dialects.push(wanted);
        assert(self.loaded() =~= loaded.push(name@));
    }
}

/// Loading a dialect keeps the loaded names distinct and forgets none.
pub proof fn lemma_with_dialect(loaded: Seq<Seq<char>>, name: Seq<char>)
    requires
        loaded.no_duplicates(),
    ensures
        with_dialect(loaded, name).no_duplicates(),
        with_dialect(loaded, name).contains(name),
        forall|other: Seq<char>| loaded.contains(other) ==> with_dialect(loaded, name).contains(other),
{
    let after = with_dialect(loaded, name);
    if !loaded.contains(name) {
        assert(after[loaded.len() as int] == name);
        assert forall|other: Seq<char>| loaded.contains(other) implies after.contains(other) by {
            let i = loaded.index_of(other);
            assert(after[i] == other);
        }
    }
}

} // verus!
