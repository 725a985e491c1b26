//! The run itself: its settings, its context, and the requests that move
//! it from stage to stage.

use crate::command::{Action, Command, CommandView, Outcome};
use crate::context::{lemma_with_dialect, with_dialect, Context};
use crate::ir::{well_formed, Block, Module, Operation};
use crate::pass::{minimal_pipeline, minimal_pipeline_spec, Pass};
use crate::plan::{
    baseline_dialects, engine_plan, lowered_plan, lowering_plan, plan_engine, plan_lowered,
    plan_lowering, plan_startup, plan_teardown, startup_plan, target_dialect, teardown_plan,
};
use crate::reply::{classify, fits, verdict, Awaiting, Reply};
use crate::stage::{Stage, Transition};
use vstd::prelude::*;
use vstd::string::*;

verus! {

/// A pipeline run: the settings of its engine and the state of its context.
#[derive(Debug, PartialEq, Eq)]
pub struct MlirWrapper {
    pub optimization_level: i32,
    pub shared_library_paths: Vec<String>,
    pub context: Context,
}

impl MlirWrapper {
    /// The invariant of the run is that of its context.
    pub open spec fn wf(&self) -> bool {
        self.context.wf()
    }

    /// A run that waits for no reply takes requests.
    pub open spec fn idle(&self) -> bool {
        self.context.awaiting is Nothing
    }

    /// The run after the failure of the awaited command: failed for good,
    /// with nothing due and no call in prospect. What stands in the backend
    /// still stands, for `destroy_context` to release.
    pub open spec fn failed(self) -> MlirWrapper {
        MlirWrapper {
            context: Context {
                stage: Stage::Failed,
                awaiting: Awaiting::Nothing,
                entry: None,
                ..self.context
            },
            ..self
        }
    }

    /// The run after the success of the awaited command, but for the
    /// module that a parse brings: the stage moves on, the engine stands
    /// once it is created, and an `execute` under way goes on to its call
    /// and from there to the release of engine and module.
    pub open spec fn succeeded(self) -> MlirWrapper {
        let context = self.context;
        MlirWrapper {
            context: match context.awaiting {
                Awaiting::Nothing => context,
                Awaiting::Parse => Context {
                    stage: Stage::ModuleBuilt,
                    awaiting: Awaiting::Nothing,
                    ..context
                },
                Awaiting::Insert => Context { awaiting: Awaiting::Nothing, ..context },
                Awaiting::Lowering => Context {
                    stage: Stage::Lowered,
                    awaiting: Awaiting::Nothing,
                    ..context
                },
                Awaiting::Engine => Context {
                    stage: Stage::EngineReady,
                    awaiting: if context.entry is Some {
                        Awaiting::Invocation
                    } else {
                        Awaiting::Nothing
                    },
                    engine: true,
                    ..context
                },
                Awaiting::Invocation => if context.entry is Some {
                    Context {
                        stage: Stage::Invoked,
                        awaiting: Awaiting::Nothing,
                        entry: None,
                        module: None,
                        engine: false,
                        ..context
                    }
                } else {
                    Context { stage: Stage::Invoked, awaiting: Awaiting::Nothing, ..context }
                },
            },
            ..self
        }
    }

    /// The commands that follow the awaited command: the pass manager goes
    /// after its run, however that went; a created engine is asked for the
    /// call that an `execute` holds; after that call engine and module are
    /// released, the engine first. Nothing follows a failure otherwise.
    pub open spec fn follow_up(self, reply: Reply) -> Seq<CommandView> {
        let success = verdict(self.context.awaiting, reply) is None;
        match self.context.awaiting {
            Awaiting::Lowering => lowered_plan(success),
            Awaiting::Engine => match self.context.entry {
                Some(entry) if success => seq![CommandView::Invoke { function: entry@ }],
                _ => Seq::empty(),
            },
            Awaiting::Invocation => if success && self.context.entry is Some {
                seq![CommandView::DestroyEngine, CommandView::DestroyModule]
            } else {
                Seq::empty()
            },
            _ => Seq::empty(),
        }
    }

    /// A run with the given engine settings, in which nothing has been
    /// created yet.
    pub fn new(optimization_level: i32, shared_library_paths: Vec<String>) -> (wrapper: MlirWrapper)
        ensures
            wrapper.optimization_level == optimization_level,
            wrapper.shared_library_paths == shared_library_paths,
            wrapper.context.fresh(),
            wrapper.wf(),
    {
        MlirWrapper {
            optimization_level,
            shared_library_paths,
            context: Context {
                stage: Stage::Uninitialized,
                awaiting: Awaiting::Nothing,
                entry: None,
                dialects: Vec::new(),
                module: None,
                engine: false,
                live: false,
            },
        }
    }

    /// Creates the context: the backend context with every available
    /// dialect registered, and the baseline dialects loaded.
    pub fn create_context(&mut self) -> (action: Action)
        requires
            old(self).wf(),
            old(self).context.stage is Uninitialized,
        ensures
            final(self).wf(),
            action.commands.deep_view() == startup_plan(),
            action.outcome == Outcome::Done,
            Some(final(self).context.stage) == old(self).context.stage.after(
                Transition::CreateContext,
            ),
            final(self).context.loaded() == baseline_dialects(),
            *final(self) == (MlirWrapper {
                context: Context {
                    stage: final(self).context.stage,
                    dialects: final(self).context.dialects,
                    live: true,
                    ..old(self).context
                },
                ..*old(self)
            }),
    {
        proof {
            reveal_strlit("arith");
            reveal_strlit("memref");
            reveal_strlit("func");
            assert("arith"@.len() == 5 && "memref"@.len() == 6 && "func"@.len() == 4);
        }
        self.context.load("arith");
        assert(self.context.loaded() =~= seq!["arith"@]);
        self.context.load("memref");
        assert(self.context.loaded() =~= seq!["arith"@, "memref"@]);
        self.context.load("func");
        assert(self.context.loaded() =~= baseline_dialects());
        assert(baseline_dialects().no_duplicates());
        self.context.advance(Transition::CreateContext);
        self.context.live = true;
        Action { commands: plan_startup(), outcome: Outcome::Done }
    }

    /// Loads the dialect `name` into the context. A dialect that is loaded
    /// stays so until the context goes.
    pub fn load_dialect(&mut self, name: &str) -> (action: Action)
        requires
            old(self).wf(),
            old(self).idle(),
            old(self).context.stage.started(),
        ensures
            final(self).wf(),
            action.commands.deep_view() == seq![CommandView::LoadDialect { name: name@ }],
            action.outcome == Outcome::Done,
            final(self).context.loaded() == with_dialect(old(self).context.loaded(), name@),
            *final(self) == (MlirWrapper {
                context: Context { dialects: final(self).context.dialects, ..old(self).context },
                ..*old(self)
            }),
    {
        self.context.load(name);
        proof {
            lemma_with_dialect(old(self).context.loaded(), name@);
        }
        let mut commands: Vec<Command> = Vec::new();
        commands.push(Command::LoadDialect { name: String::from_str(name) });
        assert(commands.deep_view() =~= seq![CommandView::LoadDialect { name: name@ }]);
        Action { commands, outcome: Outcome::Done }
    }

    /// Asks the backend to parse `ir_code` into the module of the run.
    pub fn parse_module(&mut self, ir_code: &str) -> (action: Action)
        requires
            old(self).wf(),
            old(self).idle(),
            old(self).context.stage is ContextReady,
        ensures
            final(self).wf(),
            action.commands.deep_view() == seq![CommandView::ParseModule { text: ir_code@ }],
            action.outcome == Outcome::Pending,
            *final(self) == (MlirWrapper {
                context: Context { awaiting: Awaiting::Parse, ..old(self).context },
                ..*old(self)
            }),
    {
        let mut commands: Vec<Command> = Vec::new();
        commands.push(Command::ParseModule { text: String::from_str(ir_code) });
        assert(commands.deep_view() =~= seq![CommandView::ParseModule { text: ir_code@ }]);
        self.context.awaiting = Awaiting::Parse;
        Action { commands, outcome: Outcome::Pending }
    }

    /// Creates the module of the run with no operations, at an unknown
    /// location.
    pub fn create_module(&mut self) -> (action: Action)
        requires
            old(self).wf(),
            old(self).idle(),
            old(self).context.stage is ContextReady,
        ensures
            final(self).wf(),
            action.commands.deep_view() == seq![CommandView::CreateEmptyModule],
            action.outcome == Outcome::Done,
            Some(final(self).context.stage) == old(self).context.stage.after(
                Transition::BuildModule,
            ),
            final(self).context.module matches Some(module) && module.body@.len() == 0
                && module.passes@.len() == 0,
            *final(self) == (MlirWrapper {
                context: Context {
                    stage: final(self).context.stage,
                    module: final(self).context.module,
                    ..old(self).context
                },
                ..*old(self)
            }),
    {
        let mut commands: Vec<Command> = Vec::new();
        commands.push(Command::CreateEmptyModule);
        assert(commands.deep_view() =~= seq![CommandView::CreateEmptyModule]);
        self.context.module = Some(Module::new());
        self.context.advance(Transition::BuildModule);
        Action { commands, outcome: Outcome::Done }
    }

    /// Assembles the function `name` in the model of the module, at position
    /// `index` of its body, and asks the backend to build it there. The
    /// entry block takes `arg_types`; `build` sees that block and gives the
    /// operations that fill it.
    pub fn create_function<F: FnOnce(&Block) -> Vec<Operation>>(
        &mut self,
        name: &str,
        arg_types: Vec<String>,
        result_types: &Vec<String>,
        index: usize,
        build: F,
    ) -> (action: Action)
        requires
            old(self).wf(),
            old(self).idle(),
            old(self).context.stage is ModuleBuilt,
            index <= old(self).context.module->0.body@.len(),
            forall|entry: Block| #[trigger]
                entry.is_entry(arg_types.deep_view()) ==> call_requires(build, (&entry,)),
            forall|entry: Block, operations: Vec<Operation>| #[trigger]
                call_ensures(build, (&entry,), operations) ==> well_formed(operations@),
        ensures
            final(self).wf(),
            action.commands.deep_view() == seq![CommandView::InsertOperation { index }],
            action.outcome == Outcome::Pending,
            final(self).context.module matches Some(module) && {
                &&& module.is_with_function(
                    old(self).context.module->0,
                    index as int,
                    name@,
                    arg_types.deep_view(),
                    result_types.deep_view(),
                )
                &&& exists|entry: Block| #[trigger]
                    entry.is_entry(arg_types.deep_view()) && call_ensures(
                        build,
                        (&entry,),
                        module.function_body_at(index as int),
                    )
            },
            *final(self) == (MlirWrapper {
                context: Context {
                    awaiting: Awaiting::Insert,
                    module: final(self).context.module,
                    ..old(self).context
                },
                ..*old(self)
            }),
    {
        let mut module = self.context.module.take().unwrap();
        module.create_function(name, arg_types, result_types, index, build);
        self.context.module = Some(module);
        self.context.awaiting = Awaiting::Insert;
        let mut commands: Vec<Command> = Vec::new();
        commands.push(Command::InsertOperation { index });
        assert(commands.deep_view() =~= seq![CommandView::InsertOperation { index }]);
        Action { commands, outcome: Outcome::Pending }
    }

    /// Begins lowering with `passes`: loads the target dialect, records the
    /// passes with the module, and hands out the pass manager's commands up
    /// to its one run. With no passes the module stays as it is.
    pub fn lower(&mut self, passes: Vec<Pass>) -> (action: Action)
        requires
            old(self).wf(),
            old(self).idle(),
            old(self).context.stage is ModuleBuilt,
        ensures
            final(self).wf(),
            action.commands.deep_view() == lowering_plan(passes.deep_view()),
            action.outcome == Outcome::Pending,
            final(self).context.loaded() == with_dialect(
                old(self).context.loaded(),
                target_dialect(),
            ),
            final(self).context.module matches Some(module) && {
                &&& module.body == old(self).context.module->0.body
                &&& module.passes@ == old(self).context.module->0.passes@ + passes@
            },
            passes@.len() == 0 ==> final(self).context.module == old(self).context.module,
            *final(self) == (MlirWrapper {
                context: Context {
                    awaiting: Awaiting::Lowering,
                    dialects: final(self).context.dialects,
                    module: final(self).context.module,
                    ..old(self).context
                },
                ..*old(self)
            }),
    {
        let commands = plan_lowering(&passes);
        self.context.load("llvm");
        proof {
            lemma_with_dialect(old(self).context.loaded(), target_dialect());
        }
        if passes.len() > 0 {
            let mut module = self.context.module.take().unwrap();
            let mut passes = passes;
            module.passes.append(&mut passes);
            self.context.module = Some(module);
        } else {
            assert(old(self).context.module->0.passes@ + passes@
                =~= old(self).context.module->0.passes@);
        }
        self.context.awaiting = Awaiting::Lowering;
        Action { commands, outcome: Outcome::Pending }
    }

    /// Begins lowering with the least pipeline of the function-to-native
    /// path.
    pub fn lower_to_llvm(&mut self) -> (action: Action)
        requires
            old(self).wf(),
            old(self).idle(),
            old(self).context.stage is ModuleBuilt,
        ensures
            final(self).wf(),
            action.commands.deep_view() == lowering_plan(minimal_pipeline_spec()),
            action.outcome == Outcome::Pending,
            final(self).context.loaded() == with_dialect(
                old(self).context.loaded(),
                target_dialect(),
            ),
            final(self).context.module matches Some(module) && {
                &&& module.body == old(self).context.module->0.body
                &&& module.passes.deep_view() == old(self).context.module->0.passes.deep_view()
                    + minimal_pipeline_spec()
            },
            *final(self) == (MlirWrapper {
                context: Context {
                    awaiting: Awaiting::Lowering,
                    dialects: final(self).context.dialects,
                    module: final(self).context.module,
                    ..old(self).context
                },
                ..*old(self)
            }),
    {
        let passes = minimal_pipeline();
        let action = self.lower(passes);
        assert(self.context.module->0.passes.deep_view() =~= old(
            self,
        ).context.module->0.passes.deep_view() + minimal_pipeline_spec());
        action
    }

    /// Asks the backend to compile the module into an execution engine,
    /// with the run's optimization level and library paths.
    pub fn create_engine(&mut self, enable_object_dump: bool) -> (action: Action)
        requires
            old(self).wf(),
            old(self).idle(),
            old(self).context.stage is Lowered,
        ensures
            final(self).wf(),
            action.commands.deep_view() == engine_plan(
                old(self).optimization_level,
                old(self).shared_library_paths.deep_view(),
                enable_object_dump,
            ),
            action.outcome == Outcome::Pending,
            *final(self) == (MlirWrapper {
                context: Context { awaiting: Awaiting::Engine, entry: None, ..old(self).context },
                ..*old(self)
            }),
    {
        self.context.awaiting = Awaiting::Engine;
        self.context.entry = None;
        Action {
            commands: plan_engine(
                self.optimization_level,
                &self.shared_library_paths,
                enable_object_dump,
            ),
            outcome: Outcome::Pending,
        }
    }

    /// Begins the execution of `func`: asks for the engine as
    /// `create_engine` does, with no object dump, and keeps `func` as the
    /// function to call once the engine stands. The replies to come lead
    /// through the call to the release of engine and module.
    pub fn execute(&mut self, func: &str) -> (action: Action)
        requires
            old(self).wf(),
            old(self).idle(),
            old(self).context.stage is Lowered,
        ensures
            final(self).wf(),
            action.commands.deep_view() == engine_plan(
                old(self).optimization_level,
                old(self).shared_library_paths.deep_view(),
                false,
            ),
            action.outcome == Outcome::Pending,
            final(self).context.entry matches Some(entry) && entry@ == func@,
            *final(self) == (MlirWrapper {
                context: Context {
                    awaiting: Awaiting::Engine,
                    entry: final(self).context.entry,
                    ..old(self).context
                },
                ..*old(self)
            }),
    {
        self.context.awaiting = Awaiting::Engine;
        self.context.entry = Some(String::from_str(func));
        Action {
            commands: plan_engine(self.optimization_level, &self.shared_library_paths, false),
            outcome: Outcome::Pending,
        }
    }

    /// Asks the engine to call `function` with the host's packed arguments.
    pub fn invoke(&mut self, function: &str) -> (action: Action)
        requires
            old(self).wf(),
            old(self).idle(),
            old(self).context.stage is EngineReady || old(self).context.stage is Invoked,
            old(self).context.engine,
        ensures
            final(self).wf(),
            action.commands.deep_view() == seq![CommandView::Invoke { function: function@ }],
            action.outcome == Outcome::Pending,
            *final(self) == (MlirWrapper {
                context: Context {
                    awaiting: Awaiting::Invocation,
                    entry: None,
                    ..old(self).context
                },
                ..*old(self)
            }),
    {
        self.context.awaiting = Awaiting::Invocation;
        self.context.entry = None;
        let mut commands: Vec<Command> = Vec::new();
        commands.push(Command::Invoke { function: String::from_str(function) });
        assert(commands.deep_view() =~= seq![CommandView::Invoke { function: function@ }]);
        Action { commands, outcome: Outcome::Pending }
    }

    /// Releases the engine. The module it was compiled from stays.
    pub fn destroy_engine(&mut self) -> (action: Action)
        requires
            old(self).wf(),
            old(self).idle(),
            old(self).context.engine,
        ensures
            final(self).wf(),
            action.commands.deep_view() == seq![CommandView::DestroyEngine],
            action.outcome == Outcome::Done,
            *final(self) == (MlirWrapper {
                context: Context { engine: false, ..old(self).context },
                ..*old(self)
            }),
    {
        self.context.engine = false;
        let mut commands: Vec<Command> = Vec::new();
        commands.push(Command::DestroyEngine);
        assert(commands.deep_view() =~= seq![CommandView::DestroyEngine]);
        Action { commands, outcome: Outcome::Done }
    }

    /// Takes the host's reply to the fallible command that is due, and says
    /// how the run goes on.
    pub fn resume(&mut self, reply: Reply) -> (action: Action)
        requires
            old(self).wf(),
            fits(old(self).context.awaiting, reply),
        ensures
            final(self).wf(),
            action.commands.deep_view() == old(self).follow_up(reply),
            action.outcome == (match verdict(old(self).context.awaiting, reply) {
                Some(error) => Outcome::Failed(error),
                None => if final(self).idle() {
                    Outcome::Done
                } else {
                    Outcome::Pending
                },
            }),
            verdict(old(self).context.awaiting, reply) is Some ==> *final(self) == old(
                self,
            ).failed(),
            reply is Completed ==> *final(self) == old(self).succeeded(),
            reply matches Reply::Parsed { operations } ==> {
                &&& final(self).context.module matches Some(module) && module.is_parsed(operations)
                &&& *final(self) == (MlirWrapper {
                    context: Context {
                        module: final(self).context.module,
                        ..old(self).succeeded().context
                    },
                    ..*old(self)
                })
            },
    {
        let awaiting = self.context.awaiting;
        let error = classify(awaiting, reply);
        let mut commands: Vec<Command> = Vec::new();
        match awaiting {
            Awaiting::Lowering => {
                commands = plan_lowered(error.is_none());
            },
            _ => {},
        }
        match error {
            Some(error) => {
                self.context.advance(Transition::Fail);
                self.context.awaiting = Awaiting::Nothing;
                self.context.entry = None;
                assert(commands.deep_view() =~= old(self).follow_up(reply));
                return Action { commands, outcome: Outcome::Failed(error) };
            },
            None => {},
        }
        self.context.awaiting = Awaiting::Nothing;
        match awaiting {
            Awaiting::Nothing => {},
            Awaiting::Parse => {
                match reply {
                    Reply::Parsed { operations } => {
                        self.context.module = Some(Module::parsed(operations));
                    },
                    _ => {},
                }
                self.context.advance(Transition::BuildModule);
            },
            Awaiting::Insert => {},
            Awaiting::Lowering => {
                self.context.advance(Transition::Lower);
            },
            Awaiting::Engine => {
                self.context.advance(Transition::CreateEngine);
                self.context.engine = true;
                match &self.context.entry {
                    Some(entry) => {
                        commands.push(Command::Invoke { function: entry.clone() });
                        self.context.awaiting = Awaiting::Invocation;
                    },
                    None => {},
                }
            },
            Awaiting::Invocation => {
                self.context.advance(Transition::Invoke);
                if self.context.entry.is_some() {
                    commands.push(Command::DestroyEngine);
                    commands.push(Command::DestroyModule);
                    self.context.entry = None;
                    self.context.module = None;
                    self.context.engine = false;
                }
            },
        }
        assert(commands.deep_view() =~= old(self).follow_up(reply));
        let outcome = match self.context.awaiting {
            Awaiting::Nothing => Outcome::Done,
            _ => Outcome::Pending,
        };
        Action { commands, outcome }
    }

    /// Ends the run: releases the engine and the module where they stand,
    /// and the context last. A run that has failed stays failed.
    pub fn destroy_context(&mut self) -> (action: Action)
        requires
            old(self).wf(),
            old(self).idle(),
            old(self).context.live,
        ensures
            final(self).wf(),
            action.commands.deep_view() == teardown_plan(
                old(self).context.engine,
                old(self).context.module is Some,
            ),
            action.outcome == Outcome::Done,
            final(self).context.stage == (if old(self).context.stage is Failed {
                Stage::Failed
            } else {
                Stage::TornDown
            }),
            !(old(self).context.stage is Failed) ==> Some(final(self).context.stage) == old(
                self,
            ).context.stage.after(Transition::TearDown),
            final(self).context.loaded().len() == 0,
            *final(self) == (MlirWrapper {
                context: Context {
                    stage: final(self).context.stage,
                    dialects: final(self).context.dialects,
                    module: None,
                    engine: false,
                    live: false,
                    ..old(self).context
                },
                ..*old(self)
            }),
    {
        let commands = plan_teardown(self.context.engine, self.context.module.is_some());
        match self.context.stage {
            Stage::Failed => {},
            _ => {
                self.context.advance(Transition::TearDown);
            },
        }
        self.context.dialects = Vec::new();
        self.context.module = None;
        self.context.engine = false;
        self.context.live = false;
        Action { commands, outcome: Outcome::Done }
    }

}

impl Default for MlirWrapper {
    /// The run with the default engine settings: optimization level 2 and no
    /// library paths.
    fn default() -> (wrapper: MlirWrapper)
        ensures
            wrapper.optimization_level == 2,
            wrapper.shared_library_paths@.len() == 0,
            wrapper.context.fresh(),
            wrapper.wf(),
    {
        MlirWrapper::new(2, Vec::new())
    }
}

} // verus!
