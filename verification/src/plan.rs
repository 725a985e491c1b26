//! The command sequences of the run's fixed procedures: what is handed to
//! the backend, and in which order.

use crate::command::{Command, CommandView};
use crate::pass::{function_anchor, Pass, PassView};
use vstd::prelude::*;
use vstd::string::*;

verus! {

/// The dialects that every context loads when it is created.
pub open spec fn baseline_dialects() -> Seq<Seq<char>> {
    seq!["arith"@, "memref"@, "func"@]
}

/// The dialect of the native-ready form, loaded when lowering begins.
pub open spec fn target_dialect() -> Seq<char> {
    "llvm"@
}

/// Context creation: the context, then a registry that is filled, merged
/// into the context and discarded, then the baseline dialects in order.
pub open spec fn startup_plan() -> Seq<CommandView> {
    seq![
        CommandView::CreateContext,
        CommandView::CreateRegistry,
        CommandView::RegisterAllDialects,
        CommandView::AppendRegistry,
        CommandView::DestroyRegistry,
    ] + baseline_dialects().map_values(|name: Seq<char>| CommandView::LoadDialect { name })
}

/// The command that appends `pass` at its level.
pub open spec fn add_pass(pass: PassView) -> CommandView {
    CommandView::AddPass { scope: pass.scope, name: pass.name }
}

/// Lowering up to the run of the pipeline: the target dialect first, then a
/// pass manager with its nested pipeline, each pass at its level in the
/// order given, and one run.
pub open spec fn lowering_plan(passes: Seq<PassView>) -> Seq<CommandView> {
    seq![
        CommandView::LoadDialect { name: target_dialect() },
        CommandView::CreatePassManager,
        CommandView::NestPassManager { anchor: function_anchor() },
    ] + passes.map_values(|pass: PassView| add_pass(pass)) + seq![CommandView::RunPassManager]
}

/// What follows the run of the pipeline: the pass manager goes either way,
/// and the translations are registered where the run succeeded.
pub open spec fn lowered_plan(succeeded: bool) -> Seq<CommandView> {
    if succeeded {
        seq![CommandView::DestroyPassManager, CommandView::RegisterLlvmTranslations]
    } else {
        seq![CommandView::DestroyPassManager]
    }
}

/// Engine creation at `optimization_level`, with `library_paths` to resolve
/// outside symbols.
pub open spec fn engine_plan(
    optimization_level: i32,
    library_paths: Seq<Seq<char>>,
    enable_object_dump: bool,
) -> Seq<CommandView> {
    seq![CommandView::CreateEngine { optimization_level, library_paths, enable_object_dump }]
}

/// The release of what stands, in the reverse of the order of creation: the
/// engine, the module, and in every case the context last.
pub open spec fn teardown_plan(engine: bool, module: bool) -> Seq<CommandView> {
    (if engine {
        seq![CommandView::DestroyEngine]
    } else {
        Seq::empty()
    }) + (if module {
        seq![CommandView::DestroyModule]
    } else {
        Seq::empty()
    }) + seq![CommandView::DestroyContext]
}

/// Writes the commands of context creation.
pub fn plan_startup() -> (commands: Vec<Command>)
    ensures
        commands.deep_view() == startup_plan(),
{
    let mut commands: Vec<Command> = Vec::new();
    commands.push(Command::CreateContext);
    commands.push(Command::CreateRegistry);
    commands.push(Command::RegisterAllDialects);
    commands.push(Command::AppendRegistry);
    commands.push(Command::DestroyRegistry);
    commands.push(Command::LoadDialect { name: String::from_str("arith") });
    commands.push(Command::LoadDialect { name: String::from_str("memref") });
    commands.push(Command::LoadDialect { name: String::from_str("func") });
    assert(commands.deep_view() =~= startup_plan());
    commands
}

/// Writes the commands of lowering with `passes`, up to the run.
pub fn plan_lowering(passes: &Vec<Pass>) -> (commands: Vec<Command>)
    ensures
        commands.deep_view() == lowering_plan(passes.deep_view()),
{
    let mut commands: Vec<Command> = Vec::new();
    commands.push(Command::LoadDialect { name: String::from_str("llvm") });
    commands.push(Command::CreatePassManager);
    commands.push(Command::NestPassManager { anchor: String::from_str("func.func") });
    let ghost head = commands.deep_view();
    let ghost views = passes.deep_view();
    assert(head =~= seq![
        CommandView::LoadDialect { name: target_dialect() },
        CommandView::CreatePassManager,
        CommandView::NestPassManager { anchor: function_anchor() },
    ]);
    let mut i: usize = 0;
    while i < passes.len()
        invariant
            i <= passes.len(),
            views == passes.deep_view(),
            head == seq![
                CommandView::LoadDialect { name: target_dialect() },
                CommandView::CreatePassManager,
                CommandView::NestPassManager { anchor: function_anchor() },
            ],
            commands@.len() == 3 + i,
            forall|k: int| 0 <= k < 3 ==> commands@[k].deep_view() == head[k],
            forall|k: int| 0 <= k < i ==> commands@[3 + k].deep_view() == add_pass(views[k]),
        decreases passes.len() - i,
    {
        commands.push(Command::AddPass { scope: passes[i].scope, name: passes[i].name.clone() });
        i += 1;
    }
    commands.push(Command::RunPassManager);
    proof {
        let plan = lowering_plan(views);
        let added = views.map_values(|pass: PassView| add_pass(pass));
        assert(plan.len() == commands@.len());
        assert forall|j: int| 0 <= j < plan.len() implies commands.deep_view()[j] == plan[j] by {
            if 3 <= j < 3 + i {
                assert(commands@[3 + (j - 3)].deep_view() == add_pass(views[j - 3]));
                assert(plan[j] == added[j - 3]);
            }
        }
        assert(commands.deep_view() =~= plan);
    }
    commands
}

/// Writes the commands that follow the run of the pipeline.
pub fn plan_lowered(succeeded: bool) -> (commands: Vec<Command>)
    ensures
        commands.deep_view() == lowered_plan(succeeded),
{
    let mut commands: Vec<Command> = Vec::new();
    commands.push(Command::DestroyPassManager);
    if succeeded {
        commands.push(Command::RegisterLlvmTranslations);
    }
    assert(commands.deep_view() =~= lowered_plan(succeeded));
    commands
}

/// Writes the command of engine creation.
pub fn plan_engine(
    optimization_level: i32,
    library_paths: &Vec<String>,
    enable_object_dump: bool,
) -> (commands: Vec<Command>)
    ensures
        commands.deep_view() == engine_plan(
            optimization_level,
            library_paths.deep_view(),
            enable_object_dump,
        ),
{
    let mut paths: Vec<String> = Vec::new();
    let mut i: usize = 0;
    while i < library_paths.len()
        invariant
            i <= library_paths.len(),
            paths@ =~= library_paths@.take(i as int),
        decreases library_paths.len() - i,
    {
        paths.push(library_paths[i].clone());
        i += 1;
    }
    assert(paths.deep_view() =~= library_paths.deep_view());
    let mut commands: Vec<Command> = Vec::new();
    commands.push(Command::CreateEngine { optimization_level, library_paths: paths, enable_object_dump });
    assert(commands.deep_view() =~= engine_plan(
        optimization_level,
        library_paths.deep_view(),
        enable_object_dump,
    ));
    commands
}

/// Writes the commands that release what stands.
pub fn plan_teardown(engine: bool, module: bool) -> (commands: Vec<Command>)
    ensures
        commands.deep_view() == teardown_plan(engine, module),
{
    let mut commands: Vec<Command> = Vec::new();
    if engine {
        commands.push(Command::DestroyEngine);
    }
    if module {
        commands.push(Command::DestroyModule);
    }
    commands.push(Command::DestroyContext);
    assert(commands.deep_view() =~= teardown_plan(engine, module));
    commands
}

} // verus!
