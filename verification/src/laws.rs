//! What holds of every run, proved from the definitions that the contracts
//! of the requests use.

use crate::command::{CommandView, InvocationError, PipelineError};
use crate::context::Context;
use crate::ir::{comma_separated, function_type_spec, Module};
use crate::pass::{function_anchor, PassView};
use crate::plan::{
    add_pass, engine_plan, lowered_plan, lowering_plan, startup_plan, target_dialect, teardown_plan,
};
use crate::stage::Transition;
use crate::reply::{fits, verdict, Awaiting, Reply};
use crate::wrapper::MlirWrapper;
use vstd::prelude::*;

verus! {

/// An engine never stands without its module, and neither stands once the
/// context is gone.
pub proof fn lemma_nothing_outlives_context(context: Context)
    requires
        context.wf(),
    ensures
        context.engine ==> context.module is Some,
        context.module is Some ==> context.live,
        !context.live ==> context.module is None && !context.engine,
{
}

/// The teardown releases the context once, as its last command; it
/// releases the engine and the module exactly where they stand, and the
/// engine before the module.
pub proof fn lemma_context_released_last(engine: bool, module: bool)
    ensures
        teardown_plan(engine, module).last() == CommandView::DestroyContext,
        forall|i: int|
            0 <= i < teardown_plan(engine, module).len() - 1 ==> !(teardown_plan(
                engine,
                module,
            )[i] is DestroyContext),
        teardown_plan(engine, module).contains(CommandView::DestroyEngine) <==> engine,
        teardown_plan(engine, module).contains(CommandView::DestroyModule) <==> module,
        engine && module ==> teardown_plan(engine, module) == seq![
            CommandView::DestroyEngine,
            CommandView::DestroyModule,
            CommandView::DestroyContext,
        ],
{
    let plan = teardown_plan(engine, module);
    if engine {
        assert(plan[0] == CommandView::DestroyEngine);
    }
    if module {
        assert(plan[plan.len() - 2] == CommandView::DestroyModule);
    }
    if engine && module {
        assert(plan =~= seq![
            CommandView::DestroyEngine,
            CommandView::DestroyModule,
            CommandView::DestroyContext,
        ]);
    }
}

/// Nothing but the teardown releases the context: no other procedure of a
/// run, and no answer to a reply, holds that command.
pub proof fn lemma_context_outlives_requests(
    run: MlirWrapper,
    reply: Reply,
    passes: Seq<PassView>,
    succeeded: bool,
    dump: bool,
)
    ensures
        !startup_plan().contains(CommandView::DestroyContext),
        !lowering_plan(passes).contains(CommandView::DestroyContext),
        !lowered_plan(succeeded).contains(CommandView::DestroyContext),
        !engine_plan(run.optimization_level, run.shared_library_paths.deep_view(), dump).contains(
            CommandView::DestroyContext,
        ),
        !run.follow_up(reply).contains(CommandView::DestroyContext),
{
}

/// Where an answer to a reply releases the module, it releases the engine
/// in the same breath and before it.
pub proof fn lemma_engine_released_with_module(run: MlirWrapper, reply: Reply)
    requires
        run.follow_up(reply).contains(CommandView::DestroyModule),
    ensures
        run.follow_up(reply) == seq![CommandView::DestroyEngine, CommandView::DestroyModule],
        !run.succeeded().context.engine,
        run.succeeded().context.module is None,
{
}

/// The failure of the awaited command keeps the invariant, ends the run as
/// failed, and leaves standing what stood, for the teardown to release.
pub proof fn lemma_failure_ends_run(run: MlirWrapper)
    requires
        run.wf(),
        !run.idle(),
    ensures
        run.failed().wf(),
        Some(run.failed().context.stage) == run.context.stage.after(Transition::Fail),
        run.failed().idle(),
        run.failed().context.module == run.context.module,
        run.failed().context.engine == run.context.engine,
        run.failed().context.live == run.context.live,
{
}

/// The success of the awaited command keeps the invariant, with any well
/// formed module in place of the one that a parse brings, and moves the
/// stage as the order of a run says: by the move that belongs to the
/// command, or not at all for an insertion.
pub proof fn lemma_success_moves_forward(run: MlirWrapper, parsed: Module)
    requires
        run.wf(),
        !run.idle(),
        parsed.wf(),
    ensures
        !(run.context.awaiting is Parse) ==> run.succeeded().wf(),
        run.context.awaiting is Parse ==> (MlirWrapper {
            context: Context { module: Some(parsed), ..run.succeeded().context },
            ..run
        }).wf(),
        match run.context.awaiting.transition() {
            Some(transition) => Some(run.succeeded().context.stage) == run.context.stage.after(
                transition,
            ),
            None => run.succeeded().context.stage == run.context.stage,
        },
{
}

/// No reply unloads a dialect: what was loaded before the awaited command
/// is loaded after it, however it went.
pub proof fn lemma_dialects_stay_loaded(run: MlirWrapper)
    ensures
        run.failed().context.loaded() == run.context.loaded(),
        run.succeeded().context.loaded() == run.context.loaded(),
{
}

/// A failure status in answer to an invocation means that the engine has
/// no function of that name. It is reported as such, and nothing else is.
pub proof fn lemma_missing_symbol(awaiting: Awaiting, reply: Reply)
    requires
        fits(awaiting, reply),
    ensures
        verdict(awaiting, reply) == Some(PipelineError::Invocation(InvocationError::SymbolNotFound))
            <==> awaiting is Invocation && reply is Failed,
{
}

/// An error names the command that failed: what fails while the pipeline
/// runs is a lowering error, what fails while the engine is made is an
/// engine creation error, and neither is ever taken for the other. A reply
/// of success is no error.
pub proof fn lemma_error_names_its_command(awaiting: Awaiting, reply: Reply)
    requires
        fits(awaiting, reply),
    ensures
        verdict(awaiting, reply) is None <==> reply is Completed || reply is Parsed,
        verdict(awaiting, reply) == Some(PipelineError::Lowering) <==> awaiting is Lowering
            && reply is Failed,
        verdict(awaiting, reply) == Some(PipelineError::EngineCreation) <==> awaiting is Engine
            && reply is Failed,
        verdict(awaiting, reply) == Some(PipelineError::Parse) <==> (awaiting is Parse
            || awaiting is Insert) && reply is Failed,
        verdict(awaiting, reply) == Some(PipelineError::Invocation(InvocationError::Trap))
            <==> reply is Trapped,
{
}

/// A reply is asked for the last command only, and for none but a
/// fallible one: lowering ends in the one run of the pipeline, and nothing
/// before it can fail; the engine is asked for alone; the call that an
/// `execute` holds is asked for alone; and no command of context creation,
/// of what follows the pipeline, or of the teardown can fail.
pub proof fn lemma_replies_answer_the_last_command(
    run: MlirWrapper,
    passes: Seq<PassView>,
    succeeded: bool,
    dump: bool,
    engine: bool,
    module: bool,
)
    ensures
        lowering_plan(passes).last().fallible(),
        forall|i: int|
            0 <= i < lowering_plan(passes).len() - 1 ==> !(#[trigger] lowering_plan(
                passes,
            )[i]).fallible(),
        engine_plan(run.optimization_level, run.shared_library_paths.deep_view(), dump).len() == 1,
        engine_plan(run.optimization_level, run.shared_library_paths.deep_view(), dump)[0].fallible(),
        run.succeeded().context.awaiting is Invocation ==> run.follow_up(Reply::Completed).len()
            == 1 && run.follow_up(Reply::Completed)[0].fallible(),
        forall|i: int| 0 <= i < startup_plan().len() ==> !(#[trigger] startup_plan()[i]).fallible(),
        forall|i: int|
            0 <= i < lowered_plan(succeeded).len() ==> !(#[trigger] lowered_plan(
                succeeded,
            )[i]).fallible(),
        forall|i: int|
            0 <= i < teardown_plan(engine, module).len() ==> !(#[trigger] teardown_plan(
                engine,
                module,
            )[i]).fallible(),
{
    lemma_lowering_order(passes);
    let plan = lowering_plan(passes);
    assert forall|i: int| 0 <= i < plan.len() - 1 implies !(#[trigger] plan[i]).fallible() by {
        if 3 <= i {
            assert(plan[3 + (i - 3)] == add_pass(passes[i - 3]));
        }
    }
}

/// Lowering loads the target dialect before it builds the pass manager,
/// appends the passes in the order given, and runs the pipeline once, as
/// its last command.
pub proof fn lemma_lowering_order(passes: Seq<PassView>)
    ensures
        lowering_plan(passes).len() == passes.len() + 4,
        lowering_plan(passes)[0] == (CommandView::LoadDialect { name: target_dialect() }),
        lowering_plan(passes)[1] == CommandView::CreatePassManager,
        lowering_plan(passes)[2] == (CommandView::NestPassManager { anchor: function_anchor() }),
        forall|i: int|
            0 <= i < passes.len() ==> lowering_plan(passes)[3 + i] == add_pass(#[trigger] passes[i]),
        lowering_plan(passes).last() == CommandView::RunPassManager,
        forall|i: int|
            0 <= i < lowering_plan(passes).len() - 1 ==> !(lowering_plan(
                passes,
            )[i] is RunPassManager),
{
    let plan = lowering_plan(passes);
    let added = passes.map_values(|pass: PassView| add_pass(pass));
    assert forall|i: int| 0 <= i < passes.len() implies plan[3 + i] == add_pass(
        #[trigger] passes[i],
    ) by {
        assert(plan[3 + i] == added[i]);
    }
    assert forall|i: int| 0 <= i < plan.len() - 1 implies !(plan[i] is RunPassManager) by {
        if 3 <= i {
            assert(plan[3 + (i - 3)] == add_pass(passes[i - 3]));
        }
    }
}

/// Lowering with no passes is a no-op: no pass is appended, and the
/// success of the run leaves the module as it was.
pub proof fn lemma_lowering_without_passes(run: MlirWrapper)
    requires
        run.context.awaiting is Lowering,
    ensures
        lowering_plan(Seq::empty()) == seq![
            CommandView::LoadDialect { name: target_dialect() },
            CommandView::CreatePassManager,
            CommandView::NestPassManager { anchor: function_anchor() },
            CommandView::RunPassManager,
        ],
        run.succeeded().context.module == run.context.module,
        verdict(Awaiting::Lowering, Reply::Completed) is None,
{
    assert(lowering_plan(Seq::empty()) =~= seq![
        CommandView::LoadDialect { name: target_dialect() },
        CommandView::CreatePassManager,
        CommandView::NestPassManager { anchor: function_anchor() },
        CommandView::RunPassManager,
    ]);
}

/// The type of a function of two arguments and no result reads
/// `(first, second) -> ()`.
pub proof fn lemma_binary_function_type(first: Seq<char>, second: Seq<char>)
    ensures
        function_type_spec(seq![first, second], Seq::empty()) == "("@ + first + ", "@ + second
            + ") -> ()"@,
{
    let arguments = seq![first, second];
    reveal_with_fuel(comma_separated, 3);
    assert(arguments.drop_last() =~= seq![first]);
    assert(comma_separated(arguments) =~= first + ", "@ + second);
    reveal_strlit(") -> (");
    reveal_strlit(")");
    reveal_strlit(") -> ()");
    assert(") -> ("@ + Seq::<char>::empty() + ")"@ =~= ") -> ()"@);
    assert(function_type_spec(arguments, Seq::empty()) =~= "("@ + first + ", "@ + second
        + ") -> ()"@);
}

} // verus!
