use tsmlir::command::{Action, Command, InvocationError, Outcome, PipelineError};
use tsmlir::ir::{Block, Entry, Module};
use tsmlir::pass::{Pass, Scope};
use tsmlir::reply::{accepts, classify, Awaiting, Reply};
use tsmlir::stage::Stage;
use tsmlir::MlirWrapper;

fn texts(items: &[&str]) -> Vec<String> {
    items.iter().map(|item| item.to_string()).collect()
}

fn done(commands: Vec<Command>) -> Action {
    Action { commands, outcome: Outcome::Done }
}

fn pending(commands: Vec<Command>) -> Action {
    Action { commands, outcome: Outcome::Pending }
}

fn failed(commands: Vec<Command>, error: PipelineError) -> Action {
    Action { commands, outcome: Outcome::Failed(error) }
}

fn engine(level: i32, paths: &[&str]) -> Command {
    Command::CreateEngine {
        optimization_level: level,
        library_paths: texts(paths),
        enable_object_dump: false,
    }
}

fn invoke(function: &str) -> Command {
    Command::Invoke { function: function.to_string() }
}

fn with_context() -> MlirWrapper {
    let mut wrapper = MlirWrapper::default();
    wrapper.create_context();
    wrapper
}

fn with_module() -> MlirWrapper {
    let mut wrapper = with_context();
    wrapper.create_module();
    wrapper
}

fn with_add() -> MlirWrapper {
    let mut wrapper = with_module();
    wrapper.create_function(
        "add",
        texts(&["memref<?xf32>", "memref<?xf32>"]),
        &texts(&[]),
        0,
        |_entry: &Block| Vec::new(),
    );
    assert_eq!(wrapper.resume(Reply::Completed), done(vec![]));
    wrapper
}

fn lowered() -> MlirWrapper {
    let mut wrapper = with_add();
    wrapper.lower_to_llvm();
    wrapper.resume(Reply::Completed);
    wrapper
}

fn with_engine() -> MlirWrapper {
    let mut wrapper = lowered();
    wrapper.create_engine(false);
    assert_eq!(wrapper.resume(Reply::Completed), done(vec![]));
    wrapper
}

#[test]
fn default_run_has_level_two_and_no_paths() {
    let wrapper = MlirWrapper::default();
    assert_eq!(wrapper.optimization_level, 2);
    assert!(wrapper.shared_library_paths.is_empty());
    assert_eq!(wrapper.context.stage, Stage::Uninitialized);
    assert_eq!(wrapper.context.awaiting, Awaiting::Nothing);
    assert!(wrapper.context.dialects.is_empty());
    assert!(wrapper.context.module.is_none());
    assert!(!wrapper.context.engine);
    assert!(!wrapper.context.live);
}

#[test]
fn new_run_keeps_its_settings() {
    let wrapper = MlirWrapper::new(3, texts(&["/usr/lib/libm.so"]));
    assert_eq!(wrapper.optimization_level, 3);
    assert_eq!(wrapper.shared_library_paths, texts(&["/usr/lib/libm.so"]));
    assert_eq!(wrapper.context.stage, Stage::Uninitialized);
}

#[test]
fn context_creation_loads_the_baseline_dialects() {
    let mut wrapper = MlirWrapper::default();
    let action = wrapper.create_context();
    assert_eq!(action.outcome, Outcome::Done);
    assert_eq!(action.commands.len(), 8);
    assert_eq!(action.commands[0], Command::CreateContext);
    assert_eq!(action.commands[7], Command::LoadDialect { name: "func".to_string() });
    assert_eq!(wrapper.context.stage, Stage::ContextReady);
    assert_eq!(wrapper.context.dialects, texts(&["arith", "memref", "func"]));
    assert!(wrapper.context.live);
    assert!(wrapper.context.module.is_none());
}

#[test]
fn dialect_is_loaded_once_and_stays_loaded() {
    let mut wrapper = with_context();
    let load = |name: &str| done(vec![Command::LoadDialect { name: name.to_string() }]);
    assert_eq!(wrapper.load_dialect("scf"), load("scf"));
    assert_eq!(wrapper.context.dialects, texts(&["arith", "memref", "func", "scf"]));
    assert_eq!(wrapper.load_dialect("memref"), load("memref"));
    assert_eq!(wrapper.load_dialect("scf"), load("scf"));
    assert_eq!(wrapper.context.dialects, texts(&["arith", "memref", "func", "scf"]));
    wrapper.create_module();
    wrapper.load_dialect("llvm");
    wrapper.lower_to_llvm();
    assert_eq!(wrapper.context.dialects, texts(&["arith", "memref", "func", "scf", "llvm"]));
    assert_eq!(wrapper.context.stage, Stage::ModuleBuilt);
}

#[test]
fn engine_with_an_object_dump() {
    let mut wrapper = lowered();
    assert_eq!(
        wrapper.create_engine(true),
        pending(vec![Command::CreateEngine {
            optimization_level: 2,
            library_paths: Vec::new(),
            enable_object_dump: true,
        }])
    );
    assert_eq!(wrapper.context.awaiting, Awaiting::Engine);
    assert_eq!(wrapper.context.entry, None);
}

#[test]
fn empty_module_is_created_at_once() {
    let mut wrapper = with_context();
    assert_eq!(wrapper.create_module(), done(vec![Command::CreateEmptyModule]));
    assert_eq!(wrapper.context.stage, Stage::ModuleBuilt);
    assert_eq!(wrapper.context.module, Some(Module::new()));
}

#[test]
fn parsed_module_waits_for_the_backend() {
    let mut wrapper = with_context();
    let action = wrapper.parse_module("module {}");
    assert_eq!(action, pending(vec![Command::ParseModule { text: "module {}".to_string() }]));
    assert_eq!(wrapper.context.stage, Stage::ContextReady);
    assert_eq!(wrapper.context.awaiting, Awaiting::Parse);
    assert_eq!(wrapper.resume(Reply::Parsed { operations: 2 }), done(vec![]));
    assert_eq!(wrapper.context.stage, Stage::ModuleBuilt);
    assert_eq!(wrapper.context.awaiting, Awaiting::Nothing);
    assert_eq!(wrapper.context.module, Some(Module::parsed(2)));
}

#[test]
fn malformed_module_text_is_a_parse_error() {
    let mut wrapper = with_context();
    wrapper.parse_module("module {");
    assert_eq!(wrapper.resume(Reply::Failed), failed(vec![], PipelineError::Parse));
    assert_eq!(wrapper.context.stage, Stage::Failed);
    assert!(wrapper.context.module.is_none());
    assert!(wrapper.context.live);
    assert_eq!(wrapper.destroy_context(), done(vec![Command::DestroyContext]));
    assert_eq!(wrapper.context.stage, Stage::Failed);
    assert!(!wrapper.context.live);
}

#[test]
fn function_of_two_arguments_and_no_result() {
    let mut wrapper = with_module();
    let action = wrapper.create_function(
        "add",
        texts(&["T1", "T2"]),
        &texts(&[]),
        0,
        |_entry: &Block| Vec::new(),
    );
    assert_eq!(action, pending(vec![Command::InsertOperation { index: 0 }]));
    assert_eq!(wrapper.context.awaiting, Awaiting::Insert);
    assert_eq!(wrapper.resume(Reply::Completed), done(vec![]));
    assert_eq!(wrapper.context.stage, Stage::ModuleBuilt);
    let module = wrapper.context.module.as_ref().unwrap();
    assert_eq!(module.operation_count(), 1);
    let Entry::Built(function) = &module.body[0] else { panic!("the function is built") };
    assert_eq!(function.regions.len(), 1);
    assert_eq!(function.regions[0].blocks.len(), 1);
    assert_eq!(function.regions[0].blocks[0].arguments, texts(&["T1", "T2"]));
    assert_eq!(function.attributes.len(), 2);
    assert_eq!(function.attributes[0].name, "function_type");
    assert_eq!(function.attributes[0].value, "(T1, T2) -> ()");
    assert_eq!(function.attributes[1].name, "sym_name");
    assert_eq!(function.attributes[1].value, "\"add\"");
}

#[test]
fn malformed_type_text_is_a_parse_error() {
    let mut wrapper = with_module();
    wrapper.create_function("f", texts(&["memref<"]), &texts(&[]), 0, |_entry: &Block| Vec::new());
    assert_eq!(wrapper.resume(Reply::Failed), failed(vec![], PipelineError::Parse));
    assert_eq!(wrapper.context.stage, Stage::Failed);
    assert_eq!(
        wrapper.destroy_context(),
        done(vec![Command::DestroyModule, Command::DestroyContext])
    );
}

#[test]
fn function_into_a_parsed_module() {
    let mut wrapper = with_context();
    wrapper.parse_module("module { func.func @f() { return } }");
    wrapper.resume(Reply::Parsed { operations: 1 });
    let action =
        wrapper.create_function("g", texts(&[]), &texts(&[]), 1, |_entry: &Block| Vec::new());
    assert_eq!(action, pending(vec![Command::InsertOperation { index: 1 }]));
    wrapper.resume(Reply::Completed);
    let module = wrapper.context.module.as_ref().unwrap();
    assert_eq!(module.operation_count(), 2);
    assert_eq!(module.body[0], Entry::Parsed);
    assert!(matches!(module.body[1], Entry::Built(_)));
}

#[test]
fn lowering_an_empty_module_with_no_passes_changes_nothing() {
    let mut wrapper = with_context();
    wrapper.create_module();
    let before = wrapper.context.module.as_ref().unwrap().operation_count();
    let action = wrapper.lower(Vec::new());
    assert_eq!(
        action,
        pending(vec![
            Command::LoadDialect { name: "llvm".to_string() },
            Command::CreatePassManager,
            Command::NestPassManager { anchor: "func.func".to_string() },
            Command::RunPassManager,
        ])
    );
    let action = wrapper.resume(Reply::Completed);
    assert_eq!(
        action,
        done(vec![Command::DestroyPassManager, Command::RegisterLlvmTranslations])
    );
    assert_eq!(wrapper.context.stage, Stage::Lowered);
    let module = wrapper.context.module.as_ref().unwrap();
    assert_eq!(module.operation_count(), before);
    assert_eq!(module.operation_count(), 0);
    assert_eq!(*module, Module::new());
}

#[test]
fn lowering_loads_the_target_dialect_once() {
    let mut wrapper = with_add();
    assert_eq!(wrapper.context.dialects, texts(&["arith", "memref", "func"]));
    wrapper.lower_to_llvm();
    assert_eq!(wrapper.context.dialects, texts(&["arith", "memref", "func", "llvm"]));
    assert_eq!(wrapper.context.awaiting, Awaiting::Lowering);
    assert_eq!(wrapper.context.stage, Stage::ModuleBuilt);
}

#[test]
fn lowering_records_the_passes_with_the_module() {
    let mut wrapper = with_add();
    wrapper.lower(vec![Pass::new("canonicalize", Scope::Function)]);
    wrapper.resume(Reply::Completed);
    let module = wrapper.context.module.as_ref().unwrap();
    assert_eq!(module.passes, vec![Pass::new("canonicalize", Scope::Function)]);
    assert_eq!(module.operation_count(), 1);
}

#[test]
fn minimal_pipeline_lowers_and_compiles() {
    let mut wrapper = with_add();
    let action = wrapper.lower_to_llvm();
    assert_eq!(action.outcome, Outcome::Pending);
    assert_eq!(
        action.commands[3..5],
        [
            Command::AddPass { scope: Scope::Module, name: "convert-func-to-llvm".to_string() },
            Command::AddPass { scope: Scope::Function, name: "convert-arith-to-llvm".to_string() },
        ]
    );
    assert_eq!(wrapper.resume(Reply::Completed).outcome, Outcome::Done);
    assert_eq!(wrapper.context.stage, Stage::Lowered);
    assert_eq!(wrapper.create_engine(false), pending(vec![engine(2, &[])]));
    assert_eq!(wrapper.resume(Reply::Completed), done(vec![]));
    assert_eq!(wrapper.context.stage, Stage::EngineReady);
    assert!(wrapper.context.engine);
}

#[test]
fn half_a_pipeline_fails_at_engine_creation_not_at_lowering() {
    let mut wrapper = with_add();
    let action = wrapper.lower(vec![Pass::new("convert-func-to-llvm", Scope::Module)]);
    assert_eq!(action.commands.len(), 5);
    assert_eq!(wrapper.resume(Reply::Completed).outcome, Outcome::Done);
    assert_eq!(wrapper.context.stage, Stage::Lowered);
    wrapper.create_engine(false);
    assert_eq!(wrapper.resume(Reply::Failed), failed(vec![], PipelineError::EngineCreation));
    assert_eq!(wrapper.context.stage, Stage::Failed);
    assert!(!wrapper.context.engine);
    assert!(wrapper.context.module.is_some());
    assert_eq!(
        wrapper.destroy_context(),
        done(vec![Command::DestroyModule, Command::DestroyContext])
    );
}

#[test]
fn failed_pipeline_is_a_lowering_error() {
    let mut wrapper = with_add();
    wrapper.lower_to_llvm();
    assert_eq!(
        wrapper.resume(Reply::Failed),
        failed(vec![Command::DestroyPassManager], PipelineError::Lowering)
    );
    assert_eq!(wrapper.context.stage, Stage::Failed);
    assert_eq!(wrapper.context.awaiting, Awaiting::Nothing);
}

#[test]
fn add_is_built_lowered_compiled_and_called() {
    let mut wrapper = MlirWrapper::default();
    assert_eq!(wrapper.create_context().outcome, Outcome::Done);
    assert_eq!(wrapper.create_module().outcome, Outcome::Done);
    let action = wrapper.create_function(
        "add",
        texts(&["memref<?xf32>", "memref<?xf32>"]),
        &texts(&[]),
        0,
        |_entry: &Block| Vec::new(),
    );
    assert_eq!(action, pending(vec![Command::InsertOperation { index: 0 }]));
    assert_eq!(wrapper.resume(Reply::Completed), done(vec![]));
    {
        let module = wrapper.context.module.as_ref().unwrap();
        let Entry::Built(function) = &module.body[0] else { panic!("the function is built") };
        assert_eq!(function.attributes[0].value, "(memref<?xf32>, memref<?xf32>) -> ()");
        assert_eq!(function.attributes[1].value, "\"add\"");
        assert!(function.regions[0].blocks[0].operations.is_empty());
    }
    assert_eq!(wrapper.lower_to_llvm().outcome, Outcome::Pending);
    assert_eq!(wrapper.resume(Reply::Completed).outcome, Outcome::Done);
    assert_eq!(wrapper.execute("add"), pending(vec![engine(2, &[])]));
    assert_eq!(wrapper.context.entry, Some("add".to_string()));
    assert_eq!(wrapper.resume(Reply::Completed), pending(vec![invoke("add")]));
    assert_eq!(wrapper.context.stage, Stage::EngineReady);
    assert_eq!(
        wrapper.resume(Reply::Completed),
        done(vec![Command::DestroyEngine, Command::DestroyModule])
    );
    assert_eq!(wrapper.context.stage, Stage::Invoked);
    assert!(!wrapper.context.engine);
    assert!(wrapper.context.module.is_none());
    assert_eq!(wrapper.context.entry, None);
    assert_eq!(wrapper.destroy_context(), done(vec![Command::DestroyContext]));
    assert_eq!(wrapper.context.stage, Stage::TornDown);
    assert!(!wrapper.context.live);
    assert!(wrapper.context.dialects.is_empty());
}

#[test]
fn execute_hands_the_settings_to_the_engine() {
    let mut wrapper = MlirWrapper::new(0, texts(&["/lib/runner.so", "/lib/c.so"]));
    wrapper.create_context();
    wrapper.create_module();
    wrapper.lower_to_llvm();
    wrapper.resume(Reply::Completed);
    assert_eq!(
        wrapper.execute("main"),
        pending(vec![engine(0, &["/lib/runner.so", "/lib/c.so"])])
    );
}

#[test]
fn execute_without_an_engine_is_an_engine_creation_error() {
    let mut wrapper = lowered();
    wrapper.execute("add");
    assert_eq!(wrapper.resume(Reply::Failed), failed(vec![], PipelineError::EngineCreation));
    assert_eq!(wrapper.context.stage, Stage::Failed);
    assert_eq!(wrapper.context.entry, None);
}

#[test]
fn unknown_function_is_a_symbol_not_found() {
    let mut wrapper = lowered();
    wrapper.execute("sub");
    assert_eq!(wrapper.resume(Reply::Completed), pending(vec![invoke("sub")]));
    assert_eq!(
        wrapper.resume(Reply::Failed),
        failed(vec![], PipelineError::Invocation(InvocationError::SymbolNotFound))
    );
    assert_eq!(wrapper.context.stage, Stage::Failed);
    assert!(wrapper.context.engine);
    assert!(wrapper.context.module.is_some());
    assert_eq!(
        wrapper.destroy_context(),
        done(vec![Command::DestroyEngine, Command::DestroyModule, Command::DestroyContext])
    );
    assert!(!wrapper.context.engine);
    assert!(wrapper.context.module.is_none());
    assert!(!wrapper.context.live);
}

#[test]
fn trapped_call_is_an_invocation_trap() {
    let mut wrapper = with_engine();
    wrapper.invoke("add");
    assert_eq!(
        wrapper.resume(Reply::Trapped),
        failed(vec![], PipelineError::Invocation(InvocationError::Trap))
    );
    assert_eq!(wrapper.context.stage, Stage::Failed);
}

#[test]
fn engine_can_be_called_again_and_again() {
    let mut wrapper = with_engine();
    assert_eq!(wrapper.invoke("add"), pending(vec![invoke("add")]));
    assert_eq!(wrapper.context.awaiting, Awaiting::Invocation);
    assert_eq!(wrapper.resume(Reply::Completed), done(vec![]));
    assert_eq!(wrapper.context.stage, Stage::Invoked);
    assert_eq!(wrapper.invoke("add"), pending(vec![invoke("add")]));
    assert_eq!(wrapper.resume(Reply::Completed), done(vec![]));
    assert_eq!(wrapper.context.stage, Stage::Invoked);
    assert!(wrapper.context.engine);
    assert!(wrapper.context.module.is_some());
}

#[test]
fn engine_is_released_before_its_module() {
    let mut wrapper = with_engine();
    assert_eq!(wrapper.destroy_engine(), done(vec![Command::DestroyEngine]));
    assert!(!wrapper.context.engine);
    assert!(wrapper.context.module.is_some());
    assert_eq!(wrapper.context.stage, Stage::EngineReady);
    assert_eq!(
        wrapper.destroy_context(),
        done(vec![Command::DestroyModule, Command::DestroyContext])
    );
    assert_eq!(wrapper.context.stage, Stage::TornDown);
}

#[test]
fn context_is_released_last_from_every_stage() {
    let runs: Vec<MlirWrapper> =
        vec![with_context(), with_module(), with_add(), lowered(), with_engine()];
    for mut wrapper in runs {
        let engine = wrapper.context.engine;
        let module = wrapper.context.module.is_some();
        let action = wrapper.destroy_context();
        assert_eq!(action.outcome, Outcome::Done);
        assert_eq!(action.commands.last(), Some(&Command::DestroyContext));
        let releases =
            action.commands.iter().filter(|c| **c == Command::DestroyContext).count();
        assert_eq!(releases, 1);
        assert_eq!(action.commands.contains(&Command::DestroyEngine), engine);
        assert_eq!(action.commands.contains(&Command::DestroyModule), module);
        assert_eq!(wrapper.context.stage, Stage::TornDown);
        assert!(!wrapper.context.live);
        assert!(wrapper.context.module.is_none());
        assert!(!wrapper.context.engine);
    }
}

#[test]
fn replies_are_read_by_what_is_due() {
    assert_eq!(classify(Awaiting::Parse, Reply::Failed), Some(PipelineError::Parse));
    assert_eq!(classify(Awaiting::Insert, Reply::Failed), Some(PipelineError::Parse));
    assert_eq!(classify(Awaiting::Lowering, Reply::Failed), Some(PipelineError::Lowering));
    assert_eq!(classify(Awaiting::Engine, Reply::Failed), Some(PipelineError::EngineCreation));
    assert_eq!(
        classify(Awaiting::Invocation, Reply::Failed),
        Some(PipelineError::Invocation(InvocationError::SymbolNotFound))
    );
    assert_eq!(
        classify(Awaiting::Invocation, Reply::Trapped),
        Some(PipelineError::Invocation(InvocationError::Trap))
    );
    assert_eq!(classify(Awaiting::Parse, Reply::Parsed { operations: 0 }), None);
    assert_eq!(classify(Awaiting::Lowering, Reply::Completed), None);
    assert_eq!(classify(Awaiting::Engine, Reply::Completed), None);
    assert_eq!(classify(Awaiting::Invocation, Reply::Completed), None);
}

#[test]
fn only_fitting_replies_are_accepted() {
    let replies =
        [Reply::Completed, Reply::Parsed { operations: 1 }, Reply::Failed, Reply::Trapped];
    let fitting = |awaiting: Awaiting| -> Vec<bool> {
        replies.iter().map(|reply| accepts(awaiting, *reply)).collect()
    };
    assert_eq!(fitting(Awaiting::Nothing), vec![false, false, false, false]);
    assert_eq!(fitting(Awaiting::Parse), vec![false, true, true, false]);
    assert_eq!(fitting(Awaiting::Insert), vec![true, false, true, false]);
    assert_eq!(fitting(Awaiting::Lowering), vec![true, false, true, false]);
    assert_eq!(fitting(Awaiting::Engine), vec![true, false, true, false]);
    assert_eq!(fitting(Awaiting::Invocation), vec![true, false, true, true]);
}
