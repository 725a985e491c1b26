//! What the library hands to the host that drives the backend: commands,
//! and with them the outcome of the request they belong to.

use crate::pass::Scope;
use vstd::prelude::*;

verus! {

/// One call that the host makes on the backend.
#[derive(Debug, PartialEq, Eq)]
pub enum Command {
    /// Create the context of the run.
    CreateContext,
    /// Create an empty dialect registry.
    CreateRegistry,
    /// Enter every available dialect into the registry.
    RegisterAllDialects,
    /// Merge the registry into the context.
    AppendRegistry,
    /// Discard the registry.
    DestroyRegistry,
    /// Load the dialect `name` into the context, unless it is loaded.
    LoadDialect { name: String },
    /// Parse `text` into the module of the run. Fallible.
    ParseModule { text: String },
    /// Create the module of the run with an empty body, at an unknown location.
    CreateEmptyModule,
    /// Build the operation that the module's model holds at `index` and
    /// insert it there into the body. Fallible: a type or attribute text may
    /// be malformed.
    InsertOperation { index: usize },
    /// Create a pass manager on the context.
    CreatePassManager,
    /// Open the pipeline nested under operations of kind `anchor`.
    NestPassManager { anchor: String },
    /// Append the pass `name` to the pipeline at level `scope`.
    AddPass { scope: Scope, name: String },
    /// Run the pass manager once over the module's root operation. Fallible:
    /// the run fails where a pass fails or was not to be had.
    RunPassManager,
    /// Discard the pass manager.
    DestroyPassManager,
    /// Register the translations from the native dialect to native code.
    RegisterLlvmTranslations,
    /// Compile the module into an execution engine. Fallible.
    CreateEngine { optimization_level: i32, library_paths: Vec<String>, enable_object_dump: bool },
    /// Call the compiled function `function` with the host's packed
    /// arguments. Fallible.
    Invoke { function: String },
    /// Release the engine and its compiled code.
    DestroyEngine,
    /// Release the module.
    DestroyModule,
    /// Release the context and everything interned in it.
    DestroyContext,
}

/// A command as contracts speak of it: texts as sequences of characters.
pub enum CommandView {
    CreateContext,
    CreateRegistry,
    RegisterAllDialects,
    AppendRegistry,
    DestroyRegistry,
    LoadDialect { name: Seq<char> },
    ParseModule { text: Seq<char> },
    CreateEmptyModule,
    InsertOperation { index: usize },
    CreatePassManager,
    NestPassManager { anchor: Seq<char> },
    AddPass { scope: Scope, name: Seq<char> },
    RunPassManager,
    DestroyPassManager,
    RegisterLlvmTranslations,
    CreateEngine { optimization_level: i32, library_paths: Seq<Seq<char>>, enable_object_dump: bool },
    Invoke { function: Seq<char> },
    DestroyEngine,
    DestroyModule,
    DestroyContext,
}

impl DeepView for Command {
    type V = CommandView;

    open spec fn deep_view(&self) -> CommandView {
        match *self {
            Command::CreateContext => CommandView::CreateContext,
            Command::CreateRegistry => CommandView::CreateRegistry,
            Command::RegisterAllDialects => CommandView::RegisterAllDialects,
            Command::AppendRegistry => CommandView::AppendRegistry,
            Command::DestroyRegistry => CommandView::DestroyRegistry,
            Command::LoadDialect { name } => CommandView::LoadDialect { name: name@ },
            Command::ParseModule { text } => CommandView::ParseModule { text: text@ },
            Command::CreateEmptyModule => CommandView::CreateEmptyModule,
            Command::InsertOperation { index } => CommandView::InsertOperation { index },
            Command::CreatePassManager => CommandView::CreatePassManager,
            Command::NestPassManager { anchor } => CommandView::NestPassManager { anchor: anchor@ },
            Command::AddPass { scope, name } => CommandView::AddPass { scope, name: name@ },
            Command::RunPassManager => CommandView::RunPassManager,
            Command::DestroyPassManager => CommandView::DestroyPassManager,
            Command::RegisterLlvmTranslations => CommandView::RegisterLlvmTranslations,
            Command::CreateEngine {
                optimization_level,
                library_paths,
                enable_object_dump,
            } => CommandView::CreateEngine {
                optimization_level,
                library_paths: library_paths.deep_view(),
                enable_object_dump,
            },
            Command::Invoke { function } => CommandView::Invoke { function: function@ },
            Command::DestroyEngine => CommandView::DestroyEngine,
            Command::DestroyModule => CommandView::DestroyModule,
            Command::DestroyContext => CommandView::DestroyContext,
        }
    }
}

impl CommandView {
    /// The commands that can fail without ending the process: the backend
    /// answers them with a null handle or a failure status. Every other
    /// command either succeeds or aborts.
    pub open spec fn fallible(self) -> bool {
        self is ParseModule || self is InsertOperation || self is RunPassManager
            || self is CreateEngine || self is Invoke
    }
}

/// Why an invocation did not complete.
#[derive(Clone, Copy, Debug, PartialEq, Eq, Structural)]
pub enum InvocationError {
    /// The module has no compiled function of the name asked for.
    SymbolNotFound,
    /// The call raised a native fault.
    Trap,
}

/// Why a run has failed.
#[derive(Clone, Copy, Debug, PartialEq, Eq, Structural)]
pub enum PipelineError {
    /// A module, type or attribute text was malformed.
    Parse,
    /// The pass pipeline failed.
    Lowering,
    /// The module could not be compiled.
    EngineCreation,
    /// The entry function could not be called, or did not return.
    Invocation(InvocationError),
}

/// How a request stands once its commands are performed.
#[derive(Clone, Copy, Debug, PartialEq, Eq, Structural)]
pub enum Outcome {
    /// The last command is fallible: the host reports how it went, and the
    /// library goes on from there.
    Pending,
    /// The request is done.
    Done,
    /// The request has failed, and the run with it.
    Failed(PipelineError),
}

/// The library's answer to a request or a reply: the commands to perform
/// now, in order, and how the request stands after them.
#[derive(Debug, PartialEq, Eq)]
pub struct Action {
    pub commands: Vec<Command>,
    pub outcome: Outcome,
}

} // verus!
