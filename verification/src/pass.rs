//! Named transformations and the level of the pass manager they run at.

use vstd::prelude::*;
use vstd::string::*;

verus! {

/// The level a pass is appended to: the module-level pipeline, or the
/// pipeline nested under function operations.
#[derive(Clone, Copy, Debug, PartialEq, Eq, Structural)]
pub enum Scope {
    Module,
    Function,
}

/// A transformation known by name, to be run at one level.
#[derive(Debug, PartialEq, Eq)]
pub struct Pass {
    pub name: String,
    pub scope: Scope,
}

/// A pass as contracts speak of it.
pub struct PassView {
    pub name: Seq<char>,
    pub scope: Scope,
}

impl DeepView for Pass {
    type V = PassView;

    open spec fn deep_view(&self) -> PassView {
        PassView { name: self.name@, scope: self.scope }
    }
}

impl Clone for Pass {
    fn clone(&self) -> (copy: Pass)
        ensures
            copy == *self,
    {
        Pass { name: self.name.clone(), scope: self.scope }
    }
}

/// The operation kind whose bodies the function-level pipeline runs on.
pub open spec fn function_anchor() -> Seq<char> {
    "func.func"@
}

/// The name of the pass that converts the function dialect to the native
/// calling-convention dialect.
pub open spec fn func_to_llvm() -> Seq<char> {
    "convert-func-to-llvm"@
}

/// The name of the pass that converts arithmetic operations to the native
/// dialect.
pub open spec fn arith_to_llvm() -> Seq<char> {
    "convert-arith-to-llvm"@
}

/// The least pipeline that takes functions over arithmetic to native form:
/// the function conversion at module level, then the arithmetic conversion
/// within function bodies.
pub open spec fn minimal_pipeline_spec() -> Seq<PassView> {
    seq![
        PassView { name: func_to_llvm(), scope: Scope::Module },
        PassView { name: arith_to_llvm(), scope: Scope::Function },
    ]
}

impl Pass {
    /// The pass called `name`, to run at `scope`.
    pub fn new(name: &str, scope: Scope) -> (pass: Pass)
        ensures
            pass.deep_view() == (PassView { name: name@, scope }),
    {
        Pass { name: String::from_str(name), scope }
    }
}

/// Builds the least pipeline for the function-to-native path.
pub fn minimal_pipeline() -> (passes: Vec<Pass>)
    ensures
        passes.deep_view() == minimal_pipeline_spec(),
{
    let mut passes: Vec<Pass> = Vec::new();
    passes.push(Pass::new("convert-func-to-llvm", Scope::Module));
    passes.push(Pass::new("convert-arith-to-llvm", Scope::Function));
    assert(passes.deep_view() =~= minimal_pipeline_spec());
    passes
}

} // verus!
