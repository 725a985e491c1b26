//! Verified orchestration of a just-in-time pipeline over an MLIR backend.
//!
//! A run builds a module, lowers it through a pass pipeline, compiles it
//! and calls a function of it. The library decides what the backend is
//! asked to do, in which order, and what each of its answers means for the
//! run; it never touches the backend itself. A host does: every request
//! on [`MlirWrapper`] answers with an [`command::Action`], whose commands
//! the host performs in order through the backend's C interface. Where the
//! action is pending, its last command can fail, and the host hands the
//! backend's answer to [`MlirWrapper::resume`], which says how the run
//! goes on.

pub mod command;
pub mod context;
pub mod ir;
pub mod laws;
pub mod pass;
pub mod plan;
pub mod reply;
pub mod stage;
pub mod text;
pub mod wrapper;

pub use text::mlir_str;
pub use wrapper::MlirWrapper;
