//! A tree-walking interpreter for a small dynamically-typed scripting
//! language: runtime values with aliasable mutable cells, a flat variable
//! environment, a function registry, and an evaluator that gives every
//! statement and expression its operational semantics.
//!
//! The meaning of every construct is written down once, as a deterministic
//! fuel-bounded interpreter over mathematical state
//! (`frontend::semantics`), and the executable evaluator (`frontend`)
//! is proved to produce exactly that state and outcome. The laws the
//! semantics obeys — truthiness, short-circuiting, assignment visibility,
//! single registration, the call protocol's failures, the floored sign
//! convention — are stated and proved in `laws`.

pub mod ast;
pub mod err_handle;
pub mod frontend;
pub mod laws;
