//! Field-by-field merging of record types.
//!
//! A record declaration is described with plain values ([`decl`]), each
//! field is given a merge rule ([`plan`]), the rules are rendered as the
//! source text of a `merge` method ([`render`]), and [`value`] gives that
//! method's meaning on a reflective model of record instances, whose laws
//! are proved in [`laws`].

pub mod decl;
pub mod plan;
pub mod render;
pub mod value;
pub mod laws;
