//! Structural comparison of the public interface of two revisions of a
//! source tree: the symbol model, the diff engine, the projection of a diff
//! for rendering, and the decision logic of the extraction pipeline.

pub mod branch;
pub mod branch_laws;
pub mod diff;
pub mod diff_laws;
pub mod error;
pub mod join;
pub mod projection;
pub mod reference;
pub mod run;
pub mod run_laws;
pub mod symbol;
pub mod text;
pub mod tokens;
pub mod working_copy;
