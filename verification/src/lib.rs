//! Rust bindings to Binaryen's `wasm-opt` and `wasm-ctor-eval`: the pass
//! names, the wasm features, and the steps of a ctor evaluation, each with
//! what it states proved by Verus.

pub mod api;
pub mod base;
pub mod ctor_eval;
pub mod features;
pub mod passes;
pub mod run;

pub use crate::api::{FeatureBaseline, Features, FileType, ReaderOptions, WriterOptions};
pub use crate::ctor_eval::{CtorEvalError, CtorEvalOptions};
pub use crate::features::Feature;
pub use crate::passes::Pass;
