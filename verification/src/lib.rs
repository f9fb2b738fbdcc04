//! Taint propagation over the control-flow graph of one function body.
//!
//! The library tracks which local variables may hold a value that came from a
//! source call, and reports each call of a sink that receives such a value.
//! A fixed-point engine drives it: the engine owns one [`TaintState`] per
//! program point, merges states with [`TaintState::join`] where control flow
//! meets, and hands each statement and terminator to a [`TaintAnalysis`].
//!
//! [`TaintState`]: taint_domain::TaintState
//! [`TaintState::join`]: taint_domain::TaintState::join
//! [`TaintAnalysis`]: analysis::TaintAnalysis
pub mod analysis;
pub mod attr_info;
pub mod effects;
pub mod errors;
pub mod laws;
pub mod mir;
pub mod taint_domain;
pub mod transfer;
