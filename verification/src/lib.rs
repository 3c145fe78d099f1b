//! A library of composable, verified predicates over a model of compiled
//! intermediate-representation (IR) modules.
//!
//! Matcher trees are built by constructor functions at query-compile time and
//! evaluated against single IR nodes at query-run time.  Every matcher is a
//! pure function of the node it inspects; the exact boolean it computes is
//! stated as a specification on each `is_match` function.

pub mod functions;
pub mod ir;
pub mod laws;
pub mod matchers;
