//! Enter/leave transitions for one element of a declarative component tree.
//!
//! The library holds the decisions: whether a rendered slot holds content,
//! which CSS classes an operation sets, which operation is authoritative and
//! what is rendered meanwhile. The host framework runs the awaits and touches
//! the document.

pub mod classes;
pub mod controller;
pub mod presence;
