//! Script-backed template helpers: a bridge from JSON host values into rhai
//! values, a per-call scope builder, and the invocation protocol that turns a
//! script's result back into a JSON value.

pub mod model;
pub mod bridge;
pub mod invoke;
pub mod helper;
