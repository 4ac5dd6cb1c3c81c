//! Containers that hold either a reference to a value or the value itself, so
//! that the code which builds one decides about ownership and the code which
//! uses one need not know.
//!
//! Currently only the `ref_or_owned` module provides containers; `eval` and
//! `samples` hold small generic helpers and sample payloads that put them to
//! work.

pub mod eval;
pub mod ref_or_owned;
pub mod samples;
