//! Declarative command-line builders.
//!
//! A command wrapper is described once, as data: a schema listing the
//! program's fields, each with an attribute block that says whether the
//! field is a bare flag, a valued option, or a positional argument.  The
//! schema parser resolves defaults and collects every per-field error;
//! a well-formed schema then drives a [`builder::Builder`], which
//! accumulates argument tokens in call order and finally hands them off
//! as a [`builder::ProcessInvocationHandle`] for an external
//! process-execution facility to consume.

pub mod builder;
pub mod make;
pub mod schema;
pub mod text;
