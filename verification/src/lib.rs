//! A declarative-UI configuration layer: a markup document declares a
//! widget tree whose attributes are not static values but textual
//! expressions, evaluated at build time against host-bound variables.
//!
//! The heart of the crate is the typed scripting bridge in [`engine`]: it
//! compiles expression text into a reusable parsed form, injects host
//! values of many types into one mutable evaluation context as read-only
//! bindings, and coerces each dynamically-typed evaluation result into a
//! statically-known target type, one conversion rule per type. The
//! document and widget shapes the expressions decorate are in [`config`]
//! and [`widget`]; reading documents from disk and constructing native
//! widgets are host concerns outside this crate.

pub mod config;
pub mod engine;
pub mod widget;
