//! The textual form of a scripting expression and its compiled form.

use vstd::prelude::*;

use boa_engine::Script;

verus! {

/// The raw source text of a scripting expression, before compilation.
#[derive(Debug, Clone)]
pub struct Expr {
    pub js_code: String,
}

/// The compiled form of an expression. It is only meaningful against the
/// evaluation context it was compiled from, which the engine enforces by
/// owning that context and every compiled script made from it.
#[derive(Debug)]
pub struct ParsedExpr {
    pub script: Script,
}

impl Expr {
    /// Wraps expression source text; no validation happens here.
    pub fn new(js_code: String) -> (r: Self)
        ensures
            r.js_code@ == js_code@,
    {
        Self { js_code }
    }
}

impl ParsedExpr {
    /// Wraps a compiled script.
    pub fn new(script: Script) -> (r: Self)
        ensures
            r.script == script,
    {
        Self { script }
    }
}

} // verus!
