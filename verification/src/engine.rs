//! The typed scripting bridge: one engine owns one evaluation context,
//! compiles expressions against it, injects read-only variable bindings,
//! and coerces evaluation results into the host's static types.

use vstd::prelude::*;

use boa_engine::Context;

pub mod coerce;
pub mod error;
pub mod expression;
pub mod runtime;
pub mod variable;

pub use self::error::EngineError;
pub use self::expression::{Expr, ParsedExpr};
pub use self::runtime::js_syntax_ok;
pub use self::variable::StoreVariable;

verus! {

pub(crate) type Json = serde_json::Value;

/// The façade over one evaluation context. Every expression compiled by an
/// engine, and every variable bound through it, lives in that context; the
/// context is destroyed with the engine.
#[derive(Debug)]
pub struct Engine {
    pub(crate) context: Context,
}

impl Engine {
    /// Allocates an engine with a fresh, empty evaluation context.
    pub fn new() -> Self {
        Engine { context: runtime::fresh_context() }
    }

    /// Compiles the expression against this engine's context; nothing is
    /// executed either way. Syntactically invalid text always fails, with
    /// the diagnostic preserved. Valid text usually succeeds, but parsing
    /// may observe context-scoped declarations: the runtime registers a
    /// compiled expression's top-level lexical declarations in the
    /// context, and rejects text that redeclares one.
    pub fn parse(&mut self, expr: &Expr) -> (r: Result<ParsedExpr, EngineError>)
        ensures
            r is Ok ==> js_syntax_ok(expr.js_code@),
            r is Err ==> r->Err_0 is JsError,
    {
        match runtime::parse_script(&mut self.context, expr.js_code.as_str()) {
            Ok(script) => Ok(ParsedExpr::new(script)),
            Err(error) => Err(EngineError::from(error)),
        }
    }

    /// Evaluates the expression, then reads its result by the runtime's
    /// truthiness rule: false, zero, NaN, empty strings, null and
    /// undefined give false, everything else true. Fails only when the
    /// evaluation itself raises.
    pub fn eval_bool(&mut self, expr: &ParsedExpr) -> (r: Result<bool, EngineError>)
        ensures
            r is Err ==> r->Err_0 is JsError,
    {
        match runtime::evaluate_script(&mut self.context, &expr.script) {
            Ok(value) => Ok(runtime::to_boolean_value(&value)),
            Err(error) => Err(EngineError::JsError(error)),
        }
    }

    /// Evaluates the expression and reduces its numeric result modulo
    /// 2^32. Every narrower integer target type is a further verified
    /// reduction of this value (see [`coerce`]).
    fn eval_reduced(&mut self, expr: &ParsedExpr) -> (r: Result<u32, EngineError>)
        ensures
            r is Err ==> r->Err_0 is JsError,
    {
        match runtime::evaluate_script(&mut self.context, &expr.script) {
            Ok(value) => match runtime::to_u32_value(&mut self.context, &value) {
                Ok(reduced) => Ok(reduced),
                Err(error) => Err(EngineError::from(error)),
            },
            Err(error) => Err(EngineError::JsError(error)),
        }
    }

    /// Evaluates the expression and coerces the result to an unsigned
    /// 8-bit integer: the numeric value, truncated toward zero, modulo
    /// 2^8.
    pub fn eval_u8(&mut self, expr: &ParsedExpr) -> (r: Result<u8, EngineError>)
        ensures
            r is Err ==> r->Err_0 is JsError,
    {
        match self.eval_reduced(expr) {
            Ok(reduced) => Ok(coerce::coerce_u8(reduced)),
            Err(error) => Err(error),
        }
    }

    /// Evaluates the expression and coerces the result to a signed 8-bit
    /// integer: the unsigned 8-bit reduction, read as two's complement.
    pub fn eval_i8(&mut self, expr: &ParsedExpr) -> (r: Result<i8, EngineError>)
        ensures
            r is Err ==> r->Err_0 is JsError,
    {
        match self.eval_reduced(expr) {
            Ok(reduced) => Ok(coerce::coerce_i8(reduced)),
            Err(error) => Err(error),
        }
    }

    /// Evaluates the expression and coerces the result to an unsigned
    /// 16-bit integer: the numeric value, truncated toward zero, modulo
    /// 2^16.
    pub fn eval_u16(&mut self, expr: &ParsedExpr) -> (r: Result<u16, EngineError>)
        ensures
            r is Err ==> r->Err_0 is JsError,
    {
        match self.eval_reduced(expr) {
            Ok(reduced) => Ok(coerce::coerce_u16(reduced)),
            Err(error) => Err(error),
        }
    }

    /// Evaluates the expression and coerces the result to a signed 16-bit
    /// integer: the unsigned 16-bit reduction, read as two's complement.
    pub fn eval_i16(&mut self, expr: &ParsedExpr) -> (r: Result<i16, EngineError>)
        ensures
            r is Err ==> r->Err_0 is JsError,
    {
        match self.eval_reduced(expr) {
            Ok(reduced) => Ok(coerce::coerce_i16(reduced)),
            Err(error) => Err(error),
        }
    }

    /// Evaluates the expression and coerces the result to an unsigned
    /// 32-bit integer: the numeric value, truncated toward zero, modulo
    /// 2^32.
    pub fn eval_u32(&mut self, expr: &ParsedExpr) -> (r: Result<u32, EngineError>)
        ensures
            r is Err ==> r->Err_0 is JsError,
    {
        match self.eval_reduced(expr) {
            Ok(reduced) => Ok(coerce::coerce_u32(reduced)),
            Err(error) => Err(error),
        }
    }

    /// Evaluates the expression and coerces the result to a signed 32-bit
    /// integer: the unsigned 32-bit reduction, read as two's complement.
    pub fn eval_i32(&mut self, expr: &ParsedExpr) -> (r: Result<i32, EngineError>)
        ensures
            r is Err ==> r->Err_0 is JsError,
    {
        match self.eval_reduced(expr) {
            Ok(reduced) => Ok(coerce::coerce_i32(reduced)),
            Err(error) => Err(error),
        }
    }

    /// Evaluates the expression and converts the result with the
    /// runtime's standard numeric conversion, returning the
    /// double-precision value as its raw IEEE 754 bit pattern. Hosts that
    /// want a floating-point number reassemble it from these bits; the
    /// library itself only carries them.
    pub fn eval_number_bits(&mut self, expr: &ParsedExpr) -> (r: Result<u64, EngineError>)
        ensures
            r is Err ==> r->Err_0 is JsError,
    {
        match runtime::evaluate_script(&mut self.context, &expr.script) {
            Ok(value) => match runtime::to_number_bits(&mut self.context, &value) {
                Ok(bits) => Ok(bits),
                Err(error) => Err(EngineError::from(error)),
            },
            Err(error) => Err(EngineError::JsError(error)),
        }
    }
}

} // verus!
