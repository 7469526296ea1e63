//! Declarations of the script runtime's types and the trusted calls into it.
//!
//! Everything the library asks of the embedded ECMAScript runtime goes
//! through this module: each function here wraps exactly one runtime
//! operation, and its contract states no more than the runtime's own
//! source shows.

use vstd::prelude::*;

use boa_engine::property::PropertyDescriptorBuilder;
use boa_engine::{Context, JsError, JsString, JsValue, Script, Source};

verus! {

#[verifier::external_type_specification]
#[verifier::external_body]
pub struct ExContext(Context);

#[verifier::external_type_specification]
#[verifier::external_body]
pub struct ExScript(Script);

#[verifier::external_type_specification]
#[verifier::external_body]
pub struct ExJsValue(JsValue);

#[verifier::external_type_specification]
#[verifier::external_body]
pub struct ExJsError(JsError);

#[verifier::external_type_specification]
#[verifier::external_body]
pub struct ExJsonValue(serde_json::Value);

/// Whether a piece of source text is syntactically valid ECMAScript script
/// code in the runtime parser's default (non-strict) mode: the pure syntax
/// phase, which is deterministic and a function of the text alone.
///
/// Compilation success is not: parsing also registers the text's top-level
/// lexical declarations in the context and rejects a redeclaration, so the
/// trusted contract below claims only that compiled text is valid, never
/// that valid text compiles.
pub uninterp spec fn js_syntax_ok(source: Seq<char>) -> bool;

/// Relies on boa_engine::Context::default: builds a fresh evaluation
/// context with the default host hooks and its own global object.
#[verifier::external_body]
pub(crate) fn fresh_context() -> Context {
    Context::default()
}

/// Relies on boa_engine::Script::parse: it compiles the text without
/// running any of it, or returns a diagnostic. A returned script means
/// the text passed the parser's syntax phase, so only that direction is
/// stated; the converse is not true of the runtime, whose parse step also
/// records the text's top-level lexical declarations in the context's
/// scope and fails on a name already declared there by an earlier
/// compilation.
#[verifier::external_body]
pub(crate) fn parse_script(context: &mut Context, source: &str) -> (r: Result<
    Script,
    JsError,
>)
    ensures
        r is Ok ==> js_syntax_ok(source@),
{
    Script::parse(Source::from_bytes(source), None, context)
}

/// Relies on boa_engine::Script::evaluate: runs the compiled script to
/// completion against the given context and hands back its completion
/// value, or the error value it raised. Scripted code may mutate the
/// context's global state, so nothing is promised of the outcome.
#[verifier::external_body]
pub(crate) fn evaluate_script(context: &mut Context, script: &Script) -> Result<
    JsValue,
    JsError,
> {
    script.evaluate(context)
}

/// Relies on boa_engine::JsValue::to_u32, the runtime's standard ToUint32
/// conversion: the value is converted to a number (non-finite numbers to
/// zero, fractions truncated toward zero) and reduced modulo 2^32. It
/// fails only when the value's own numeric conversion hook raises.
#[verifier::external_body]
pub(crate) fn to_u32_value(context: &mut Context, value: &JsValue) -> Result<
    u32,
    JsError,
> {
    value.to_u32(context)
}

/// Relies on boa_engine::JsValue::to_boolean, the runtime's ToBoolean
/// conversion: false, zero, NaN, empty strings, null and undefined are
/// falsy, every other value truthy. It cannot fail.
#[verifier::external_body]
pub(crate) fn to_boolean_value(value: &JsValue) -> bool {
    value.to_boolean()
}

/// Relies on boa_engine::JsValue::to_numeric_number, the runtime's
/// ToNumber conversion with big integers widened: the resulting
/// double-precision number is handed back as its raw IEEE 754 bit
/// pattern, so that the caller decides how to narrow it.
#[verifier::external_body]
pub(crate) fn to_number_bits(context: &mut Context, value: &JsValue) -> Result<
    u64,
    JsError,
> {
    match value.to_numeric_number(context) {
        Ok(n) => Ok(n.to_bits()),
        Err(error) => Err(error),
    }
}

/// Relies on boa_engine's JsObject::define_property_or_throw, applied to
/// the context's global object: the value is installed under the key as a
/// data property carrying exactly the given writable, enumerable and
/// configurable attributes, and the call fails exactly where the runtime
/// rejects the definition (for instance over an existing non-configurable
/// property of the same name).
#[verifier::external_body]
pub(crate) fn define_global(
    context: &mut Context,
    key: &str,
    value: &JsValue,
    writable: bool,
    enumerable: bool,
    configurable: bool,
) -> Result<(), JsError> {
    let key = JsString::from(key);
    let prop = PropertyDescriptorBuilder::new()
        .value(value.clone())
        .writable(writable)
        .enumerable(enumerable)
        .configurable(configurable)
        .build();
    let global_object = context.global_object();
    match global_object.define_property_or_throw(key, prop, context) {
        Ok(_) => Ok(()),
        Err(error) => Err(error),
    }
}

/// Relies on boa_engine::JsValue::from for booleans.
#[verifier::external_body]
pub(crate) fn js_from_bool(value: bool) -> JsValue {
    JsValue::from(value)
}

/// Relies on boa_engine::JsValue::from for characters: the character
/// becomes a one-character string value.
#[verifier::external_body]
pub(crate) fn js_from_char(value: char) -> JsValue {
    JsValue::from(value)
}

/// Relies on boa_engine::JsValue::from for unsigned 8-bit integers.
#[verifier::external_body]
pub(crate) fn js_from_u8(value: u8) -> JsValue {
    JsValue::from(value)
}

/// Relies on boa_engine::JsValue::from for signed 8-bit integers.
#[verifier::external_body]
pub(crate) fn js_from_i8(value: i8) -> JsValue {
    JsValue::from(value)
}

/// Relies on boa_engine::JsValue::from for unsigned 16-bit integers.
#[verifier::external_body]
pub(crate) fn js_from_u16(value: u16) -> JsValue {
    JsValue::from(value)
}

/// Relies on boa_engine::JsValue::from for signed 16-bit integers.
#[verifier::external_body]
pub(crate) fn js_from_i16(value: i16) -> JsValue {
    JsValue::from(value)
}

/// Relies on boa_engine::JsValue::from for unsigned 32-bit integers.
#[verifier::external_body]
pub(crate) fn js_from_u32(value: u32) -> JsValue {
    JsValue::from(value)
}

/// Relies on boa_engine::JsValue::from for signed 32-bit integers.
#[verifier::external_body]
pub(crate) fn js_from_i32(value: i32) -> JsValue {
    JsValue::from(value)
}

/// Relies on boa_engine::JsValue::from for unsigned 64-bit integers: a
/// value outside the small-integer range is stored as a double-precision
/// number, which loses precision above 2^53.
#[verifier::external_body]
pub(crate) fn js_from_u64(value: u64) -> JsValue {
    JsValue::from(value)
}

/// Relies on boa_engine::JsValue::from for signed 64-bit integers: a
/// value outside the small-integer range is stored as a double-precision
/// number, which loses precision beyond magnitude 2^53.
#[verifier::external_body]
pub(crate) fn js_from_i64(value: i64) -> JsValue {
    JsValue::from(value)
}

/// Relies on boa_engine::JsValue::from_json: the structured value is
/// converted member by member into the runtime's native representation,
/// arrays in element order and maps in their own iteration order (sorted
/// keys with the default map implementation).
#[verifier::external_body]
pub(crate) fn js_from_json(context: &mut Context, value: &serde_json::Value) -> Result<
    JsValue,
    JsError,
> {
    JsValue::from_json(value, context)
}

} // verus!
