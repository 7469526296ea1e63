//! The engine's error taxonomy.

use vstd::prelude::*;

use boa_engine::JsError;
use std::string::FromUtf16Error;

verus! {

#[verifier::external_type_specification]
#[verifier::external_body]
pub struct ExFromUtf16Error(FromUtf16Error);

/// Every failure the engine can return: a script-level fault (a syntax
/// error from compilation or a runtime error from evaluation), or a
/// text-decoding failure, each with the underlying diagnostic preserved.
#[derive(Debug)]
pub enum EngineError {
    JsError(JsError),
    FromUtf16Error(FromUtf16Error),
}

impl From<JsError> for EngineError {
    fn from(error: JsError) -> Self {
        Self::JsError(error)
    }
}

impl vstd::std_specs::convert::FromSpecImpl<JsError> for EngineError {
    open spec fn obeys_from_spec() -> bool {
        true
    }

    open spec fn from_spec(t: JsError) -> Self {
        EngineError::JsError(t)
    }
}

impl From<FromUtf16Error> for EngineError {
    fn from(error: FromUtf16Error) -> Self {
        Self::FromUtf16Error(error)
    }
}

impl vstd::std_specs::convert::FromSpecImpl<FromUtf16Error> for EngineError {
    open spec fn obeys_from_spec() -> bool {
        true
    }

    open spec fn from_spec(t: FromUtf16Error) -> Self {
        EngineError::FromUtf16Error(t)
    }
}

} // verus!
