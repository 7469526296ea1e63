//! Variable binding: injecting host values into the context's global
//! namespace as read-only, enumerable, reconfigurable properties.

use vstd::prelude::*;

use boa_engine::JsValue;

use super::error::EngineError;
use super::runtime;
use super::{Engine, Json};

verus! {

/// The capability of binding a host value of some type under a name in an
/// engine's global namespace. Each supported host type first converts its
/// value into the runtime's native representation, then installs it as a
/// non-writable, enumerable, reconfigurable property; a later bind under
/// the same key replaces the earlier one, and already-compiled expressions
/// read the new value on their next evaluation.
pub trait StoreVariable<T> {
    #[must_use]
    fn set_variable(&mut self, key: &str, value: T) -> (r: Result<(), EngineError>)
        ensures
            r is Err ==> r->Err_0 is JsError,
    ;
}

impl StoreVariable<JsValue> for Engine {
    fn set_variable(&mut self, key: &str, value: JsValue) -> Result<(), EngineError> {
        // The binding rule: not writable by scripted code, enumerable,
        // and configurable so that a later bind may replace it.
        match runtime::define_global(&mut self.context, key, &value, false, true, true) {
            Ok(()) => Ok(()),
            Err(error) => Err(EngineError::from(error)),
        }
    }
}

impl StoreVariable<Json> for Engine {
    fn set_variable(&mut self, key: &str, value: Json) -> Result<(), EngineError> {
        match runtime::js_from_json(&mut self.context, &value) {
            Ok(value) => StoreVariable::<JsValue>::set_variable(self, key, value),
            Err(error) => Err(EngineError::from(error)),
        }
    }
}

impl StoreVariable<char> for Engine {
    fn set_variable(&mut self, key: &str, value: char) -> Result<(), EngineError> {
        StoreVariable::<JsValue>::set_variable(self, key, runtime::js_from_char(value))
    }
}

impl StoreVariable<bool> for Engine {
    fn set_variable(&mut self, key: &str, value: bool) -> Result<(), EngineError> {
        StoreVariable::<JsValue>::set_variable(self, key, runtime::js_from_bool(value))
    }
}

impl StoreVariable<u8> for Engine {
    fn set_variable(&mut self, key: &str, value: u8) -> Result<(), EngineError> {
        StoreVariable::<JsValue>::set_variable(self, key, runtime::js_from_u8(value))
    }
}

impl StoreVariable<i8> for Engine {
    fn set_variable(&mut self, key: &str, value: i8) -> Result<(), EngineError> {
        StoreVariable::<JsValue>::set_variable(self, key, runtime::js_from_i8(value))
    }
}

impl StoreVariable<u16> for Engine {
    fn set_variable(&mut self, key: &str, value: u16) -> Result<(), EngineError> {
        StoreVariable::<JsValue>::set_variable(self, key, runtime::js_from_u16(value))
    }
}

impl StoreVariable<i16> for Engine {
    fn set_variable(&mut self, key: &str, value: i16) -> Result<(), EngineError> {
        StoreVariable::<JsValue>::set_variable(self, key, runtime::js_from_i16(value))
    }
}

impl StoreVariable<u32> for Engine {
    fn set_variable(&mut self, key: &str, value: u32) -> Result<(), EngineError> {
        StoreVariable::<JsValue>::set_variable(self, key, runtime::js_from_u32(value))
    }
}

impl StoreVariable<i32> for Engine {
    fn set_variable(&mut self, key: &str, value: i32) -> Result<(), EngineError> {
        StoreVariable::<JsValue>::set_variable(self, key, runtime::js_from_i32(value))
    }
}

impl StoreVariable<u64> for Engine {
    fn set_variable(&mut self, key: &str, value: u64) -> Result<(), EngineError> {
        StoreVariable::<JsValue>::set_variable(self, key, runtime::js_from_u64(value))
    }
}

impl StoreVariable<i64> for Engine {
    fn set_variable(&mut self, key: &str, value: i64) -> Result<(), EngineError> {
        StoreVariable::<JsValue>::set_variable(self, key, runtime::js_from_i64(value))
    }
}

} // verus!
