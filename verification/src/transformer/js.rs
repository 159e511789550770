//! The script-based transform: one embedded JavaScript engine per worker,
//! created once and invoked once per record.

use vstd::prelude::*;

verus! {

use vstd::slice::slice_to_vec;
use vstd::string::StringExecFns;
use vstd::utf8::valid_utf8;
use crate::engine::{
    bytes_as_str, context_default, eval_script, set_global_str, value_as_boolean,
    value_as_string, value_debug,
};
use crate::transformer::{definition_err, invalid_input_err, TransformError, Transformer};

/// The decode step evaluated once per record: parses the payload text
/// handed over in the global `input`. Run on its own so that a payload
/// that is not valid structured data is told apart from a failing
/// transform.
fn parse_step() -> &'static str {
    "var loaded_object = JSON.parse(input);"
}

/// The transform step evaluated once per record: applies the user's entry
/// point to the decoded payload and re-serializes the result.
fn transform_step() -> &'static str {
    "var result = transform(loaded_object);\nJSON.stringify(result);"
}

/// Checks that the script defined an entry point named `transform` taking
/// exactly one argument.
fn entry_point_check() -> &'static str {
    "typeof transform === \"function\" && transform.length === 1"
}

/// A transform backed by one script engine context. The context persists
/// across calls, so state a script keeps at module level survives from one
/// record of the partition to the next.
pub struct JsTransformer {
    context: boa_engine::Context,
}

impl JsTransformer {
    /// Loads the script into a fresh context and validates its entry point.
    /// Every failure is a `Definition` failure: the script did not parse,
    /// did not evaluate, or does not define `transform` with one parameter.
    pub fn new(js_transform_function: &str) -> (r: Result<Self, TransformError>)
        ensures
            r matches Err(e) ==> e is Definition,
    {
        let mut context = context_default();
        match eval_script(&mut context, js_transform_function) {
            Ok(_) => {}
            Err(message) => {
                return Err(TransformError::Definition(message));
            }
        }
        let has_entry_point = match eval_script(&mut context, entry_point_check()) {
            Ok(value) => match value_as_boolean(&value) {
                Some(b) => b,
                None => false,
            },
            Err(message) => {
                return Err(TransformError::Definition(message));
            }
        };
        if !has_entry_point {
            return Err(TransformError::Definition(String::from_str(
                "script does not define a one-argument function named transform",
            )));
        }
        Ok(JsTransformer { context })
    }

    /// Applies the transform to one payload. A payload that is not valid
    /// UTF-8, or not valid structured data, is an `InvalidInput` failure;
    /// an error raised inside the transform itself, or a result that does
    /// not serialize, surfaces as a `Transform` failure. Either way the
    /// engine stays usable for the next record.
    pub fn run(&mut self, payload: &[u8]) -> (r: Result<String, TransformError>)
        ensures
            !valid_utf8(payload@) ==> invalid_input_err(r),
            !definition_err(r),
    {
        let input_data = match bytes_as_str(payload) {
            Some(s) => s,
            None => {
                return Err(TransformError::InvalidInput(String::from_str(
                    "input string is not valid UTF-8",
                )));
            }
        };
        match set_global_str(&mut self.context, "input", input_data) {
            Ok(_) => {}
            Err(message) => {
                return Err(TransformError::Transform(message));
            }
        }
        match eval_script(&mut self.context, parse_step()) {
            Ok(_) => {}
            Err(message) => {
                return Err(TransformError::InvalidInput(message));
            }
        }
        let result = match eval_script(&mut self.context, transform_step()) {
            Ok(value) => value,
            Err(message) => {
                return Err(TransformError::Transform(message));
            }
        };
        match value_as_string(&result) {
            Some(s) => Ok(s),
            None => {
                let mut message = String::from_str("unexpected result from the script engine: ");
                message.append(value_debug(&result).as_str());
                Err(TransformError::Transform(message))
            }
        }
    }
}

impl Transformer for JsTransformer {
    fn transform(&mut self, payload: &[u8]) -> (r: Result<Vec<u8>, TransformError>)
        ensures
            !valid_utf8(payload@) ==> invalid_input_err(r),
            !definition_err(r),
            r matches Ok(bytes) ==> valid_utf8(bytes@),
    {
        proof {
            broadcast use vstd::utf8::encode_utf8_valid_utf8;
        }
        match self.run(payload) {
            Ok(result) => Ok(slice_to_vec(result.as_str().as_bytes())),
            Err(e) => Err(e),
        }
    }
}

} // verus!
