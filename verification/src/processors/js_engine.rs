//! One-shot script execution: a fresh engine context per call.

use vstd::prelude::*;

verus! {

use vstd::string::StringExecFns;
use vstd::utf8::valid_utf8;
use crate::engine::{
    bytes_as_str, context_default, eval_script, set_global_str, value_as_string, value_debug,
};

/// Runs `js` once in a fresh context with the global `input` bound to the
/// payload text, and returns the string the script evaluated to. Fails
/// whenever the payload is not valid UTF-8, the script raises, or the
/// script's result is not a string.
pub fn run(js: &str, payload: &[u8]) -> (r: Result<String, String>)
    ensures
        !valid_utf8(payload@) ==> r is Err,
{
    let input_data = match bytes_as_str(payload) {
        Some(s) => s,
        None => {
            return Err(String::from_str("input string is not valid UTF-8"));
        }
    };

    let mut context = context_default();
    match set_global_str(&mut context, "input", input_data) {
        Ok(_) => {}
        Err(message) => {
            return Err(message);
        }
    }

    let result = match eval_script(&mut context, js) {
        Ok(value) => value,
        Err(message) => {
            return Err(message);
        }
    };

    match value_as_string(&result) {
        Some(s) => Ok(s),
        None => {
            let mut message = String::from_str("JS script must return string, but returned: ");
            message.append(value_debug(&result).as_str());
            Err(message)
        }
    }
}

} // verus!
