//! Trusted boundary to the embedded JavaScript engine and to UTF-8 decoding.
//!
//! Everything the pipeline asks of the script engine goes through the small
//! wrappers in this module. A script's outcome depends on the engine's
//! internal state as well as on the source text (scripts may keep module
//! level state between calls), so the wrappers promise nothing about the
//! values that come back; the callers state what holds of every outcome.

use vstd::prelude::*;

verus! {

use vstd::string::StringSliceAdditionalSpecFns;

#[verifier::external_type_specification]
#[verifier::external_body]
pub struct ExContext(boa_engine::Context);

#[verifier::external_type_specification]
#[verifier::external_body]
pub struct ExJsValue(boa_engine::JsValue);

/// Relies on std::str::from_utf8: it returns Ok exactly when the input is
/// valid UTF-8, and the returned str is a view of those same bytes.
#[verifier::external_body]
pub(crate) fn bytes_as_str(payload: &[u8]) -> (r: Option<&str>)
    ensures
        r matches Some(s) ==> s.spec_bytes() == payload@,
        r is Some <==> vstd::utf8::valid_utf8(payload@),
{
    std::str::from_utf8(payload).ok()
}

/// Relies on boa_engine::Context::default: a fresh, empty script execution
/// context.
#[verifier::external_body]
pub(crate) fn context_default() -> boa_engine::Context {
    boa_engine::Context::default()
}

/// Relies on boa_engine::Context::eval: parses and runs a script inside the
/// context; the outcome depends on the script and on the context's state.
#[verifier::external_body]
pub(crate) fn eval_script(
    context: &mut boa_engine::Context,
    source: &str,
) -> Result<boa_engine::JsValue, String> {
    context
        .eval(boa_engine::Source::from_bytes(source))
        .map_err(|err| err.to_string())
}

/// Relies on boa_engine::object::JsObject::set, reached through
/// Context::global_object: binds a global variable of the context to a
/// string value, creating or overwriting it.
#[verifier::external_body]
pub(crate) fn set_global_str(
    context: &mut boa_engine::Context,
    name: &str,
    value: &str,
) -> Result<(), String> {
    let global = context.global_object();
    global
        .set(
            boa_engine::string::JsString::from(name),
            boa_engine::JsValue::from(boa_engine::string::JsString::from(value)),
            false,
            context,
        )
        .map(|_| ())
        .map_err(|err| err.to_string())
}

/// Relies on boa_engine::JsValue::as_string and JsString::to_std_string_escaped:
/// the string form of a script result, when the result is a string.
#[verifier::external_body]
pub(crate) fn value_as_string(value: &boa_engine::JsValue) -> Option<String> {
    value.as_string().map(|s| s.to_std_string_escaped())
}

/// Relies on boa_engine::JsValue::as_boolean: the boolean form of a script
/// result, when the result is a boolean.
#[verifier::external_body]
pub(crate) fn value_as_boolean(value: &boa_engine::JsValue) -> Option<bool> {
    value.as_boolean()
}

/// Relies on boa_engine::JsValue's Debug form, used only to describe a
/// non-string script result in a failure message.
#[verifier::external_body]
pub(crate) fn value_debug(value: &boa_engine::JsValue) -> String {
    format!("{:?}", value)
}

} // verus!
