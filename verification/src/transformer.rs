//! Transform definitions and the failure taxonomy of the pipeline.

pub mod js;
pub mod task;

use vstd::prelude::*;

verus! {

use vstd::utf8::valid_utf8;
use crate::transformer::js::JsTransformer;

/// A failed transform, by cause.
///
/// A `Definition` failure means the transform script itself could not be
/// loaded or validated: it is fatal for the worker being created. The other
/// two describe a single record and never outlive it: `InvalidInput` when
/// the payload is not valid UTF-8 text, `Transform` when the script raised
/// an error or produced a value that does not serialize to text.
#[derive(Debug)]
pub enum TransformError {
    Definition(String),
    InvalidInput(String),
    Transform(String),
}

impl TransformError {
    pub open spec fn spec_message(&self) -> Seq<char> {
        match self {
            TransformError::Definition(m) => m@,
            TransformError::InvalidInput(m) => m@,
            TransformError::Transform(m) => m@,
        }
    }

    /// The human-readable description carried by the failure.
    pub fn message(&self) -> (r: &String)
        ensures
            r@ == self.spec_message(),
    {
        match self {
            TransformError::Definition(m) => m,
            TransformError::InvalidInput(m) => m,
            TransformError::Transform(m) => m,
        }
    }
}

/// True when the outcome reports a payload that was not valid input text:
/// not valid UTF-8, or not valid structured data.
pub open spec fn invalid_input_err<T>(r: Result<T, TransformError>) -> bool {
    r matches Err(e) && e is InvalidInput
}

/// True when the outcome reports a transform definition failure.
pub open spec fn definition_err<T>(r: Result<T, TransformError>) -> bool {
    r matches Err(e) && e is Definition
}

#[derive(Debug, Eq, PartialEq, Hash, Clone)]
pub enum TransformerType {
    JSON,
}

/// Which transform to instantiate, and its script source text. Shared
/// read-only across partitions; cloned once per worker at creation.
#[derive(Debug, Eq, PartialEq, Hash, Clone)]
pub struct TransformerConfig {
    pub transformer_type: TransformerType,
    pub script: String,
}

/// One user-supplied transform: maps a payload to a payload or fails.
///
/// A payload that is not valid UTF-8 always fails as `InvalidInput`; a
/// `Definition` failure can never come out of a transform that was
/// successfully created; and a successful result is always valid UTF-8
/// text.
pub trait Transformer {
    fn transform(&mut self, payload: &[u8]) -> (r: Result<Vec<u8>, TransformError>)
        ensures
            !valid_utf8(payload@) ==> invalid_input_err(r),
            !definition_err(r),
            r matches Ok(bytes) ==> valid_utf8(bytes@),
    ;
}

/// Instantiates the transform that `config` names, with its script loaded
/// into a fresh engine; every failure is a `Definition` failure.
pub fn get_transformer(config: TransformerConfig) -> (r: Result<JsTransformer, TransformError>)
    ensures
        r matches Err(e) ==> e is Definition,
{
    match config.transformer_type {
        TransformerType::JSON => JsTransformer::new(config.script.as_str()),
    }
}

} // verus!
