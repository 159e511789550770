//! Payload processors selected by kind.

pub mod js_engine;
pub mod json;

use vstd::prelude::*;

verus! {

#[derive(Debug, Eq, PartialEq, Hash)]
pub enum ProcessorType {
    JSON,
}

/// A payload processor: maps raw input bytes to output bytes.
pub trait Processor {
    fn process(&self, input: &[u8]) -> (r: Vec<u8>);

    fn get_type(&self) -> (r: ProcessorType);
}

/// The processor registered for the given kind.
pub fn get_processor(processor_type: ProcessorType) -> (r: impl Processor)
{
    match processor_type {
        ProcessorType::JSON => json::Json::new(),
    }
}

} // verus!
