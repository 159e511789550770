//! The JSON processor stub: accepts any input and produces no output yet.

use vstd::prelude::*;

verus! {

use crate::processors::{Processor, ProcessorType};

#[derive(Copy, Clone)]
pub struct Json;

impl Json {
    pub fn new() -> (r: Json)
        ensures
            r == (Json {  }),
    {
        Json {  }
    }
}

impl Processor for Json {
    /// Produces no output for any input.
    fn process(&self, input: &[u8]) -> (r: Vec<u8>)
        ensures
            r@ == Seq::<u8>::empty(),
    {
        Vec::new()
    }

    fn get_type(&self) -> (r: ProcessorType)
        ensures
            r == ProcessorType::JSON,
    {
        ProcessorType::JSON
    }
}

} // verus!
