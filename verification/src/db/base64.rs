//! The base64 engine that row conversion uses for binary values.
use vstd::prelude::*;
use crate::encoding::{base64_encode, base64_of};

verus! {

/// The standard base64 engine (standard alphabet, with padding).
#[derive(Debug, Clone, Copy)]
pub struct Standard;

/// The standard engine.
pub const STANDARD: Standard = Standard;

impl Standard {
    /// The base64 text of bytes.
    pub fn encode(&self, data: &[u8]) -> (r: String)
        ensures
            r@ == base64_of(data@),
    {
        base64_encode(data)
    }
}

} // verus!
