//! What the simulated sensor node publishes.

use vstd::prelude::*;
use vstd::string::StrSliceExecFns;
use vstd::utf8::encode_utf8;

verus! {

/// A payload on its way from the sensor node to the broker.
#[derive(Debug)]
pub struct Message {
    pub payload: Vec<u8>,
}

impl Message {
    /// The UTF-8 bytes of `payload`.
    pub fn _payload_from_str_slice(payload: &str) -> (r: Message)
        ensures
            r.payload@ == encode_utf8(payload@),
    {
        Message { payload: payload.as_bytes_vec() }
    }
}

} // verus!
