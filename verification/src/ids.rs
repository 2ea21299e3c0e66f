use vstd::prelude::*;

verus! {

/// Produces trace and span identifiers from a per-thread random source.
///
/// A trace identifier is sixteen bytes, but only the low-order eight bytes
/// carry randomness: the high-order eight bytes are always zero, for
/// compatibility with back ends that only store 64-bit trace identifiers.
/// A span identifier is eight random bytes. Neither identifier carries any
/// further structure, and no global uniqueness is guaranteed.
pub struct IdGenerator64;

/// Relies on rand::random: draws eight bytes from the thread-local
/// generator. Nothing can be promised of a random value.
#[verifier::external_body]
fn random_bytes() -> (r: [u8; 8]) {
    rand::random()
}

impl IdGenerator64 {
    pub fn new() -> (r: Self) {
        IdGenerator64
    }

    /// A fresh sixteen-byte trace identifier whose high-order eight bytes
    /// are zero; the low-order eight bytes come from the thread-local
    /// random source.
    pub fn new_trace_id(&self) -> (r: [u8; 16])
        ensures
            forall|i: int| 0 <= i < 8 ==> r@[i] == 0,
    {
        let low = random_bytes();
        let r: [u8; 16] = [
            0,
            0,
            0,
            0,
            0,
            0,
            0,
            0,
            low[0],
            low[1],
            low[2],
            low[3],
            low[4],
            low[5],
            low[6],
            low[7],
        ];
        r
    }

    /// A fresh eight-byte span identifier from the thread-local random
    /// source.
    pub fn new_span_id(&self) -> [u8; 8] {
        random_bytes()
    }
}

} // verus!
