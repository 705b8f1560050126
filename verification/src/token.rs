//! The correlation token: an opaque identifier of at most eight bytes
//! attached to a request and expected to reappear in its matching
//! response.
//!
//! A token is engine-issued at session initialization and re-rolled after
//! every send, strictly before the next send, so no two consecutive
//! requests carry the same token.

use vstd::prelude::*;

verus! {

/// 256 to the given power.
spec fn pow256(e: nat) -> int
    decreases e,
{
    if e == 0 {
        1
    } else {
        256 * pow256((e - 1) as nat)
    }
}

/// The number an octet sequence denotes, least significant byte first.
pub open spec fn spec_bytes_value(s: Seq<u8>) -> int
    decreases s.len(),
{
    if s.len() == 0 {
        0
    } else {
        s[0] + 256 * spec_bytes_value(s.skip(1))
    }
}

proof fn lemma_bytes_value_bound(s: Seq<u8>)
    ensures
        0 <= spec_bytes_value(s) < pow256(s.len()),
    decreases s.len(),
{
    if s.len() > 0 {
        lemma_bytes_value_bound(s.skip(1));
    }
}

proof fn lemma_pow256_le(e1: nat, e2: nat)
    requires
        e1 <= e2,
    ensures
        pow256(e1) <= pow256(e2),
    decreases e2,
{
    if e1 < e2 {
        lemma_pow256_le(e1, (e2 - 1) as nat);
        lemma_pow256_positive((e2 - 1) as nat);
    }
}

proof fn lemma_pow256_positive(e: nat)
    ensures
        pow256(e) >= 1,
    decreases e,
{
    if e > 0 {
        lemma_pow256_positive((e - 1) as nat);
    }
}

/// A request's correlation identifier: up to eight opaque bytes, stored
/// as their little-endian value and their count.
#[derive(Copy, Clone, Debug, PartialEq, Eq, Structural)]
pub struct CoapToken {
    value: u64,
    len: usize,
}

impl CoapToken {
    /// The little-endian value of the token's bytes.
    pub closed spec fn spec_value(self) -> u64 {
        self.value
    }

    /// How many bytes the token has, at most eight.
    pub closed spec fn spec_len(self) -> usize {
        self.len
    }

    /// A token never exceeds eight bytes.
    pub open spec fn spec_wf(self) -> bool {
        self.spec_len() <= 8
    }

    /// The token after a re-roll: the full eight bytes of the successor
    /// value, wrapping at the top of the range.
    pub closed spec fn spec_rolled(self) -> CoapToken {
        CoapToken { value: vstd::wrapping::u64_specs::wrapping_add(self.value, 1), len: 8 }
    }

    /// The engine-issued initial token: an eight-byte zero buffer.
    pub fn new() -> (r: Self)
        ensures
            r.spec_value() == 0,
            r.spec_len() == 8,
            r.spec_wf(),
    {
        CoapToken { value: 0, len: 8 }
    }

    /// Reads a token out of the raw bytes a response carries.
    pub fn from_bytes(data: &[u8]) -> (r: CoapToken)
        requires
            data@.len() <= 8,
        ensures
            r.spec_len() == data@.len(),
            r.spec_value() == spec_bytes_value(data@),
            r.spec_wf(),
    {
        let len = data.len();
        let mut acc: u64 = 0;
        let mut i: usize = len;
        proof {
            assert(data@.skip(len as int) =~= Seq::<u8>::empty());
        }
        while i > 0
            invariant
                0 <= i <= len,
                len == data@.len() <= 8,
                acc == spec_bytes_value(data@.skip(i as int)),
                acc < pow256((len - i) as nat),
            decreases i,
        {
            let b = data[i - 1];
            proof {
                lemma_bytes_value_bound(data@.skip(i - 1));
                assert(data@.skip(i - 1).skip(1) =~= data@.skip(i as int));
                lemma_pow256_le((len - (i - 1)) as nat, 8);
                reveal_with_fuel(pow256, 9);
                assert(pow256(8) == 0x10000000000000000);
            }
            acc = acc * 256 + (b as u64);
            i -= 1;
        }
        proof {
            assert(data@.skip(0) =~= data@);
        }
        CoapToken { value: acc, len }
    }

    /// The little-endian value of the token's bytes.
    pub fn value(&self) -> (r: u64)
        ensures
            r == self.spec_value(),
    {
        self.value
    }

    /// How many bytes the token has.
    pub fn len(&self) -> (r: usize)
        ensures
            r == self.spec_len(),
    {
        self.len
    }

    /// Re-rolls the token: the successor value, eight bytes long.
    pub fn rolled(&self) -> (r: CoapToken)
        ensures
            r == self.spec_rolled(),
            r != *self,
            r.spec_wf(),
    {
        proof {
            lemma_roll_changes(*self);
        }
        CoapToken { value: self.value.wrapping_add(1), len: 8 }
    }
}

/// A re-roll always yields a different token than the one just sent: the
/// successor value differs from the value itself, also at the wrap.
pub proof fn lemma_roll_changes(t: CoapToken)
    ensures
        t.spec_rolled() != t,
        t.spec_rolled().spec_wf(),
{
    if t.spec_len() == 8 {
        assert(t.spec_rolled().spec_value() != t.spec_value());
    }
}

} // verus!
