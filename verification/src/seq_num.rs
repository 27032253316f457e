//! Sequence counters that wrap at the negotiated resolution.

use vstd::prelude::*;

verus! {

/// Unsigned integer of the wire protocol.
pub type ZInt = u64;

/// The value that follows `value` in a counter that counts modulo `resolution`.
pub open spec fn next_sn(value: int, resolution: int) -> int {
    (value + 1) % resolution
}

/// A sequence counter: a value below its resolution.
#[derive(Clone, Copy, Debug)]
pub struct SeqNum {
    value: ZInt,
    resolution: ZInt,
}

impl SeqNum {
    #[verifier::type_invariant]
    spec fn inv(self) -> bool {
        self.value < self.resolution
    }

    /// The current value of the counter.
    pub closed spec fn value(self) -> ZInt {
        self.value
    }

    /// The modulus at which the counter wraps to zero.
    pub closed spec fn resolution(self) -> ZInt {
        self.resolution
    }

    /// Whether `value` can start a counter of the given `resolution`.
    pub open spec fn admits(value: ZInt, resolution: ZInt) -> bool {
        value < resolution
    }

    /// A counter that starts at `value`.
    pub fn new(value: ZInt, resolution: ZInt) -> (sn: SeqNum)
        requires
            Self::admits(value, resolution),
        ensures
            sn.value() == value,
            sn.resolution() == resolution,
    {
        SeqNum { value, resolution }
    }

    /// A counter that starts at `value`, or nothing where `value` is not
    /// below `resolution`.
    pub fn make(value: ZInt, resolution: ZInt) -> (r: Option<SeqNum>)
        ensures
            r.is_some() == Self::admits(value, resolution),
            r matches Some(sn) ==> sn.value() == value && sn.resolution() == resolution,
    {
        if value < resolution {
            Some(SeqNum::new(value, resolution))
        } else {
            None
        }
    }

    pub fn get(&self) -> (v: ZInt)
        ensures
            v == self.value(),
            v < self.resolution(),
    {
        proof {
            use_type_invariant(self);
        }
        self.value
    }

    pub fn get_resolution(&self) -> (r: ZInt)
        ensures
            r == self.resolution(),
            r > 0,
    {
        proof {
            use_type_invariant(self);
        }
        self.resolution
    }

    /// Steps the counter by one, wrapping to zero at the resolution.
    pub fn increment(&mut self)
        ensures
            final(self).resolution() == old(self).resolution(),
            final(self).value() == next_sn(old(self).value() as int, old(self).resolution() as int),
    {
        proof {
            use_type_invariant(&*self);
        }
        let next: ZInt = self.value + 1;
        if next == self.resolution {
            assert(next_sn(self.value as int, self.resolution as int) == 0) by {
                vstd::arithmetic::div_mod::lemma_mod_self_0(self.resolution as int);
            }
            self.value = 0;
        } else {
            assert(next_sn(self.value as int, self.resolution as int) == next) by {
                vstd::arithmetic::div_mod::lemma_small_mod(next as nat, self.resolution as nat);
            }
            self.value = next;
        }
    }
}

/// A counter that stands one below its resolution is at zero after one
/// increment, whatever the resolution.
pub proof fn lemma_increment_wraps_to_zero(resolution: int)
    requires
        resolution >= 1,
    ensures
        next_sn(resolution - 1, resolution) == 0,
{
    vstd::arithmetic::div_mod::lemma_mod_self_0(resolution);
}

/// Below the last value an increment adds one; the counter never leaves
/// the range below its resolution.
pub proof fn lemma_increment_in_range(value: int, resolution: int)
    requires
        0 <= value < resolution,
    ensures
        0 <= next_sn(value, resolution) < resolution,
        value + 1 < resolution ==> next_sn(value, resolution) == value + 1,
{
    vstd::arithmetic::div_mod::lemma_mod_bound(value + 1, resolution);
    if value + 1 < resolution {
        vstd::arithmetic::div_mod::lemma_small_mod((value + 1) as nat, resolution as nat);
    }
}

} // verus!
