//! The conditional write to a sorted set: its options, as a set of bits in
//! the host's own encoding, and its outcome.

use vstd::prelude::*;
use vstd::std_specs::ops::BitOrSpecImpl;

verus! {

/// The member must already exist; otherwise the write does nothing.
pub const ZADD_XX: i32 = 1;

/// The member must not exist yet; otherwise the write does nothing.
pub const ZADD_NX: i32 = 2;

/// If the member exists, the new score must be greater than the current one;
/// otherwise the write does nothing. May go together with `XX`.
pub const ZADD_GT: i32 = 32;

/// If the member exists, the new score must be less than the current one;
/// otherwise the write does nothing. May go together with `XX`.
pub const ZADD_LT: i32 = 64;

/// Every bit that stands for an option.
pub const ZADD_ALL: i32 = 99;

/// What a conditional write did to the sorted set.
#[derive(Clone, Copy, Debug, PartialEq, Eq, Structural)]
pub enum ZAddResult {
    /// The member was not present and has been inserted.
    Added,
    /// The member was present and its score has been changed.
    Updated,
    /// The options suppressed the write; nothing changed.
    Nop,
}

/// Whether `bits` holds option bits only.
pub open spec fn known_bits(bits: i32) -> bool {
    bits & !ZADD_ALL == 0
}

/// A set of write options. This type composes the bits and does not judge
/// them: that `XX` and `NX` exclude each other is for the host to enforce.
#[derive(Clone, Copy, Debug, PartialEq, Eq, Hash, Structural)]
pub struct ZAddFlags {
    bits: i32,
}

impl ZAddFlags {
    #[verifier::type_invariant]
    spec fn only_known_bits(self) -> bool {
        known_bits(self.bits)
    }

    /// The bits of this set, in the host's encoding.
    pub closed spec fn spec_bits(self) -> i32 {
        self.bits
    }

    /// The set with no option.
    pub fn empty() -> (res: ZAddFlags)
        ensures
            res.spec_bits() == 0,
    {
        assert(known_bits(0)) by (bit_vector);
        ZAddFlags { bits: 0 }
    }

    /// The option that the member must already exist.
    pub fn xx() -> (res: ZAddFlags)
        ensures
            res.spec_bits() == ZADD_XX,
    {
        assert(known_bits(1)) by (bit_vector);
        ZAddFlags { bits: ZADD_XX }
    }

    /// The option that the member must not exist yet.
    pub fn nx() -> (res: ZAddFlags)
        ensures
            res.spec_bits() == ZADD_NX,
    {
        assert(known_bits(2)) by (bit_vector);
        ZAddFlags { bits: ZADD_NX }
    }

    /// The option that an existing member's score may only grow.
    pub fn gt() -> (res: ZAddFlags)
        ensures
            res.spec_bits() == ZADD_GT,
    {
        assert(known_bits(32)) by (bit_vector);
        ZAddFlags { bits: ZADD_GT }
    }

    /// The option that an existing member's score may only shrink.
    pub fn lt() -> (res: ZAddFlags)
        ensures
            res.spec_bits() == ZADD_LT,
    {
        assert(known_bits(64)) by (bit_vector);
        ZAddFlags { bits: ZADD_LT }
    }

    /// The set with every option.
    pub fn all() -> (res: ZAddFlags)
        ensures
            res.spec_bits() == ZADD_ALL,
    {
        assert(known_bits(99)) by (bit_vector);
        ZAddFlags { bits: ZADD_ALL }
    }

    /// The bits of this set, in the host's encoding.
    pub fn bits(&self) -> (bits: i32)
        ensures
            bits == self.spec_bits(),
            known_bits(bits),
    {
        proof {
            use_type_invariant(self);
        }
        self.bits
    }

    /// The set with exactly these bits, unless one of them stands for no
    /// option.
    pub fn from_bits(bits: i32) -> (res: Option<ZAddFlags>)
        ensures
            match res {
                Some(flags) => known_bits(bits) && flags.spec_bits() == bits,
                None => !known_bits(bits),
            },
    {
        if bits & !ZADD_ALL == 0 {
            Some(ZAddFlags { bits })
        } else {
            None
        }
    }

    /// The set with those of these bits that stand for an option.
    pub fn from_bits_truncate(bits: i32) -> (res: ZAddFlags)
        ensures
            res.spec_bits() == bits & ZADD_ALL,
    {
        assert(known_bits(bits & 99)) by (bit_vector);
        ZAddFlags { bits: bits & ZADD_ALL }
    }

    /// Whether the set has no option.
    pub fn is_empty(&self) -> (res: bool)
        ensures
            res == (self.spec_bits() == 0),
    {
        self.bits == 0
    }

    /// Whether every option of `other` is in this set.
    pub fn contains(&self, other: ZAddFlags) -> (res: bool)
        ensures
            res == (self.spec_bits() & other.spec_bits() == other.spec_bits()),
    {
        self.bits & other.bits == other.bits
    }

    /// Whether some option is in both sets.
    pub fn intersects(&self, other: ZAddFlags) -> (res: bool)
        ensures
            res == (self.spec_bits() & other.spec_bits() != 0),
    {
        self.bits & other.bits != 0
    }

    /// Adds the options of `other` to this set.
    pub fn insert(&mut self, other: ZAddFlags)
        ensures
            final(self).spec_bits() == old(self).spec_bits() | other.spec_bits(),
    {
        *self = self.union(other);
    }

    /// Takes the options of `other` out of this set.
    pub fn remove(&mut self, other: ZAddFlags)
        ensures
            final(self).spec_bits() == old(self).spec_bits() & !other.spec_bits(),
    {
        proof {
            use_type_invariant(&*self);
            let a = self.bits;
            let b = other.bits;
            assert(known_bits(a & !b)) by (bit_vector)
                requires
                    known_bits(a),
            ;
        }
        *self = ZAddFlags { bits: self.bits & !other.bits };
    }

    /// The set with the bits of both.
    pub fn union(self, other: ZAddFlags) -> (res: ZAddFlags)
        ensures
            res.spec_bits() == self.spec_bits() | other.spec_bits(),
    {
        proof {
            use_type_invariant(self);
            use_type_invariant(other);
            let a = self.bits;
            let b = other.bits;
            assert(known_bits(a | b)) by (bit_vector)
                requires
                    known_bits(a),
                    known_bits(b),
            ;
        }
        ZAddFlags { bits: self.bits | other.bits }
    }
}

impl Default for ZAddFlags {
    /// The set with no option.
    fn default() -> (res: ZAddFlags)
        ensures
            res.spec_bits() == 0,
    {
        ZAddFlags::empty()
    }
}

impl core::ops::BitOr for ZAddFlags {
    type Output = ZAddFlags;

    /// The set with the bits of both.
    fn bitor(self, other: ZAddFlags) -> (res: ZAddFlags)
        ensures
            res.spec_bits() == self.spec_bits() | other.spec_bits(),
    {
        self.union(other)
    }
}

impl BitOrSpecImpl for ZAddFlags {
    open spec fn obeys_bitor_spec() -> bool {
        true
    }

    open spec fn bitor_req(self, other: ZAddFlags) -> bool {
        true
    }

    closed spec fn bitor_spec(self, other: ZAddFlags) -> ZAddFlags {
        ZAddFlags { bits: self.bits | other.bits }
    }
}

} // verus!
