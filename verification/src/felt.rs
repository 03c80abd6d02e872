//! The universal scalar value of the protocol: an element of a prime field of
//! 252 bits, held as two 128-bit limbs, together with the thin wrappers that
//! distinguish its roles (address, selector, class hash, storage key, salt).
use vstd::prelude::*;

verus! {

/// High limb of the field prime: the prime is `HIGH * 2^128 + 1`.
pub const FIELD_PRIME_HIGH: u128 = 0x8000000000000110000000000000000;

/// A field element, stored as `hi * 2^128 + lo`.
///
/// The value is always below the field prime `2^251 + 17 * 2^192 + 1`,
/// which [`FieldElement::wf`] states.
#[derive(Clone, Copy, Debug, PartialEq, Eq, Hash, Structural)]
pub struct FieldElement {
    pub lo: u128,
    pub hi: u128,
}

impl FieldElement {
    /// The integer this element stands for.
    pub open spec fn value(self) -> nat {
        (self.hi * 0x100000000000000000000000000000000 + self.lo) as nat
    }

    /// The element is a canonical representative: below the field prime.
    pub open spec fn wf(self) -> bool {
        self.hi < FIELD_PRIME_HIGH || (self.hi == FIELD_PRIME_HIGH && self.lo == 0)
    }

    /// The zero element.
    pub fn zero() -> (r: FieldElement)
        ensures
            r.value() == 0,
            r.wf(),
    {
        FieldElement { lo: 0, hi: 0 }
    }

    /// Embeds a 128-bit integer.
    pub fn from_u128(v: u128) -> (r: FieldElement)
        ensures
            r.value() == v,
            r.wf(),
    {
        FieldElement { lo: v, hi: 0 }
    }

    /// Embeds a 64-bit integer.
    pub fn from_u64(v: u64) -> (r: FieldElement)
        ensures
            r.value() == v,
            r.wf(),
    {
        FieldElement { lo: v as u128, hi: 0 }
    }

    /// The next field element: one more, wrapping to zero at the prime.
    pub fn increment(&self) -> (r: FieldElement)
        requires
            self.wf(),
        ensures
            r.wf(),
            r.value() == if self.value() + 1 == field_prime() {
                0
            } else {
                self.value() + 1
            },
    {
        if self.hi == FIELD_PRIME_HIGH {
            FieldElement { lo: 0, hi: 0 }
        } else if self.lo == u128::MAX {
            FieldElement { lo: 0, hi: self.hi + 1 }
        } else {
            FieldElement { lo: self.lo + 1, hi: self.hi }
        }
    }

    /// The previous field element; zero has none.
    pub fn decrement(&self) -> (r: FieldElement)
        requires
            self.wf(),
            self.value() > 0,
        ensures
            r.wf(),
            r.value() == self.value() - 1,
    {
        if self.lo == 0 {
            FieldElement { lo: u128::MAX, hi: self.hi - 1 }
        } else {
            FieldElement { lo: self.lo - 1, hi: self.hi }
        }
    }
}

/// The field prime: `2^251 + 17 * 2^192 + 1`.
pub open spec fn field_prime() -> nat {
    (FIELD_PRIME_HIGH * 0x100000000000000000000000000000000 + 1) as nat
}

/// The address of a deployed contract.
#[derive(Clone, Copy, Debug, PartialEq, Eq, Hash, Structural)]
pub struct ContractAddress(pub FieldElement);

/// The selector that identifies an entry point within a class.
#[derive(Clone, Copy, Debug, PartialEq, Eq, Hash, Structural)]
pub struct EntryPointSelector(pub FieldElement);

/// The hash that identifies a declared class.
#[derive(Clone, Copy, Debug, PartialEq, Eq, Hash, Structural)]
pub struct ClassHash(pub FieldElement);

/// A key into a contract's storage.
#[derive(Clone, Copy, Debug, PartialEq, Eq, Hash, Structural)]
pub struct StorageKey(pub FieldElement);

/// The salt that enters a deployed contract's address computation.
#[derive(Clone, Copy, Debug, PartialEq, Eq, Hash, Structural)]
pub struct ContractAddressSalt(pub FieldElement);

} // verus!
