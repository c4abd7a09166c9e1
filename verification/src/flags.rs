//! The 8080 flag register: sign, zero, auxiliary carry, parity and carry,
//! with the encoding into the low byte of the program status word (PSW).
//!
//! PSW low byte layout: bit 7 = sign, bit 6 = zero, bit 5 = 0 (reserved),
//! bit 4 = auxiliary carry, bit 3 = 0 (reserved), bit 2 = parity,
//! bit 1 = 1 (reserved), bit 0 = carry.

use vstd::prelude::*;

verus! {

/// Number of set bits in the binary expansion of `v`.
pub open spec fn popcount(v: nat) -> nat
    decreases v,
{
    if v == 0 {
        0
    } else {
        popcount(v / 2) + v % 2
    }
}

/// The 8080 parity flag: set exactly when the 8-bit value has an even
/// number of set bits.
pub open spec fn spec_parity(v: u8) -> bool {
    popcount(v as nat) % 2 == 0
}

/// An 8-bit value has at most 8 set bits.
pub proof fn lemma_popcount_u8_le(v: u8)
    ensures
        popcount(v as nat) <= 8,
{
    let n = v as nat;
    assert(popcount(n) == n % 2 + popcount(n / 2));
    assert(popcount(n / 2) == (n / 2) % 2 + popcount(n / 2 / 2));
    assert(popcount(n / 4) == (n / 4) % 2 + popcount(n / 4 / 2));
    assert(popcount(n / 8) == (n / 8) % 2 + popcount(n / 8 / 2));
    assert(popcount(n / 16) == (n / 16) % 2 + popcount(n / 16 / 2));
    assert(popcount(n / 32) == (n / 32) % 2 + popcount(n / 32 / 2));
    assert(popcount(n / 64) == (n / 64) % 2 + popcount(n / 64 / 2));
    assert(popcount(n / 128) == (n / 128) % 2 + popcount(n / 128 / 2));
    assert(n / 256 == 0);
    assert(popcount(0) == 0);
}

#[derive(Clone, Copy, Debug, PartialEq, Eq, Structural)]
pub struct FlagRegister {
    pub sign: bool,
    pub zero: bool,
    pub aux_carry: bool,
    pub parity: bool,
    pub carry: bool,
}

impl FlagRegister {
    /// The PSW low byte for these flags, with the reserved bits forced
    /// (bit 5 = 0, bit 3 = 0, bit 1 = 1).
    pub open spec fn encoded(self) -> u8 {
        ((if self.sign {
            128int
        } else {
            0int
        }) + (if self.zero {
            64int
        } else {
            0int
        }) + (if self.aux_carry {
            16int
        } else {
            0int
        }) + (if self.parity {
            4int
        } else {
            0int
        }) + 2 + (if self.carry {
            1int
        } else {
            0int
        })) as u8
    }

    /// The flags read back from a PSW low byte; the reserved bits are ignored.
    pub open spec fn decoded(b: u8) -> FlagRegister {
        FlagRegister {
            sign: b / 128 % 2 == 1,
            zero: b / 64 % 2 == 1,
            aux_carry: b / 16 % 2 == 1,
            parity: b / 4 % 2 == 1,
            carry: b % 2 == 1,
        }
    }

    /// These flags with sign, zero and parity set from the 8-bit value `v`;
    /// carry and auxiliary carry are kept.
    pub open spec fn with_zsp(self, v: u8) -> FlagRegister {
        FlagRegister {
            sign: v >= 128,
            zero: v == 0,
            parity: spec_parity(v),
            ..self
        }
    }

    /// All five flags clear.
    pub fn cleared() -> (f: FlagRegister)
        ensures
            f == (FlagRegister {
                sign: false,
                zero: false,
                aux_carry: false,
                parity: false,
                carry: false,
            }),
    {
        FlagRegister { sign: false, zero: false, aux_carry: false, parity: false, carry: false }
    }

    /// Serialize the flags into the PSW low byte.
    pub fn encode(&self) -> (b: u8)
        ensures
            b == self.encoded(),
    {
        let mut b: u8 = 2;
        if self.sign {
            b = b + 128;
        }
        if self.zero {
            b = b + 64;
        }
        if self.aux_carry {
            b = b + 16;
        }
        if self.parity {
            b = b + 4;
        }
        if self.carry {
            b = b + 1;
        }
        b
    }

    /// Read the five flags out of a PSW low byte, discarding reserved bits.
    pub fn decode(b: u8) -> (f: FlagRegister)
        ensures
            f == FlagRegister::decoded(b),
    {
        FlagRegister {
            sign: b / 128 % 2 == 1,
            zero: b / 64 % 2 == 1,
            aux_carry: b / 16 % 2 == 1,
            parity: b / 4 % 2 == 1,
            carry: b % 2 == 1,
        }
    }

    /// Return true when `val` has an even number of set bits.
    pub fn check_parity(&self, val: u8) -> (even: bool)
        ensures
            even == spec_parity(val),
    {
        proof {
            lemma_popcount_u8_le(val);
        }
        let mut cur: u8 = val;
        let mut count: u8 = 0;
        while cur > 0
            invariant
                count + popcount(cur as nat) == popcount(val as nat),
                popcount(val as nat) <= 8,
            decreases cur,
        {
            proof {
                assert(popcount(cur as nat) == cur as nat % 2 + popcount(cur as nat / 2));
            }
            count = count + cur % 2;
            cur = cur / 2;
        }
        proof {
            assert(popcount(0) == 0);
        }
        count % 2 == 0
    }

    /// Set sign, zero and parity from the value `val`; carry and auxiliary
    /// carry are left untouched.
    pub fn set_artihmetic_flags(&mut self, val: u8)
        ensures
            *final(self) == old(self).with_zsp(val),
    {
        self.sign = val >= 128;
        self.zero = val == 0;
        self.parity = self.check_parity(val);
    }
}

} // verus!
