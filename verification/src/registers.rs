//! The 8080 register file: seven 8-bit general registers, the 16-bit stack
//! pointer and program counter, and paired access to BC, DE and HL with the
//! first-named register as the high byte.

use vstd::prelude::*;

use crate::flags::FlagRegister;

verus! {

/// A general register identifier.
#[derive(Clone, Copy, Debug, PartialEq, Eq, Structural)]
pub enum Reg {
    A,
    B,
    C,
    D,
    E,
    H,
    L,
}

/// A register pair identifier for paired 16-bit access.
#[derive(Clone, Copy, Debug, PartialEq, Eq, Structural)]
pub enum RegPair {
    BC,
    DE,
    HL,
}

#[derive(Clone, Copy, Debug, PartialEq, Eq, Structural)]
pub struct Registers {
    pub a: u8,
    pub f: FlagRegister,
    pub b: u8,
    pub c: u8,
    pub d: u8,
    pub e: u8,
    pub h: u8,
    pub l: u8,
    /// Stack pointer.
    pub sp: u16,
    /// Program counter.
    pub pc: u16,
}

impl Registers {
    /// The value held by register `r`.
    pub open spec fn spec_reg(self, r: Reg) -> u8 {
        match r {
            Reg::A => self.a,
            Reg::B => self.b,
            Reg::C => self.c,
            Reg::D => self.d,
            Reg::E => self.e,
            Reg::H => self.h,
            Reg::L => self.l,
        }
    }

    /// This register file with `r` set to `v`.
    pub open spec fn spec_with_reg(self, r: Reg, v: u8) -> Registers {
        match r {
            Reg::A => Registers { a: v, ..self },
            Reg::B => Registers { b: v, ..self },
            Reg::C => Registers { c: v, ..self },
            Reg::D => Registers { d: v, ..self },
            Reg::E => Registers { e: v, ..self },
            Reg::H => Registers { h: v, ..self },
            Reg::L => Registers { l: v, ..self },
        }
    }

    /// The 16-bit value of a pair: the first-named register is the high byte.
    pub open spec fn spec_pair(self, p: RegPair) -> u16 {
        match p {
            RegPair::BC => (self.b * 256 + self.c) as u16,
            RegPair::DE => (self.d * 256 + self.e) as u16,
            RegPair::HL => (self.h * 256 + self.l) as u16,
        }
    }

    /// This register file with the pair `p` set to `v`: the high byte goes to
    /// the first-named register, the low byte to the second.
    pub open spec fn spec_with_pair(self, p: RegPair, v: u16) -> Registers {
        match p {
            RegPair::BC => Registers { b: (v / 256) as u8, c: (v % 256) as u8, ..self },
            RegPair::DE => Registers { d: (v / 256) as u8, e: (v % 256) as u8, ..self },
            RegPair::HL => Registers { h: (v / 256) as u8, l: (v % 256) as u8, ..self },
        }
    }

    /// Read a pair as one 16-bit value.
    pub fn get_reg_pair(&self, pair: RegPair) -> (v: u16)
        ensures
            v == self.spec_pair(pair),
    {
        let (high, low) = match pair {
            RegPair::BC => (self.b, self.c),
            RegPair::DE => (self.d, self.e),
            RegPair::HL => (self.h, self.l),
        };
        (high as u16) * 256 + (low as u16)
    }

    /// Write a pair from one 16-bit value.
    pub fn set_reg_pair(&mut self, reg_pair: RegPair, val: u16)
        ensures
            *final(self) == old(self).spec_with_pair(reg_pair, val),
    {
        let high: u8 = (val / 256) as u8;
        let low: u8 = (val % 256) as u8;
        match reg_pair {
            RegPair::BC => {
                self.b = high;
                self.c = low;
            },
            RegPair::DE => {
                self.d = high;
                self.e = low;
            },
            RegPair::HL => {
                self.h = high;
                self.l = low;
            },
        }
    }

    /// Read a general register.
    pub fn get_reg(&self, reg: Reg) -> (v: u8)
        ensures
            v == self.spec_reg(reg),
    {
        match reg {
            Reg::A => self.a,
            Reg::B => self.b,
            Reg::C => self.c,
            Reg::D => self.d,
            Reg::E => self.e,
            Reg::H => self.h,
            Reg::L => self.l,
        }
    }

    /// Write a general register.
    pub fn set_reg(&mut self, reg_name: Reg, val: u8)
        ensures
            *final(self) == old(self).spec_with_reg(reg_name, val),
    {
        match reg_name {
            Reg::A => self.a = val,
            Reg::B => self.b = val,
            Reg::C => self.c = val,
            Reg::D => self.d = val,
            Reg::E => self.e = val,
            Reg::H => self.h = val,
            Reg::L => self.l = val,
        }
    }
}

} // verus!
