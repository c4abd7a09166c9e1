//! The mathematical model of the 8080: a machine state over a `Seq` of
//! memory bytes, and one transition function per instruction family. The
//! interpreter in `emulator` is proved to follow `step_spec` exactly.

use vstd::arithmetic::div_mod::{
    lemma_add_mod_noop_right, lemma_mod_add_multiples_vanish, lemma_small_mod,
};
use vstd::prelude::*;

use crate::flags::FlagRegister;
use crate::registers::{Reg, RegPair, Registers};

verus! {

/// `x` reduced modulo 2^16; address and 16-bit register arithmetic wraps.
pub open spec fn wrap16(x: int) -> u16 {
    (x % 0x10000) as u16
}

/// `x` reduced modulo 2^8.
pub open spec fn wrap8(x: int) -> u8 {
    (x % 0x100) as u8
}

/// Reducing by one period leaves the residue modulo 2^16 unchanged.
pub proof fn lemma_wrap16_period(x: int)
    ensures
        wrap16(x + 0x10000) == wrap16(x),
{
    lemma_mod_add_multiples_vanish(x, 0x10000);
}

/// A value already in range is its own residue modulo 2^16.
pub proof fn lemma_wrap16_id(x: int)
    requires
        0 <= x < 0x10000,
    ensures
        wrap16(x) == x,
{
    lemma_small_mod(x as nat, 0x10000);
}

/// A residue modulo 2^16 may be reduced before or after adding an offset.
pub proof fn lemma_wrap16_absorb(x: int, d: int)
    ensures
        wrap16(wrap16(x) + d) == wrap16(x + d),
{
    lemma_add_mod_noop_right(d, x, 0x10000);
    assert(d + x == x + d);
}

/// Reducing by one period leaves the residue modulo 2^8 unchanged.
pub proof fn lemma_wrap8_period(x: int)
    ensures
        wrap8(x + 0x100) == wrap8(x),
{
    lemma_mod_add_multiples_vanish(x, 0x100);
}

/// A value already in range is its own residue modulo 2^8.
pub proof fn lemma_wrap8_id(x: int)
    requires
        0 <= x < 0x100,
    ensures
        wrap8(x) == x,
{
    lemma_small_mod(x as nat, 0x100);
}

/// A branch condition, in the 8080's condition-code order.
#[derive(Clone, Copy, Debug, PartialEq, Eq, Structural)]
pub enum Cond {
    /// Zero flag clear.
    NZ,
    /// Zero flag set.
    Z,
    /// Carry flag clear.
    NC,
    /// Carry flag set.
    C,
    /// Parity flag clear (odd parity).
    PO,
    /// Parity flag set (even parity).
    PE,
    /// Sign flag clear (plus).
    P,
    /// Sign flag set (minus).
    M,
}

/// Whether the condition holds for the given flags.
pub open spec fn cond_holds(f: FlagRegister, c: Cond) -> bool {
    match c {
        Cond::NZ => !f.zero,
        Cond::Z => f.zero,
        Cond::NC => !f.carry,
        Cond::C => f.carry,
        Cond::PO => !f.parity,
        Cond::PE => f.parity,
        Cond::P => !f.sign,
        Cond::M => f.sign,
    }
}

/// The abstract CPU state: register file, latches, and 64 KiB of memory.
#[verifier::ext_equal]
pub struct CpuView {
    pub regs: Registers,
    pub halted: bool,
    pub interrupts_enabled: bool,
    pub mem: Seq<u8>,
}

impl CpuView {
    /// Well-formed states have exactly 2^16 memory bytes.
    pub open spec fn wf(self) -> bool {
        self.mem.len() == 0x10000
    }

    /// The memory byte at `addr`.
    pub open spec fn rd(self, addr: u16) -> u8 {
        self.mem[addr as int]
    }

    /// This state with the memory byte at `addr` replaced by `v`.
    pub open spec fn wr(self, addr: u16, v: u8) -> CpuView {
        CpuView { mem: self.mem.update(addr as int, v), ..self }
    }

    /// The byte following the opcode (at PC + 1, wrapping).
    pub open spec fn imm8(self) -> u8 {
        self.rd(wrap16(self.regs.pc + 1))
    }

    /// The little-endian word following the opcode: low byte at PC + 1,
    /// high byte at PC + 2 (wrapping).
    pub open spec fn imm16(self) -> u16 {
        (self.rd(wrap16(self.regs.pc + 2)) * 256 + self.rd(wrap16(self.regs.pc + 1))) as u16
    }

    /// This state with the program counter set to `pc`.
    pub open spec fn with_pc(self, pc: u16) -> CpuView {
        CpuView { regs: Registers { pc: pc, ..self.regs }, ..self }
    }

    /// This state with the program counter advanced by `n`, wrapping.
    pub open spec fn advanced(self, n: int) -> CpuView {
        self.with_pc(wrap16(self.regs.pc + n))
    }

    /// This state with the stack pointer set to `sp`.
    pub open spec fn with_sp(self, sp: u16) -> CpuView {
        CpuView { regs: Registers { sp: sp, ..self.regs }, ..self }
    }

    /// This state with the flags replaced.
    pub open spec fn with_flags(self, f: FlagRegister) -> CpuView {
        CpuView { regs: Registers { f: f, ..self.regs }, ..self }
    }

    /// This state with register `r` set to `v`.
    pub open spec fn with_reg(self, r: Reg, v: u8) -> CpuView {
        CpuView { regs: self.regs.spec_with_reg(r, v), ..self }
    }

    /// This state with pair `p` set to `v`.
    pub open spec fn with_pair(self, p: RegPair, v: u16) -> CpuView {
        CpuView { regs: self.regs.spec_with_pair(p, v), ..self }
    }

    /// The address held in HL.
    pub open spec fn hl_addr(self) -> u16 {
        self.regs.spec_pair(RegPair::HL)
    }
}

// ---------------------------------------------------------------------------
// Accumulator arithmetic and logic. None of these touch the program counter;
// the per-opcode transitions below append the advance.
// ---------------------------------------------------------------------------

/// Addition into the accumulator: `A + v + k` with carry-in `k`. The stored
/// result is the wide sum truncated to 8 bits; carry is set when the wide
/// sum exceeds 0xFF; auxiliary carry when the low nibbles (plus `k`)
/// overflow past 0x0F; sign, zero and parity follow the result.
pub open spec fn with_acc_add(s: CpuView, v: u8, k: int) -> CpuView {
    let sum = s.regs.a + v + k;
    let r = wrap8(sum);
    let f = FlagRegister {
        carry: sum > 0xFF,
        aux_carry: s.regs.a % 16 + v % 16 + k > 0x0F,
        ..s.regs.f.with_zsp(r)
    };
    s.with_reg(Reg::A, r).with_flags(f)
}

/// Subtraction from the accumulator: `A - v - k` with borrow-in `k`. The
/// stored result is the two's-complement difference truncated to 8 bits;
/// carry is the borrow flag, set when `v + k > A`; auxiliary carry is set
/// when the low-nibble subtraction does not borrow.
pub open spec fn with_acc_sub(s: CpuView, v: u8, k: int) -> CpuView {
    let diff = s.regs.a - v - k;
    let r = wrap8(diff);
    let f = FlagRegister {
        carry: v + k > s.regs.a,
        aux_carry: s.regs.a % 16 - v % 16 - k >= 0,
        ..s.regs.f.with_zsp(r)
    };
    s.with_reg(Reg::A, r).with_flags(f)
}

/// Comparison: the flags of `with_acc_sub(s, v, 0)` with the accumulator
/// preserved.
pub open spec fn with_acc_cmp(s: CpuView, v: u8) -> CpuView {
    with_acc_sub(s, v, 0).with_reg(Reg::A, s.regs.a)
}

/// Bitwise AND into the accumulator. Carry clears; auxiliary carry mirrors
/// the 8080's quirk: it is set when bit 3 of `A | v` is set.
pub open spec fn with_acc_and(s: CpuView, v: u8) -> CpuView {
    let r = s.regs.a & v;
    let f = FlagRegister {
        carry: false,
        aux_carry: ((s.regs.a | v) & 0x08) != 0,
        ..s.regs.f.with_zsp(r)
    };
    s.with_reg(Reg::A, r).with_flags(f)
}

/// Bitwise XOR into the accumulator; carry and auxiliary carry clear.
pub open spec fn with_acc_xor(s: CpuView, v: u8) -> CpuView {
    let r = s.regs.a ^ v;
    let f = FlagRegister { carry: false, aux_carry: false, ..s.regs.f.with_zsp(r) };
    s.with_reg(Reg::A, r).with_flags(f)
}

/// Bitwise OR into the accumulator; carry and auxiliary carry clear.
pub open spec fn with_acc_or(s: CpuView, v: u8) -> CpuView {
    let r = s.regs.a | v;
    let f = FlagRegister { carry: false, aux_carry: false, ..s.regs.f.with_zsp(r) };
    s.with_reg(Reg::A, r).with_flags(f)
}

// ---------------------------------------------------------------------------
// Stack primitives (no program-counter change).
// ---------------------------------------------------------------------------

/// Push a 16-bit word: the stack pointer drops by two (mod 2^16); the high
/// byte goes to the higher of the two fresh slots, the low byte below it.
pub open spec fn with_push(s: CpuView, v: u16) -> CpuView {
    s.wr(wrap16(s.regs.sp - 1), (v / 256) as u8).wr(wrap16(s.regs.sp - 2), (v % 256) as u8)
        .with_sp(wrap16(s.regs.sp - 2))
}

/// The word on top of the stack: low byte at SP, high byte at SP + 1.
pub open spec fn stack_top(s: CpuView) -> u16 {
    (s.rd(wrap16(s.regs.sp + 1)) * 256 + s.rd(s.regs.sp)) as u16
}

/// Drop the word on top of the stack.
pub open spec fn with_pop(s: CpuView) -> CpuView {
    s.with_sp(wrap16(s.regs.sp + 2))
}

// ---------------------------------------------------------------------------
// One transition per instruction family.
// ---------------------------------------------------------------------------

/// NOP, and the undocumented alternate NOP encodings.
pub open spec fn nop_op(s: CpuView) -> CpuView {
    s.advanced(1)
}

/// LXI rp,d16: load the immediate word into the pair.
pub open spec fn lxi_op(s: CpuView, p: RegPair) -> CpuView {
    s.with_pair(p, s.imm16()).advanced(3)
}

/// LXI SP,d16.
pub open spec fn lxi_sp_op(s: CpuView) -> CpuView {
    s.with_sp(s.imm16()).advanced(3)
}

/// STAX rp: store the accumulator at the address in BC or DE.
pub open spec fn stax_op(s: CpuView, p: RegPair) -> CpuView {
    s.wr(s.regs.spec_pair(p), s.regs.a).advanced(1)
}

/// LDAX rp: load the accumulator from the address in BC or DE.
pub open spec fn ldax_op(s: CpuView, p: RegPair) -> CpuView {
    s.with_reg(Reg::A, s.rd(s.regs.spec_pair(p))).advanced(1)
}

/// INX rp: increment the pair modulo 2^16; no flag changes.
pub open spec fn inx_op(s: CpuView, p: RegPair) -> CpuView {
    s.with_pair(p, wrap16(s.regs.spec_pair(p) + 1)).advanced(1)
}

/// DCX rp: decrement the pair modulo 2^16; no flag changes.
pub open spec fn dcx_op(s: CpuView, p: RegPair) -> CpuView {
    s.with_pair(p, wrap16(s.regs.spec_pair(p) - 1)).advanced(1)
}

/// INX SP.
pub open spec fn inx_sp_op(s: CpuView) -> CpuView {
    s.with_sp(wrap16(s.regs.sp + 1)).advanced(1)
}

/// DCX SP.
pub open spec fn dcx_sp_op(s: CpuView) -> CpuView {
    s.with_sp(wrap16(s.regs.sp - 1)).advanced(1)
}

/// The flags after INR of a value: sign, zero, parity from the result;
/// auxiliary carry when the low nibble of the old value overflows; carry
/// untouched.
pub open spec fn inr_flags(f: FlagRegister, old_v: u8) -> FlagRegister {
    FlagRegister { aux_carry: old_v % 16 + 1 > 0x0F, ..f.with_zsp(wrap8(old_v + 1)) }
}

/// The flags after DCR of a value: sign, zero, parity from the result;
/// auxiliary carry set when the low nibble did not borrow (result nibble is
/// not 0xF); carry untouched.
pub open spec fn dcr_flags(f: FlagRegister, old_v: u8) -> FlagRegister {
    FlagRegister { aux_carry: wrap8(old_v - 1) % 16 != 0x0F, ..f.with_zsp(wrap8(old_v - 1)) }
}

/// INR r.
pub open spec fn inr_op(s: CpuView, r: Reg) -> CpuView {
    let v = s.regs.spec_reg(r);
    s.with_reg(r, wrap8(v + 1)).with_flags(inr_flags(s.regs.f, v)).advanced(1)
}

/// DCR r.
pub open spec fn dcr_op(s: CpuView, r: Reg) -> CpuView {
    let v = s.regs.spec_reg(r);
    s.with_reg(r, wrap8(v - 1)).with_flags(dcr_flags(s.regs.f, v)).advanced(1)
}

/// INR M: increment the byte at the address in HL.
pub open spec fn inr_m_op(s: CpuView) -> CpuView {
    let v = s.rd(s.hl_addr());
    s.wr(s.hl_addr(), wrap8(v + 1)).with_flags(inr_flags(s.regs.f, v)).advanced(1)
}

/// DCR M: decrement the byte at the address in HL.
pub open spec fn dcr_m_op(s: CpuView) -> CpuView {
    let v = s.rd(s.hl_addr());
    s.wr(s.hl_addr(), wrap8(v - 1)).with_flags(dcr_flags(s.regs.f, v)).advanced(1)
}

/// MVI r,d8.
pub open spec fn mvi_op(s: CpuView, r: Reg) -> CpuView {
    s.with_reg(r, s.imm8()).advanced(2)
}

/// MVI M,d8: store the immediate at the address in HL.
pub open spec fn mvi_m_op(s: CpuView) -> CpuView {
    s.wr(s.hl_addr(), s.imm8()).advanced(2)
}

/// RLC: rotate the accumulator left; bit 7 goes to carry and to bit 0.
pub open spec fn rlc_op(s: CpuView) -> CpuView {
    let hi = s.regs.a / 128;
    let r = (s.regs.a % 128 * 2 + hi) as u8;
    s.with_reg(Reg::A, r).with_flags(
        FlagRegister { carry: hi == 1, ..s.regs.f },
    ).advanced(1)
}

/// RRC: rotate the accumulator right; bit 0 goes to carry and to bit 7.
pub open spec fn rrc_op(s: CpuView) -> CpuView {
    let lo = s.regs.a % 2;
    let r = (s.regs.a / 2 + lo * 128) as u8;
    s.with_reg(Reg::A, r).with_flags(
        FlagRegister { carry: lo == 1, ..s.regs.f },
    ).advanced(1)
}

/// RAL: rotate left through carry; the old carry enters at bit 0.
pub open spec fn ral_op(s: CpuView) -> CpuView {
    let cin: int = if s.regs.f.carry {
        1
    } else {
        0
    };
    let r = (s.regs.a % 128 * 2 + cin) as u8;
    s.with_reg(Reg::A, r).with_flags(
        FlagRegister { carry: s.regs.a / 128 == 1, ..s.regs.f },
    ).advanced(1)
}

/// RAR: rotate right through carry; the old carry enters at bit 7.
pub open spec fn rar_op(s: CpuView) -> CpuView {
    let cin: int = if s.regs.f.carry {
        1
    } else {
        0
    };
    let r = (s.regs.a / 2 + cin * 128) as u8;
    s.with_reg(Reg::A, r).with_flags(
        FlagRegister { carry: s.regs.a % 2 == 1, ..s.regs.f },
    ).advanced(1)
}

/// DAD rp / DAD SP: add a 16-bit operand to HL; carry is set exactly when
/// the untruncated sum exceeds 0xFFFF; no other flag changes.
pub open spec fn dad_op(s: CpuView, v: u16) -> CpuView {
    let sum = s.hl_addr() + v;
    s.with_pair(RegPair::HL, wrap16(sum)).with_flags(
        FlagRegister { carry: sum > 0xFFFF, ..s.regs.f },
    ).advanced(1)
}

/// SHLD a16: store L at the immediate address and H just above it.
pub open spec fn shld_op(s: CpuView) -> CpuView {
    let addr = s.imm16();
    s.wr(addr, s.regs.l).wr(wrap16(addr + 1), s.regs.h).advanced(3)
}

/// LHLD a16: load L from the immediate address and H from just above it.
pub open spec fn lhld_op(s: CpuView) -> CpuView {
    let addr = s.imm16();
    s.with_reg(Reg::L, s.rd(addr)).with_reg(Reg::H, s.rd(wrap16(addr + 1))).advanced(3)
}

/// DAA: decimal-adjust the accumulator in two phases. Phase one adds 6 to
/// the low nibble when it exceeds 9 or auxiliary carry is set; auxiliary
/// carry records whether the low nibble overflowed (and clears otherwise).
/// Phase two adds 0x60 when the high nibble (after phase one) exceeds 9 or
/// carry is set; carry is set when the high nibble overflows and is
/// retained otherwise. Sign, zero and parity follow the final value.
pub open spec fn daa_op(s: CpuView) -> CpuView {
    let a0 = s.regs.a;
    let adjust_lo = a0 % 16 > 9 || s.regs.f.aux_carry;
    let aux = a0 % 16 > 9;
    let a1 = if adjust_lo {
        wrap8(a0 + 6)
    } else {
        a0
    };
    let adjust_hi = a1 / 16 > 9 || s.regs.f.carry;
    let carry = s.regs.f.carry || a1 / 16 > 9;
    let a2 = if adjust_hi {
        wrap8(a1 + 0x60)
    } else {
        a1
    };
    let f = FlagRegister { aux_carry: aux, carry: carry, ..s.regs.f.with_zsp(a2) };
    s.with_reg(Reg::A, a2).with_flags(f).advanced(1)
}

/// CMA: complement the accumulator; no flag changes.
pub open spec fn cma_op(s: CpuView) -> CpuView {
    s.with_reg(Reg::A, (255 - s.regs.a) as u8).advanced(1)
}

/// STA a16: store the accumulator at the immediate address.
pub open spec fn sta_op(s: CpuView) -> CpuView {
    s.wr(s.imm16(), s.regs.a).advanced(3)
}

/// LDA a16: load the accumulator from the immediate address.
pub open spec fn lda_op(s: CpuView) -> CpuView {
    s.with_reg(Reg::A, s.rd(s.imm16())).advanced(3)
}

/// STC: set carry.
pub open spec fn stc_op(s: CpuView) -> CpuView {
    s.with_flags(FlagRegister { carry: true, ..s.regs.f }).advanced(1)
}

/// CMC: complement carry.
pub open spec fn cmc_op(s: CpuView) -> CpuView {
    s.with_flags(FlagRegister { carry: !s.regs.f.carry, ..s.regs.f }).advanced(1)
}

/// MOV dst,src between general registers.
pub open spec fn mov_op(s: CpuView, dst: Reg, src: Reg) -> CpuView {
    s.with_reg(dst, s.regs.spec_reg(src)).advanced(1)
}

/// MOV dst,M: load from the address in HL.
pub open spec fn mov_from_m_op(s: CpuView, dst: Reg) -> CpuView {
    s.with_reg(dst, s.rd(s.hl_addr())).advanced(1)
}

/// MOV M,src: store to the address in HL.
pub open spec fn mov_to_m_op(s: CpuView, src: Reg) -> CpuView {
    s.wr(s.hl_addr(), s.regs.spec_reg(src)).advanced(1)
}

/// HLT: set the halt latch.
pub open spec fn hlt_op(s: CpuView) -> CpuView {
    CpuView { halted: true, ..s }.advanced(1)
}

/// JMP a16, and its undocumented alternate encoding.
pub open spec fn jmp_op(s: CpuView) -> CpuView {
    s.with_pc(s.imm16())
}

/// Jcc a16: jump when the condition holds, else fall through.
pub open spec fn jcc_op(s: CpuView, c: Cond) -> CpuView {
    if cond_holds(s.regs.f, c) {
        jmp_op(s)
    } else {
        s.advanced(3)
    }
}

/// CALL a16: push the address of the next instruction, then jump.
pub open spec fn call_op(s: CpuView) -> CpuView {
    with_push(s, wrap16(s.regs.pc + 3)).with_pc(s.imm16())
}

/// Ccc a16: call when the condition holds, else fall through.
pub open spec fn ccc_op(s: CpuView, c: Cond) -> CpuView {
    if cond_holds(s.regs.f, c) {
        call_op(s)
    } else {
        s.advanced(3)
    }
}

/// RET: pop the return address into PC.
pub open spec fn ret_op(s: CpuView) -> CpuView {
    with_pop(s).with_pc(stack_top(s))
}

/// Rcc: return when the condition holds, else fall through.
pub open spec fn rcc_op(s: CpuView, c: Cond) -> CpuView {
    if cond_holds(s.regs.f, c) {
        ret_op(s)
    } else {
        s.advanced(1)
    }
}

/// RST n: push the address of the next instruction and jump to 8 * n.
pub open spec fn rst_op(s: CpuView, n: int) -> CpuView {
    with_push(s, wrap16(s.regs.pc + 1)).with_pc((8 * n) as u16)
}

/// PUSH rp.
pub open spec fn push_pair_op(s: CpuView, p: RegPair) -> CpuView {
    with_push(s, s.regs.spec_pair(p)).advanced(1)
}

/// POP rp.
pub open spec fn pop_pair_op(s: CpuView, p: RegPair) -> CpuView {
    with_pop(s).with_pair(p, stack_top(s)).advanced(1)
}

/// PUSH PSW: the accumulator is the high byte, the encoded flags the low.
pub open spec fn push_psw_op(s: CpuView) -> CpuView {
    with_push(s, (s.regs.a * 256 + s.regs.f.encoded()) as u16).advanced(1)
}

/// POP PSW: the accumulator from the high byte; the flags decoded from the
/// low byte, reserved bits ignored.
pub open spec fn pop_psw_op(s: CpuView) -> CpuView {
    let w = stack_top(s);
    with_pop(s).with_reg(Reg::A, (w / 256) as u8).with_flags(
        FlagRegister::decoded((w % 256) as u8),
    ).advanced(1)
}

/// XTHL: exchange HL with the word on top of the stack.
pub open spec fn xthl_op(s: CpuView) -> CpuView {
    let w = stack_top(s);
    s.wr(s.regs.sp, s.regs.l).wr(wrap16(s.regs.sp + 1), s.regs.h).with_pair(
        RegPair::HL,
        w,
    ).advanced(1)
}

/// XCHG: exchange DE with HL.
pub open spec fn xchg_op(s: CpuView) -> CpuView {
    CpuView {
        regs: Registers {
            d: s.regs.h,
            e: s.regs.l,
            h: s.regs.d,
            l: s.regs.e,
            ..s.regs
        },
        ..s
    }.advanced(1)
}

/// PCHL: jump to the address in HL.
pub open spec fn pchl_op(s: CpuView) -> CpuView {
    s.with_pc(s.hl_addr())
}

/// SPHL: load the stack pointer from HL.
pub open spec fn sphl_op(s: CpuView) -> CpuView {
    s.with_sp(s.hl_addr()).advanced(1)
}

/// DI / EI: clear or set the interrupt-enable latch.
pub open spec fn int_op(s: CpuView, enabled: bool) -> CpuView {
    CpuView { interrupts_enabled: enabled, ..s }.advanced(1)
}

/// IN d8 with no port handler attached: the accumulator reads as 0.
pub open spec fn in_op(s: CpuView) -> CpuView {
    s.with_reg(Reg::A, 0).advanced(2)
}

/// OUT d8 with no port handler attached: nothing observable happens.
pub open spec fn out_op(s: CpuView) -> CpuView {
    s.advanced(2)
}

// ---------------------------------------------------------------------------
// Dispatch.
// ---------------------------------------------------------------------------

/// The register selected by a 3-bit operand field; code 6 means memory via
/// HL and is handled by the dispatcher, so it is mapped arbitrarily here.
pub open spec fn reg_of(code: int) -> Reg {
    if code == 0 {
        Reg::B
    } else if code == 1 {
        Reg::C
    } else if code == 2 {
        Reg::D
    } else if code == 3 {
        Reg::E
    } else if code == 4 {
        Reg::H
    } else if code == 5 {
        Reg::L
    } else {
        Reg::A
    }
}

/// Opcodes 0x40..0x7F: the MOV block, with HLT in the slot that would be
/// MOV M,M.
pub open spec fn mov_family(s: CpuView, op: u8) -> CpuView {
    let dst = (op - 0x40) / 8;
    let src = (op % 8) as int;
    if op == 0x76 {
        hlt_op(s)
    } else if dst == 6 {
        mov_to_m_op(s, reg_of(src))
    } else if src == 6 {
        mov_from_m_op(s, reg_of(dst))
    } else {
        mov_op(s, reg_of(dst), reg_of(src))
    }
}

/// Opcodes 0x80..0xBF: the accumulator arithmetic/logic block. The operand
/// field selects a register or memory via HL; the operation field selects
/// ADD, ADC, SUB, SBB, ANA, XRA, ORA or CMP.
pub open spec fn alu_family(s: CpuView, op: u8) -> CpuView {
    let v = if op % 8 == 6 {
        s.rd(s.hl_addr())
    } else {
        s.regs.spec_reg(reg_of((op % 8) as int))
    };
    let carry_in: int = if s.regs.f.carry {
        1
    } else {
        0
    };
    let sel = (op - 0x80) / 8;
    let t = if sel == 0 {
        with_acc_add(s, v, 0)
    } else if sel == 1 {
        with_acc_add(s, v, carry_in)
    } else if sel == 2 {
        with_acc_sub(s, v, 0)
    } else if sel == 3 {
        with_acc_sub(s, v, carry_in)
    } else if sel == 4 {
        with_acc_and(s, v)
    } else if sel == 5 {
        with_acc_xor(s, v)
    } else if sel == 6 {
        with_acc_or(s, v)
    } else {
        with_acc_cmp(s, v)
    };
    t.advanced(1)
}

/// Opcodes 0x00..0x3F.
pub open spec fn low_family(s: CpuView, op: u8) -> CpuView {
    match op {
        0x00 => nop_op(s),
        0x01 => lxi_op(s, RegPair::BC),
        0x02 => stax_op(s, RegPair::BC),
        0x03 => inx_op(s, RegPair::BC),
        0x04 => inr_op(s, Reg::B),
        0x05 => dcr_op(s, Reg::B),
        0x06 => mvi_op(s, Reg::B),
        0x07 => rlc_op(s),
        0x08 => nop_op(s),
        0x09 => dad_op(s, s.regs.spec_pair(RegPair::BC)),
        0x0A => ldax_op(s, RegPair::BC),
        0x0B => dcx_op(s, RegPair::BC),
        0x0C => inr_op(s, Reg::C),
        0x0D => dcr_op(s, Reg::C),
        0x0E => mvi_op(s, Reg::C),
        0x0F => rrc_op(s),
        0x10 => nop_op(s),
        0x11 => lxi_op(s, RegPair::DE),
        0x12 => stax_op(s, RegPair::DE),
        0x13 => inx_op(s, RegPair::DE),
        0x14 => inr_op(s, Reg::D),
        0x15 => dcr_op(s, Reg::D),
        0x16 => mvi_op(s, Reg::D),
        0x17 => ral_op(s),
        0x18 => nop_op(s),
        0x19 => dad_op(s, s.regs.spec_pair(RegPair::DE)),
        0x1A => ldax_op(s, RegPair::DE),
        0x1B => dcx_op(s, RegPair::DE),
        0x1C => inr_op(s, Reg::E),
        0x1D => dcr_op(s, Reg::E),
        0x1E => mvi_op(s, Reg::E),
        0x1F => rar_op(s),
        0x20 => nop_op(s),
        0x21 => lxi_op(s, RegPair::HL),
        0x22 => shld_op(s),
        0x23 => inx_op(s, RegPair::HL),
        0x24 => inr_op(s, Reg::H),
        0x25 => dcr_op(s, Reg::H),
        0x26 => mvi_op(s, Reg::H),
        0x27 => daa_op(s),
        0x28 => nop_op(s),
        0x29 => dad_op(s, s.regs.spec_pair(RegPair::HL)),
        0x2A => lhld_op(s),
        0x2B => dcx_op(s, RegPair::HL),
        0x2C => inr_op(s, Reg::L),
        0x2D => dcr_op(s, Reg::L),
        0x2E => mvi_op(s, Reg::L),
        0x2F => cma_op(s),
        0x30 => nop_op(s),
        0x31 => lxi_sp_op(s),
        0x32 => sta_op(s),
        0x33 => inx_sp_op(s),
        0x34 => inr_m_op(s),
        0x35 => dcr_m_op(s),
        0x36 => mvi_m_op(s),
        0x37 => stc_op(s),
        0x38 => nop_op(s),
        0x39 => dad_op(s, s.regs.sp),
        0x3A => lda_op(s),
        0x3B => dcx_sp_op(s),
        0x3C => inr_op(s, Reg::A),
        0x3D => dcr_op(s, Reg::A),
        0x3E => mvi_op(s, Reg::A),
        _ => cmc_op(s),
    }
}

/// Opcodes 0xC0..0xFF.
pub open spec fn ctrl_family(s: CpuView, op: u8) -> CpuView {
    match op {
        0xC0 => rcc_op(s, Cond::NZ),
        0xC1 => pop_pair_op(s, RegPair::BC),
        0xC2 => jcc_op(s, Cond::NZ),
        0xC3 => jmp_op(s),
        0xC4 => ccc_op(s, Cond::NZ),
        0xC5 => push_pair_op(s, RegPair::BC),
        0xC6 => with_acc_add(s, s.imm8(), 0).advanced(2),
        0xC7 => rst_op(s, 0),
        0xC8 => rcc_op(s, Cond::Z),
        0xC9 => ret_op(s),
        0xCA => jcc_op(s, Cond::Z),
        0xCB => jmp_op(s),
        0xCC => ccc_op(s, Cond::Z),
        0xCD => call_op(s),
        0xCE => with_acc_add(s, s.imm8(), if s.regs.f.carry { 1int } else { 0int }).advanced(2),
        0xCF => rst_op(s, 1),
        0xD0 => rcc_op(s, Cond::NC),
        0xD1 => pop_pair_op(s, RegPair::DE),
        0xD2 => jcc_op(s, Cond::NC),
        0xD3 => out_op(s),
        0xD4 => ccc_op(s, Cond::NC),
        0xD5 => push_pair_op(s, RegPair::DE),
        0xD6 => with_acc_sub(s, s.imm8(), 0).advanced(2),
        0xD7 => rst_op(s, 2),
        0xD8 => rcc_op(s, Cond::C),
        0xD9 => ret_op(s),
        0xDA => jcc_op(s, Cond::C),
        0xDB => in_op(s),
        0xDC => ccc_op(s, Cond::C),
        0xDD => call_op(s),
        0xDE => with_acc_sub(s, s.imm8(), if s.regs.f.carry { 1int } else { 0int }).advanced(2),
        0xDF => rst_op(s, 3),
        0xE0 => rcc_op(s, Cond::PO),
        0xE1 => pop_pair_op(s, RegPair::HL),
        0xE2 => jcc_op(s, Cond::PO),
        0xE3 => xthl_op(s),
        0xE4 => ccc_op(s, Cond::PO),
        0xE5 => push_pair_op(s, RegPair::HL),
        0xE6 => with_acc_and(s, s.imm8()).advanced(2),
        0xE7 => rst_op(s, 4),
        0xE8 => rcc_op(s, Cond::PE),
        0xE9 => pchl_op(s),
        0xEA => jcc_op(s, Cond::PE),
        0xEB => xchg_op(s),
        0xEC => ccc_op(s, Cond::PE),
        0xED => call_op(s),
        0xEE => with_acc_xor(s, s.imm8()).advanced(2),
        0xEF => rst_op(s, 5),
        0xF0 => rcc_op(s, Cond::P),
        0xF1 => pop_psw_op(s),
        0xF2 => jcc_op(s, Cond::P),
        0xF3 => int_op(s, false),
        0xF4 => ccc_op(s, Cond::P),
        0xF5 => push_psw_op(s),
        0xF6 => with_acc_or(s, s.imm8()).advanced(2),
        0xF7 => rst_op(s, 6),
        0xF8 => rcc_op(s, Cond::M),
        0xF9 => sphl_op(s),
        0xFA => jcc_op(s, Cond::M),
        0xFB => int_op(s, true),
        0xFC => ccc_op(s, Cond::M),
        0xFD => call_op(s),
        0xFE => with_acc_cmp(s, s.imm8()).advanced(2),
        _ => rst_op(s, 7),
    }
}

/// Execute the instruction at PC, halt latch notwithstanding.
pub open spec fn op_step(s: CpuView) -> CpuView {
    let op = s.rd(s.regs.pc);
    if 0x40 <= op && op < 0x80 {
        mov_family(s, op)
    } else if 0x80 <= op && op < 0xC0 {
        alu_family(s, op)
    } else if op < 0x40 {
        low_family(s, op)
    } else {
        ctrl_family(s, op)
    }
}

/// One machine step: a halted machine does nothing; otherwise the
/// instruction at PC executes.
pub open spec fn step_spec(s: CpuView) -> CpuView {
    if s.halted {
        s
    } else {
        op_step(s)
    }
}

/// `n` machine steps.
pub open spec fn run_n(s: CpuView, n: nat) -> CpuView
    decreases n,
{
    if n == 0 {
        s
    } else {
        step_spec(run_n(s, (n - 1) as nat))
    }
}

/// A halted machine is a fixed point of stepping.
pub proof fn lemma_run_n_halted(s: CpuView, n: nat)
    requires
        s.halted,
    ensures
        run_n(s, n) == s,
    decreases n,
{
    if n > 0 {
        lemma_run_n_halted(s, (n - 1) as nat);
    }
}

/// Stepping `a + b` times is stepping `a` times, then `b` more.
pub proof fn lemma_run_n_add(s: CpuView, a: nat, b: nat)
    ensures
        run_n(s, a + b) == run_n(run_n(s, a), b),
    decreases b,
{
    if b > 0 {
        lemma_run_n_add(s, a, (b - 1) as nat);
        assert(a + b == (a + (b - 1) as nat) + 1);
    }
}

} // verus!
