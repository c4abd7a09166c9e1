//! Machine-checked statements of the general laws the core obeys: the PSW
//! reserved-bit rule, modular stack and program-counter arithmetic, the
//! flag characterizations of the arithmetic instructions, and the
//! round-trip identities.

use vstd::arithmetic::div_mod::lemma_mod_equivalence;
use vstd::prelude::*;

use crate::flags::{popcount, FlagRegister};
use crate::registers::{Reg, RegPair};
use crate::semantics::{
    cma_op, cmc_op, dad_op, dcr_op, dcx_sp_op, inr_op, inx_sp_op, lemma_wrap16_absorb,
    lemma_wrap16_id, pop_pair_op, pop_psw_op, push_pair_op, push_psw_op, rst_op, sphl_op,
    step_spec, with_acc_add, with_acc_cmp, with_acc_sub, with_pop, with_push, wrap16, xchg_op,
    CpuView,
};

verus! {

/// Every encoding of the flag register obeys the PSW reserved-bit rule:
/// bit 1 is set, bits 3 and 5 are clear.
pub proof fn psw_encoding_reserved_bits(f: FlagRegister)
    ensures
        f.encoded() / 2 % 2 == 1,
        f.encoded() / 8 % 2 == 0,
        f.encoded() / 32 % 2 == 0,
{
}

/// In particular the flags of any state a step reaches encode to a byte
/// with the reserved bits correct.
pub proof fn psw_reserved_after_step(s: CpuView)
    ensures
        step_spec(s).regs.f.encoded() / 2 % 2 == 1,
        step_spec(s).regs.f.encoded() / 8 % 2 == 0,
        step_spec(s).regs.f.encoded() / 32 % 2 == 0,
{
    psw_encoding_reserved_bits(step_spec(s).regs.f);
}

/// After any step the program counter stays within the 16-bit address
/// space.
pub proof fn pc_bounded_after_step(s: CpuView)
    ensures
        0 <= step_spec(s).regs.pc <= 0xFFFF,
{
}

/// All stack-pointer arithmetic is modulo 2^16.
pub proof fn sp_arithmetic_wraps(s: CpuView, v: u16)
    ensures
        with_push(s, v).regs.sp == wrap16(s.regs.sp - 2),
        with_pop(s).regs.sp == wrap16(s.regs.sp + 2),
        inx_sp_op(s).regs.sp == wrap16(s.regs.sp + 1),
        dcx_sp_op(s).regs.sp == wrap16(s.regs.sp - 1),
        sphl_op(s).regs.sp == s.hl_addr(),
{
}

/// The stored result of every arithmetic instruction is the full-width
/// computation truncated to the register's width: 8 bits for the
/// accumulator and for INR/DCR, 16 bits for DAD.
pub proof fn alu_result_truncates(s: CpuView, v: u8, k: int, r: Reg, w: u16)
    ensures
        with_acc_add(s, v, k).regs.a == (s.regs.a + v + k) % 256,
        with_acc_sub(s, v, k).regs.a == (s.regs.a - v - k) % 256,
        inr_op(s, r).regs.spec_reg(r) == (s.regs.spec_reg(r) + 1) % 256,
        dcr_op(s, r).regs.spec_reg(r) == (s.regs.spec_reg(r) - 1) % 256,
        dad_op(s, w).regs.spec_pair(RegPair::HL) == (s.hl_addr() + w) % 0x10000,
{
}

/// ADD (and ADI) set carry exactly when the wide sum exceeds 0xFF, the
/// auxiliary carry exactly when the low nibbles overflow past 0x0F, and
/// zero exactly when the truncated sum is zero.
pub proof fn add_flag_characterization(s: CpuView, v: u8)
    ensures
        with_acc_add(s, v, 0).regs.f.carry == (s.regs.a + v > 255),
        with_acc_add(s, v, 0).regs.f.aux_carry == (s.regs.a % 16 + v % 16 > 0x0F),
        with_acc_add(s, v, 0).regs.f.zero == ((s.regs.a + v) % 256 == 0),
{
}

/// The parity flag produced for a result equals "the number of set bits in
/// the result is even".
pub proof fn parity_counts_bits(f: FlagRegister, v: u8)
    ensures
        f.with_zsp(v).parity == (popcount(v as nat) % 2 == 0),
{
}

/// CMP preserves the accumulator and sets the very flags SUB would set on
/// the same operands.
pub proof fn cmp_preserves_a_flags_match_sub(s: CpuView, v: u8)
    ensures
        with_acc_cmp(s, v).regs.a == s.regs.a,
        with_acc_cmp(s, v).regs.f == with_acc_sub(s, v, 0).regs.f,
{
}

/// The two stack slots a push writes are distinct addresses, and popping
/// directly after pushing yields the pushed word with the stack pointer
/// restored.
pub proof fn stack_roundtrip(s: CpuView, v: u16)
    requires
        s.wf(),
    ensures
        crate::semantics::stack_top(with_push(s, v)) == v,
        with_pop(with_push(s, v)).regs.sp == s.regs.sp,
{
    let sp = s.regs.sp;
    lemma_wrap16_absorb(sp - 2, 1);
    lemma_wrap16_absorb(sp - 2, 2);
    lemma_wrap16_id(sp as int);
    lemma_mod_equivalence(sp - 1, sp - 2, 0x10000);
    assert(wrap16(sp - 1) != wrap16(sp - 2));
}

/// PUSH rp followed by POP rp restores the pair exactly and leaves the
/// stack pointer where it started, for every pair.
pub proof fn push_pop_restores_pair(s: CpuView, p: RegPair)
    requires
        s.wf(),
    ensures
        pop_pair_op(push_pair_op(s, p), p).regs.spec_pair(p) == s.regs.spec_pair(p),
        pop_pair_op(push_pair_op(s, p), p).regs.sp == s.regs.sp,
{
    stack_roundtrip(s, s.regs.spec_pair(p));
}

/// PUSH PSW followed by POP PSW is the identity on the accumulator and on
/// all five flags: decoding undoes encoding, so forcing the reserved bits
/// loses nothing.
pub proof fn push_pop_psw_identity(s: CpuView)
    requires
        s.wf(),
    ensures
        pop_psw_op(push_psw_op(s)).regs.a == s.regs.a,
        pop_psw_op(push_psw_op(s)).regs.f == s.regs.f,
        pop_psw_op(push_psw_op(s)).regs.sp == s.regs.sp,
{
    let w = (s.regs.a * 256 + s.regs.f.encoded()) as u16;
    stack_roundtrip(s, w);
    assert(w as int / 256 == s.regs.a);
    assert(w as int % 256 == s.regs.f.encoded());
    decode_encode_roundtrip(s.regs.f);
}

/// Decoding an encoded flag register restores it exactly, for every
/// combination of the five flags.
pub proof fn decode_encode_roundtrip(f: FlagRegister)
    ensures
        FlagRegister::decoded(f.encoded()) == f,
{
}

/// XCHG twice is the identity: the whole state is as before, with the
/// program counter simply advanced past both instructions.
pub proof fn xchg_twice_identity(s: CpuView)
    ensures
        xchg_op(xchg_op(s)) == s.advanced(2),
{
    lemma_wrap16_absorb(s.regs.pc + 1, 1);
    assert(xchg_op(xchg_op(s)).regs == s.advanced(2).regs);
}

/// CMA twice is the identity on the accumulator: the whole state is as
/// before, with the program counter advanced past both instructions.
pub proof fn cma_twice_identity(s: CpuView)
    ensures
        cma_op(cma_op(s)) == s.advanced(2),
{
    lemma_wrap16_absorb(s.regs.pc + 1, 1);
    assert(cma_op(cma_op(s)).regs == s.advanced(2).regs);
}

/// CMC toggles the carry flag and nothing else of the flags; applied twice
/// it is the identity, with the program counter advanced past both
/// instructions.
pub proof fn cmc_toggles_carry(s: CpuView)
    ensures
        cmc_op(s).regs.f == (FlagRegister { carry: !s.regs.f.carry, ..s.regs.f }),
        cmc_op(cmc_op(s)) == s.advanced(2),
{
    lemma_wrap16_absorb(s.regs.pc + 1, 1);
    assert(cmc_op(cmc_op(s)).regs == s.advanced(2).regs);
}

/// RST n pushes the address of the following instruction and jumps to
/// 8 * n; for n = 7 that is 0x0038.
pub proof fn rst_pushes_and_jumps(s: CpuView, n: int)
    requires
        s.wf(),
        0 <= n < 8,
    ensures
        rst_op(s, n).regs.pc == 8 * n,
        rst_op(s, n).regs.sp == wrap16(s.regs.sp - 2),
        rst_op(s, n).rd(wrap16(s.regs.sp - 2)) == wrap16(s.regs.pc + 1) as int % 256,
        rst_op(s, n).rd(wrap16(s.regs.sp - 1)) == wrap16(s.regs.pc + 1) as int / 256,
{
    lemma_mod_equivalence(s.regs.sp - 1, s.regs.sp - 2, 0x10000);
    assert(wrap16(s.regs.sp - 1) != wrap16(s.regs.sp - 2));
}

} // verus!
