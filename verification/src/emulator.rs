//! The 8080 interpreter: a register file, 64 KiB of memory and the two
//! latches, with a single-step primitive proved equal to `step_spec` and a
//! run-until-halt driver.

use vstd::prelude::*;

use crate::errors::EmulatorError;
use crate::flags::FlagRegister;
use crate::registers::{Reg, RegPair, Registers};
use crate::semantics::{
    alu_family, call_op, ccc_op, cma_op, cmc_op, cond_holds, ctrl_family, daa_op, dad_op,
    dcr_m_op, dcr_op, dcx_op, dcx_sp_op, hlt_op, in_op, inr_m_op, inr_op, int_op, inx_op,
    inx_sp_op, jcc_op, jmp_op, lda_op, ldax_op, lemma_run_n_add, lemma_run_n_halted,
    lemma_wrap16_id, lemma_wrap16_period, lemma_wrap8_id, lemma_wrap8_period, lhld_op, low_family,
    lxi_op, lxi_sp_op, mov_family, mov_from_m_op, mov_op, mov_to_m_op, mvi_m_op, mvi_op, nop_op,
    op_step, out_op, pchl_op, pop_pair_op, pop_psw_op, push_pair_op, push_psw_op, ral_op, rar_op,
    rcc_op, reg_of, ret_op, rlc_op, rrc_op, rst_op, run_n, shld_op, sphl_op, sta_op, stack_top,
    stax_op, stc_op, step_spec, with_acc_add, with_acc_and, with_acc_cmp, with_acc_or,
    with_acc_sub, with_acc_xor, with_pop, with_push, wrap16, wrap8, xchg_op, xthl_op, Cond,
    CpuView,
};

verus! {

/// 16-bit addition modulo 2^16.
fn wrap_add16(x: u16, y: u16) -> (r: u16)
    ensures
        r == wrap16(x + y),
{
    proof {
        if x + y < 0x10000 {
            lemma_wrap16_id(x + y);
        } else {
            lemma_wrap16_id(x + y - 0x10000);
            lemma_wrap16_period(x + y - 0x10000);
        }
    }
    x.wrapping_add(y)
}

/// 16-bit subtraction modulo 2^16.
fn wrap_sub16(x: u16, y: u16) -> (r: u16)
    ensures
        r == wrap16(x - y),
{
    proof {
        if x >= y {
            lemma_wrap16_id(x - y);
        } else {
            lemma_wrap16_id(x - y + 0x10000);
            lemma_wrap16_period(x - y);
        }
    }
    x.wrapping_sub(y)
}

/// The low byte of `a + v + k`, the wide sum reduced modulo 2^8.
fn add3_wrap8(a: u8, v: u8, k: u8) -> (r: u8)
    requires
        k <= 1,
    ensures
        r == wrap8(a + v + k),
{
    let wide: u16 = a as u16 + v as u16 + k as u16;
    proof {
        if a + v + k < 0x100 {
            lemma_wrap8_id(a + v + k);
        } else {
            lemma_wrap8_id(a + v + k - 0x100);
            lemma_wrap8_period(a + v + k - 0x100);
        }
    }
    (wide % 0x100) as u8
}

/// The low byte of `a - v - k`, the wide difference reduced modulo 2^8.
fn sub3_wrap8(a: u8, v: u8, k: u8) -> (r: u8)
    requires
        k <= 1,
    ensures
        r == wrap8(a - v - k),
{
    proof {
        if a - v >= 0 {
            lemma_wrap8_id(a - v);
        } else {
            lemma_wrap8_id(a - v + 0x100);
            lemma_wrap8_period(a - v);
        }
        let w1 = wrap8(a - v);
        if w1 - k >= 0 {
            lemma_wrap8_id(w1 - k);
        } else {
            lemma_wrap8_id(w1 - k + 0x100);
            lemma_wrap8_period(w1 - k);
        }
        if a - v < 0 {
            lemma_wrap8_period(a - v - k);
        }
    }
    a.wrapping_sub(v).wrapping_sub(k)
}

/// The register selected by a 3-bit operand field other than the memory
/// code 6.
fn reg_from_code(code: u8) -> (r: Reg)
    requires
        code < 8,
        code != 6,
    ensures
        r == reg_of(code as int),
{
    match code {
        0 => Reg::B,
        1 => Reg::C,
        2 => Reg::D,
        3 => Reg::E,
        4 => Reg::H,
        5 => Reg::L,
        _ => Reg::A,
    }
}

/// The 8080 machine: register file, 64 KiB of byte-addressable memory, and
/// the halt and interrupt-enable latches.
pub struct Intel8080 {
    pub registers: Registers,
    pub mem: Vec<u8>,
    /// Set by HLT; blocks further execution.
    pub halted: bool,
    /// Cleared by DI, set by EI; otherwise unobserved by the core.
    pub interrupts_enabled: bool,
}

impl View for Intel8080 {
    type V = CpuView;

    open spec fn view(&self) -> CpuView {
        CpuView {
            regs: self.registers,
            halted: self.halted,
            interrupts_enabled: self.interrupts_enabled,
            mem: self.mem@,
        }
    }
}

impl Intel8080 {
    /// A freshly constructed CPU: every register, flag and memory byte is
    /// zero, and both latches are clear.
    pub fn new() -> (cpu: Intel8080)
        ensures
            cpu@.wf(),
            cpu@.regs == (Registers {
                a: 0,
                f: FlagRegister {
                    sign: false,
                    zero: false,
                    aux_carry: false,
                    parity: false,
                    carry: false,
                },
                b: 0,
                c: 0,
                d: 0,
                e: 0,
                h: 0,
                l: 0,
                sp: 0,
                pc: 0,
            }),
            !cpu@.halted,
            !cpu@.interrupts_enabled,
            forall|i: int| 0 <= i < 0x10000 ==> cpu@.mem[i] == 0,
    {
        let mut mem: Vec<u8> = Vec::new();
        while mem.len() < 0x10000
            invariant
                mem@.len() <= 0x10000,
                forall|i: int| 0 <= i < mem@.len() ==> mem@[i] == 0,
            decreases 0x10000 - mem@.len(),
        {
            mem.push(0);
        }
        Intel8080 {
            registers: Registers {
                a: 0x00,
                f: FlagRegister::cleared(),
                b: 0x00,
                c: 0x00,
                d: 0x00,
                e: 0x00,
                h: 0x00,
                l: 0x00,
                sp: 0x0000,
                pc: 0x0000,
            },
            mem,
            halted: false,
            interrupts_enabled: false,
        }
    }

    /// Copy a ROM image into memory starting at address 0; the rest of
    /// memory keeps its contents. An image over 65 536 bytes is refused.
    pub fn load_rom(&mut self, rom: &Vec<u8>) -> (r: Result<(), EmulatorError>)
        requires
            old(self)@.wf(),
        ensures
            final(self)@.wf(),
            rom@.len() <= 0x10000 ==> {
                &&& r == Ok::<(), EmulatorError>(())
                &&& final(self)@.regs == old(self)@.regs
                &&& final(self)@.halted == old(self)@.halted
                &&& final(self)@.interrupts_enabled == old(self)@.interrupts_enabled
                &&& final(self)@.mem == rom@ + old(self)@.mem.skip(rom@.len() as int)
            },
            rom@.len() > 0x10000 ==> {
                &&& r == Err::<(), EmulatorError>(EmulatorError::RomTooLarge)
                &&& *final(self) == *old(self)
            },
    {
        if rom.len() > 0x10000 {
            return Err(EmulatorError::RomTooLarge);
        }
        let mut i: usize = 0;
        while i < rom.len()
            invariant
                i <= rom@.len() <= 0x10000,
                self@.mem.len() == 0x10000,
                self@.regs == old(self)@.regs,
                self@.halted == old(self)@.halted,
                self@.interrupts_enabled == old(self)@.interrupts_enabled,
                forall|j: int| 0 <= j < i ==> self@.mem[j] == rom@[j],
                forall|j: int| i <= j < 0x10000 ==> self@.mem[j] == old(self)@.mem[j],
            decreases rom@.len() - i,
        {
            self.mem[i] = rom[i];
            i = i + 1;
        }
        proof {
            assert(self@.mem =~= rom@ + old(self)@.mem.skip(rom@.len() as int));
        }
        Ok(())
    }

    /// Read the memory byte at `addr`.
    fn mem_read(&self, addr: u16) -> (v: u8)
        requires
            self@.wf(),
        ensures
            v == self@.rd(addr),
    {
        self.mem[addr as usize]
    }

    /// Write the memory byte at `addr`.
    fn mem_write(&mut self, addr: u16, v: u8)
        requires
            old(self)@.wf(),
        ensures
            final(self)@ == old(self)@.wr(addr, v),
            final(self)@.wf(),
    {
        self.mem[addr as usize] = v;
    }

    /// Advance the program counter by `val`, wrapping modulo 2^16.
    fn advance_pc(&mut self, val: u16)
        ensures
            final(self)@ == old(self)@.advanced(val as int),
    {
        self.registers.pc = wrap_add16(self.registers.pc, val);
    }

    /// The little-endian word following the opcode at PC.
    fn get_word(&self) -> (w: u16)
        requires
            self@.wf(),
        ensures
            w == self@.imm16(),
    {
        let lo = self.mem_read(wrap_add16(self.registers.pc, 1));
        let hi = self.mem_read(wrap_add16(self.registers.pc, 2));
        (hi as u16) * 256 + (lo as u16)
    }

    /// The byte following the opcode at PC.
    fn get_byte(&self) -> (b: u8)
        requires
            self@.wf(),
        ensures
            b == self@.imm8(),
    {
        self.mem_read(wrap_add16(self.registers.pc, 1))
    }

    /// NOP.
    fn nop(&mut self)
        ensures
            final(self)@ == nop_op(old(self)@),
    {
        self.advance_pc(1);
    }

    /// LXI rp,d16.
    fn lxi(&mut self, reg_pair: RegPair)
        requires
            old(self)@.wf(),
        ensures
            final(self)@ == lxi_op(old(self)@, reg_pair),
            final(self)@.wf(),
    {
        let val: u16 = self.get_word();
        self.registers.set_reg_pair(reg_pair, val);
        self.advance_pc(3);
    }

    /// LXI SP,d16.
    fn lxi_sp(&mut self)
        requires
            old(self)@.wf(),
        ensures
            final(self)@ == lxi_sp_op(old(self)@),
            final(self)@.wf(),
    {
        let val: u16 = self.get_word();
        self.registers.sp = val;
        self.advance_pc(3);
    }

    /// STAX rp.
    fn stax(&mut self, reg_pair: RegPair)
        requires
            old(self)@.wf(),
        ensures
            final(self)@ == stax_op(old(self)@, reg_pair),
            final(self)@.wf(),
    {
        let mem_addr: u16 = self.registers.get_reg_pair(reg_pair);
        let a = self.registers.a;
        self.mem_write(mem_addr, a);
        self.advance_pc(1);
    }

    /// LDAX rp.
    fn ldax(&mut self, reg_pair: RegPair)
        requires
            old(self)@.wf(),
        ensures
            final(self)@ == ldax_op(old(self)@, reg_pair),
            final(self)@.wf(),
    {
        let mem_addr: u16 = self.registers.get_reg_pair(reg_pair);
        let v = self.mem_read(mem_addr);
        self.registers.set_reg(Reg::A, v);
        self.advance_pc(1);
    }

    /// INX rp.
    fn inx(&mut self, reg_pair: RegPair)
        ensures
            final(self)@ == inx_op(old(self)@, reg_pair),
    {
        let v = wrap_add16(self.registers.get_reg_pair(reg_pair), 1);
        self.registers.set_reg_pair(reg_pair, v);
        self.advance_pc(1);
    }

    /// DCX rp.
    fn dcx(&mut self, reg_pair: RegPair)
        ensures
            final(self)@ == dcx_op(old(self)@, reg_pair),
    {
        let v = wrap_sub16(self.registers.get_reg_pair(reg_pair), 1);
        self.registers.set_reg_pair(reg_pair, v);
        self.advance_pc(1);
    }

    /// INX SP.
    fn inx_sp(&mut self)
        ensures
            final(self)@ == inx_sp_op(old(self)@),
    {
        self.registers.sp = wrap_add16(self.registers.sp, 1);
        self.advance_pc(1);
    }

    /// DCX SP.
    fn dcx_sp(&mut self)
        ensures
            final(self)@ == dcx_sp_op(old(self)@),
    {
        self.registers.sp = wrap_sub16(self.registers.sp, 1);
        self.advance_pc(1);
    }

    /// INR r.
    fn inr(&mut self, reg_name: Reg)
        ensures
            final(self)@ == inr_op(old(self)@, reg_name),
    {
        let val: u8 = self.registers.get_reg(reg_name);
        let incremented_val: u8 = add3_wrap8(val, 1, 0);
        self.registers.set_reg(reg_name, incremented_val);
        self.registers.f.set_artihmetic_flags(incremented_val);
        self.registers.f.aux_carry = val % 16 + 1 > 0x0F;
        self.advance_pc(1);
    }

    /// DCR r.
    fn dcr(&mut self, reg_name: Reg)
        ensures
            final(self)@ == dcr_op(old(self)@, reg_name),
    {
        let val: u8 = sub3_wrap8(self.registers.get_reg(reg_name), 1, 0);
        self.registers.set_reg(reg_name, val);
        self.registers.f.set_artihmetic_flags(val);
        self.registers.f.aux_carry = val % 16 != 0x0F;
        self.advance_pc(1);
    }

    /// INR M.
    fn inr_m(&mut self)
        requires
            old(self)@.wf(),
        ensures
            final(self)@ == inr_m_op(old(self)@),
            final(self)@.wf(),
    {
        let addr: u16 = self.registers.get_reg_pair(RegPair::HL);
        let val: u8 = self.mem_read(addr);
        let incremented_val: u8 = add3_wrap8(val, 1, 0);
        self.mem_write(addr, incremented_val);
        self.registers.f.set_artihmetic_flags(incremented_val);
        self.registers.f.aux_carry = val % 16 + 1 > 0x0F;
        self.advance_pc(1);
    }

    /// DCR M.
    fn dcr_m(&mut self)
        requires
            old(self)@.wf(),
        ensures
            final(self)@ == dcr_m_op(old(self)@),
            final(self)@.wf(),
    {
        let addr: u16 = self.registers.get_reg_pair(RegPair::HL);
        let val: u8 = sub3_wrap8(self.mem_read(addr), 1, 0);
        self.mem_write(addr, val);
        self.registers.f.set_artihmetic_flags(val);
        self.registers.f.aux_carry = val % 16 != 0x0F;
        self.advance_pc(1);
    }

    /// MVI r,d8.
    fn mvi(&mut self, reg_name: Reg)
        requires
            old(self)@.wf(),
        ensures
            final(self)@ == mvi_op(old(self)@, reg_name),
            final(self)@.wf(),
    {
        let b = self.get_byte();
        self.registers.set_reg(reg_name, b);
        self.advance_pc(2);
    }

    /// MVI M,d8.
    fn mvi_m(&mut self)
        requires
            old(self)@.wf(),
        ensures
            final(self)@ == mvi_m_op(old(self)@),
            final(self)@.wf(),
    {
        let addr: u16 = self.registers.get_reg_pair(RegPair::HL);
        let b = self.get_byte();
        self.mem_write(addr, b);
        self.advance_pc(2);
    }

    /// RLC.
    fn rlc(&mut self)
        ensures
            final(self)@ == rlc_op(old(self)@),
    {
        let val = self.registers.a;
        let hi = val / 128;
        self.registers.f.carry = hi == 1;
        self.registers.a = val % 128 * 2 + hi;
        self.advance_pc(1);
    }

    /// RRC.
    fn rrc(&mut self)
        ensures
            final(self)@ == rrc_op(old(self)@),
    {
        let val = self.registers.a;
        let lo = val % 2;
        self.registers.f.carry = lo == 1;
        self.registers.a = val / 2 + lo * 128;
        self.advance_pc(1);
    }

    /// RAL.
    fn ral(&mut self)
        ensures
            final(self)@ == ral_op(old(self)@),
    {
        let val = self.registers.a;
        let temp: u8 = if self.registers.f.carry {
            1
        } else {
            0
        };
        self.registers.f.carry = val / 128 == 1;
        self.registers.a = val % 128 * 2 + temp;
        self.advance_pc(1);
    }

    /// RAR.
    fn rar(&mut self)
        ensures
            final(self)@ == rar_op(old(self)@),
    {
        let val = self.registers.a;
        let temp: u8 = if self.registers.f.carry {
            1
        } else {
            0
        };
        self.registers.f.carry = val % 2 == 1;
        self.registers.a = val / 2 + temp * 128;
        self.advance_pc(1);
    }

    /// DAD with an arbitrary 16-bit operand.
    fn dad_value(&mut self, v: u16)
        ensures
            final(self)@ == dad_op(old(self)@, v),
    {
        let hl = self.registers.get_reg_pair(RegPair::HL);
        let sum: u32 = hl as u32 + v as u32;
        self.registers.set_reg_pair(RegPair::HL, (sum % 0x10000) as u16);
        self.registers.f.carry = sum > 0xFFFF;
        self.advance_pc(1);
    }

    /// DAD rp.
    fn dad(&mut self, reg_pair: RegPair)
        ensures
            final(self)@ == dad_op(old(self)@, old(self)@.regs.spec_pair(reg_pair)),
    {
        let v = self.registers.get_reg_pair(reg_pair);
        self.dad_value(v);
    }

    /// DAD SP.
    fn dad_sp(&mut self)
        ensures
            final(self)@ == dad_op(old(self)@, old(self)@.regs.sp),
    {
        let v = self.registers.sp;
        self.dad_value(v);
    }

    /// SHLD a16.
    fn shld(&mut self)
        requires
            old(self)@.wf(),
        ensures
            final(self)@ == shld_op(old(self)@),
            final(self)@.wf(),
    {
        let h = self.registers.h;
        let l = self.registers.l;
        let addr: u16 = self.get_word();
        self.mem_write(addr, l);
        self.mem_write(wrap_add16(addr, 1), h);
        self.advance_pc(3);
    }

    /// LHLD a16.
    fn lhld(&mut self)
        requires
            old(self)@.wf(),
        ensures
            final(self)@ == lhld_op(old(self)@),
            final(self)@.wf(),
    {
        let addr: u16 = self.get_word();
        let lo = self.mem_read(addr);
        let hi = self.mem_read(wrap_add16(addr, 1));
        self.registers.set_reg(Reg::L, lo);
        self.registers.set_reg(Reg::H, hi);
        self.advance_pc(3);
    }

    /// DAA.
    fn daa(&mut self)
        ensures
            final(self)@ == daa_op(old(self)@),
    {
        let a0 = self.registers.a;
        let adjust_lo = a0 % 16 > 9 || self.registers.f.aux_carry;
        self.registers.f.aux_carry = a0 % 16 > 9;
        let a1 = if adjust_lo {
            add3_wrap8(a0, 0x06, 0)
        } else {
            a0
        };
        let adjust_hi = a1 / 16 > 9 || self.registers.f.carry;
        self.registers.f.carry = self.registers.f.carry || a1 / 16 > 9;
        let a2 = if adjust_hi {
            add3_wrap8(a1, 0x60, 0)
        } else {
            a1
        };
        self.registers.a = a2;
        self.registers.f.set_artihmetic_flags(a2);
        self.advance_pc(1);
    }

    /// CMA.
    fn cma(&mut self)
        ensures
            final(self)@ == cma_op(old(self)@),
    {
        self.registers.a = 255 - self.registers.a;
        self.advance_pc(1);
    }

    /// STA a16.
    fn sta(&mut self)
        requires
            old(self)@.wf(),
        ensures
            final(self)@ == sta_op(old(self)@),
            final(self)@.wf(),
    {
        let addr: u16 = self.get_word();
        let a = self.registers.a;
        self.mem_write(addr, a);
        self.advance_pc(3);
    }

    /// LDA a16.
    fn lda(&mut self)
        requires
            old(self)@.wf(),
        ensures
            final(self)@ == lda_op(old(self)@),
            final(self)@.wf(),
    {
        let addr: u16 = self.get_word();
        let v = self.mem_read(addr);
        self.registers.set_reg(Reg::A, v);
        self.advance_pc(3);
    }

    /// STC.
    fn stc(&mut self)
        ensures
            final(self)@ == stc_op(old(self)@),
    {
        self.registers.f.carry = true;
        self.advance_pc(1);
    }

    /// CMC.
    fn cmc(&mut self)
        ensures
            final(self)@ == cmc_op(old(self)@),
    {
        self.registers.f.carry = !self.registers.f.carry;
        self.advance_pc(1);
    }

    /// MOV dst,src.
    fn mov(&mut self, dst: Reg, src: Reg)
        ensures
            final(self)@ == mov_op(old(self)@, dst, src),
    {
        let v = self.registers.get_reg(src);
        self.registers.set_reg(dst, v);
        self.advance_pc(1);
    }

    /// MOV dst,M.
    fn mov_m(&mut self, dst: Reg)
        requires
            old(self)@.wf(),
        ensures
            final(self)@ == mov_from_m_op(old(self)@, dst),
            final(self)@.wf(),
    {
        let addr: u16 = self.registers.get_reg_pair(RegPair::HL);
        let v = self.mem_read(addr);
        self.registers.set_reg(dst, v);
        self.advance_pc(1);
    }

    /// MOV M,src.
    fn mov_r(&mut self, src: Reg)
        requires
            old(self)@.wf(),
        ensures
            final(self)@ == mov_to_m_op(old(self)@, src),
            final(self)@.wf(),
    {
        let addr: u16 = self.registers.get_reg_pair(RegPair::HL);
        let v = self.registers.get_reg(src);
        self.mem_write(addr, v);
        self.advance_pc(1);
    }

    /// HLT.
    fn hlt(&mut self)
        ensures
            final(self)@ == hlt_op(old(self)@),
    {
        self.halted = true;
        self.advance_pc(1);
    }

    /// The shared tail of ADD, ADC, ADI and ACI: accumulator and flags,
    /// without the program-counter advance.
    fn alu_add(&mut self, val: u8, carry_in: u8)
        requires
            carry_in <= 1,
        ensures
            final(self)@ == with_acc_add(old(self)@, val, carry_in as int),
    {
        let reg_a: u8 = self.registers.a;
        let added_val: u8 = add3_wrap8(reg_a, val, carry_in);
        self.registers.a = added_val;
        self.registers.f.set_artihmetic_flags(added_val);
        self.registers.f.carry = reg_a as u16 + val as u16 + carry_in as u16 > 0xFF;
        self.registers.f.aux_carry = reg_a % 16 + val % 16 + carry_in > 0x0F;
    }

    /// The shared tail of SUB, SBB, SUI and SBI.
    fn alu_sub(&mut self, val: u8, borrow_in: u8)
        requires
            borrow_in <= 1,
        ensures
            final(self)@ == with_acc_sub(old(self)@, val, borrow_in as int),
    {
        let reg_a: u8 = self.registers.a;
        let subtracted_val: u8 = sub3_wrap8(reg_a, val, borrow_in);
        self.registers.a = subtracted_val;
        self.registers.f.set_artihmetic_flags(subtracted_val);
        self.registers.f.carry = val as u16 + borrow_in as u16 > reg_a as u16;
        self.registers.f.aux_carry = reg_a % 16 >= val % 16 + borrow_in;
    }

    /// The shared tail of CMP and CPI: the flags of a subtraction with the
    /// accumulator preserved.
    fn alu_cmp(&mut self, val: u8)
        ensures
            final(self)@ == with_acc_cmp(old(self)@, val),
    {
        let reg_a: u8 = self.registers.a;
        let subtracted_val: u8 = sub3_wrap8(reg_a, val, 0);
        self.registers.f.set_artihmetic_flags(subtracted_val);
        self.registers.f.carry = val > reg_a;
        self.registers.f.aux_carry = reg_a % 16 >= val % 16;
    }

    /// The shared tail of ANA and ANI.
    fn alu_and(&mut self, val: u8)
        ensures
            final(self)@ == with_acc_and(old(self)@, val),
    {
        let reg_a: u8 = self.registers.a;
        let r: u8 = reg_a & val;
        self.registers.a = r;
        self.registers.f.set_artihmetic_flags(r);
        self.registers.f.carry = false;
        self.registers.f.aux_carry = ((reg_a | val) & 0x08) != 0;
    }

    /// The shared tail of XRA and XRI.
    fn alu_xor(&mut self, val: u8)
        ensures
            final(self)@ == with_acc_xor(old(self)@, val),
    {
        let reg_a: u8 = self.registers.a;
        let r: u8 = reg_a ^ val;
        self.registers.a = r;
        self.registers.f.set_artihmetic_flags(r);
        self.registers.f.carry = false;
        self.registers.f.aux_carry = false;
    }

    /// The shared tail of ORA and ORI.
    fn alu_or(&mut self, val: u8)
        ensures
            final(self)@ == with_acc_or(old(self)@, val),
    {
        let reg_a: u8 = self.registers.a;
        let r: u8 = reg_a | val;
        self.registers.a = r;
        self.registers.f.set_artihmetic_flags(r);
        self.registers.f.carry = false;
        self.registers.f.aux_carry = false;
    }

    /// ADD val.
    fn add(&mut self, val: u8)
        ensures
            final(self)@ == with_acc_add(old(self)@, val, 0).advanced(1),
    {
        self.alu_add(val, 0);
        self.advance_pc(1);
    }

    /// ADC val.
    fn adc(&mut self, val: u8)
        ensures
            final(self)@ == with_acc_add(
                old(self)@,
                val,
                if old(self)@.regs.f.carry {
                    1int
                } else {
                    0int
                },
            ).advanced(1),
    {
        let carry: u8 = if self.registers.f.carry {
            1
        } else {
            0
        };
        self.alu_add(val, carry);
        self.advance_pc(1);
    }

    /// SUB val.
    fn sub(&mut self, val: u8)
        ensures
            final(self)@ == with_acc_sub(old(self)@, val, 0).advanced(1),
    {
        self.alu_sub(val, 0);
        self.advance_pc(1);
    }

    /// SBB val.
    fn sbb(&mut self, val: u8)
        ensures
            final(self)@ == with_acc_sub(
                old(self)@,
                val,
                if old(self)@.regs.f.carry {
                    1int
                } else {
                    0int
                },
            ).advanced(1),
    {
        let carry: u8 = if self.registers.f.carry {
            1
        } else {
            0
        };
        self.alu_sub(val, carry);
        self.advance_pc(1);
    }

    /// Whether the branch condition holds of the current flags.
    fn cond_check(&self, c: Cond) -> (b: bool)
        ensures
            b == cond_holds(self@.regs.f, c),
    {
        match c {
            Cond::NZ => !self.registers.f.zero,
            Cond::Z => self.registers.f.zero,
            Cond::NC => !self.registers.f.carry,
            Cond::C => self.registers.f.carry,
            Cond::PO => !self.registers.f.parity,
            Cond::PE => self.registers.f.parity,
            Cond::P => !self.registers.f.sign,
            Cond::M => self.registers.f.sign,
        }
    }

    /// Push a 16-bit word onto the stack.
    fn push16(&mut self, v: u16)
        requires
            old(self)@.wf(),
        ensures
            final(self)@ == with_push(old(self)@, v),
            final(self)@.wf(),
    {
        let sp = self.registers.sp;
        self.mem_write(wrap_sub16(sp, 1), (v / 256) as u8);
        self.mem_write(wrap_sub16(sp, 2), (v % 256) as u8);
        self.registers.sp = wrap_sub16(sp, 2);
    }

    /// Pop a 16-bit word off the stack.
    fn pop16(&mut self) -> (w: u16)
        requires
            old(self)@.wf(),
        ensures
            w == stack_top(old(self)@),
            final(self)@ == with_pop(old(self)@),
            final(self)@.wf(),
    {
        let sp = self.registers.sp;
        let lo = self.mem_read(sp);
        let hi = self.mem_read(wrap_add16(sp, 1));
        self.registers.sp = wrap_add16(sp, 2);
        (hi as u16) * 256 + (lo as u16)
    }

    /// JMP a16.
    fn jmp(&mut self)
        requires
            old(self)@.wf(),
        ensures
            final(self)@ == jmp_op(old(self)@),
            final(self)@.wf(),
    {
        let target = self.get_word();
        self.registers.pc = target;
    }

    /// Jcc a16.
    fn jcc(&mut self, c: Cond)
        requires
            old(self)@.wf(),
        ensures
            final(self)@ == jcc_op(old(self)@, c),
            final(self)@.wf(),
    {
        if self.cond_check(c) {
            self.jmp();
        } else {
            self.advance_pc(3);
        }
    }

    /// CALL a16.
    fn call(&mut self)
        requires
            old(self)@.wf(),
        ensures
            final(self)@ == call_op(old(self)@),
            final(self)@.wf(),
    {
        let target = self.get_word();
        let ret_addr = wrap_add16(self.registers.pc, 3);
        self.push16(ret_addr);
        self.registers.pc = target;
    }

    /// Ccc a16.
    fn ccc(&mut self, c: Cond)
        requires
            old(self)@.wf(),
        ensures
            final(self)@ == ccc_op(old(self)@, c),
            final(self)@.wf(),
    {
        if self.cond_check(c) {
            self.call();
        } else {
            self.advance_pc(3);
        }
    }

    /// RET.
    fn ret(&mut self)
        requires
            old(self)@.wf(),
        ensures
            final(self)@ == ret_op(old(self)@),
            final(self)@.wf(),
    {
        let target = self.pop16();
        self.registers.pc = target;
    }

    /// Rcc.
    fn rcc(&mut self, c: Cond)
        requires
            old(self)@.wf(),
        ensures
            final(self)@ == rcc_op(old(self)@, c),
            final(self)@.wf(),
    {
        if self.cond_check(c) {
            self.ret();
        } else {
            self.advance_pc(1);
        }
    }

    /// RST n: push the next address and jump to 8 * n.
    fn rst(&mut self, n: u8)
        requires
            old(self)@.wf(),
            n < 8,
        ensures
            final(self)@ == rst_op(old(self)@, n as int),
            final(self)@.wf(),
    {
        let ret_addr = wrap_add16(self.registers.pc, 1);
        self.push16(ret_addr);
        self.registers.pc = 8 * n as u16;
    }

    /// PUSH rp.
    fn push_pair(&mut self, reg_pair: RegPair)
        requires
            old(self)@.wf(),
        ensures
            final(self)@ == push_pair_op(old(self)@, reg_pair),
            final(self)@.wf(),
    {
        let v = self.registers.get_reg_pair(reg_pair);
        self.push16(v);
        self.advance_pc(1);
    }

    /// POP rp.
    fn pop_pair(&mut self, reg_pair: RegPair)
        requires
            old(self)@.wf(),
        ensures
            final(self)@ == pop_pair_op(old(self)@, reg_pair),
            final(self)@.wf(),
    {
        let w = self.pop16();
        self.registers.set_reg_pair(reg_pair, w);
        self.advance_pc(1);
    }

    /// PUSH PSW: the accumulator above the encoded flag byte.
    fn push_psw(&mut self)
        requires
            old(self)@.wf(),
        ensures
            final(self)@ == push_psw_op(old(self)@),
            final(self)@.wf(),
    {
        let v: u16 = (self.registers.a as u16) * 256 + (self.registers.f.encode() as u16);
        self.push16(v);
        self.advance_pc(1);
    }

    /// POP PSW: the accumulator from the high byte, the flags decoded from
    /// the low byte.
    fn pop_psw(&mut self)
        requires
            old(self)@.wf(),
        ensures
            final(self)@ == pop_psw_op(old(self)@),
            final(self)@.wf(),
    {
        let w = self.pop16();
        self.registers.a = (w / 256) as u8;
        self.registers.f = FlagRegister::decode((w % 256) as u8);
        self.advance_pc(1);
    }

    /// XTHL: exchange HL with the word on top of the stack.
    fn xthl(&mut self)
        requires
            old(self)@.wf(),
        ensures
            final(self)@ == xthl_op(old(self)@),
            final(self)@.wf(),
    {
        let sp = self.registers.sp;
        let sp1 = wrap_add16(sp, 1);
        let stack_lo = self.mem_read(sp);
        let stack_hi = self.mem_read(sp1);
        let l = self.registers.l;
        let h = self.registers.h;
        self.mem_write(sp, l);
        self.mem_write(sp1, h);
        self.registers.h = stack_hi;
        self.registers.l = stack_lo;
        self.advance_pc(1);
    }

    /// XCHG: exchange DE with HL.
    fn xchg(&mut self)
        ensures
            final(self)@ == xchg_op(old(self)@),
    {
        let d = self.registers.d;
        let e = self.registers.e;
        self.registers.d = self.registers.h;
        self.registers.e = self.registers.l;
        self.registers.h = d;
        self.registers.l = e;
        self.advance_pc(1);
    }

    /// PCHL.
    fn pchl(&mut self)
        ensures
            final(self)@ == pchl_op(old(self)@),
    {
        self.registers.pc = self.registers.get_reg_pair(RegPair::HL);
    }

    /// SPHL.
    fn sphl(&mut self)
        ensures
            final(self)@ == sphl_op(old(self)@),
    {
        self.registers.sp = self.registers.get_reg_pair(RegPair::HL);
        self.advance_pc(1);
    }

    /// DI / EI.
    fn set_interrupts(&mut self, enabled: bool)
        ensures
            final(self)@ == int_op(old(self)@, enabled),
    {
        self.interrupts_enabled = enabled;
        self.advance_pc(1);
    }

    /// IN d8 with no port handler attached: the accumulator reads 0.
    fn in_default(&mut self)
        ensures
            final(self)@ == in_op(old(self)@),
    {
        self.registers.a = 0;
        self.advance_pc(2);
    }

    /// OUT d8 with no port handler attached: the value is discarded.
    fn out_default(&mut self)
        ensures
            final(self)@ == out_op(old(self)@),
    {
        self.advance_pc(2);
    }

    /// Opcodes 0x40..0x7F: the MOV block and HLT.
    fn exec_mov_group(&mut self, op: u8)
        requires
            old(self)@.wf(),
            0x40 <= op < 0x80,
        ensures
            final(self)@ == mov_family(old(self)@, op),
            final(self)@.wf(),
    {
        if op == 0x76 {
            self.hlt();
        } else {
            let dst = (op - 0x40) / 8;
            let src = op % 8;
            if dst == 6 {
                self.mov_r(reg_from_code(src));
            } else if src == 6 {
                self.mov_m(reg_from_code(dst));
            } else {
                self.mov(reg_from_code(dst), reg_from_code(src));
            }
        }
    }

    /// Opcodes 0x80..0xBF: accumulator arithmetic and logic on a register
    /// or memory operand.
    fn exec_alu_group(&mut self, op: u8)
        requires
            old(self)@.wf(),
            0x80 <= op < 0xC0,
        ensures
            final(self)@ == alu_family(old(self)@, op),
            final(self)@.wf(),
    {
        let idx = op % 8;
        let v: u8 = if idx == 6 {
            let addr = self.registers.get_reg_pair(RegPair::HL);
            self.mem_read(addr)
        } else {
            self.registers.get_reg(reg_from_code(idx))
        };
        let sel = (op - 0x80) / 8;
        if sel == 0 {
            self.add(v);
        } else if sel == 1 {
            self.adc(v);
        } else if sel == 2 {
            self.sub(v);
        } else if sel == 3 {
            self.sbb(v);
        } else if sel == 4 {
            self.alu_and(v);
            self.advance_pc(1);
        } else if sel == 5 {
            self.alu_xor(v);
            self.advance_pc(1);
        } else if sel == 6 {
            self.alu_or(v);
            self.advance_pc(1);
        } else {
            self.alu_cmp(v);
            self.advance_pc(1);
        }
    }

    /// Opcodes 0x00..0x3F.
    fn exec_low_group(&mut self, op: u8)
        requires
            old(self)@.wf(),
            op < 0x40,
        ensures
            final(self)@ == low_family(old(self)@, op),
            final(self)@.wf(),
    {
        match op {
            0x00 => self.nop(),
            0x01 => self.lxi(RegPair::BC),
            0x02 => self.stax(RegPair::BC),
            0x03 => self.inx(RegPair::BC),
            0x04 => self.inr(Reg::B),
            0x05 => self.dcr(Reg::B),
            0x06 => self.mvi(Reg::B),
            0x07 => self.rlc(),
            0x08 => self.nop(),
            0x09 => self.dad(RegPair::BC),
            0x0A => self.ldax(RegPair::BC),
            0x0B => self.dcx(RegPair::BC),
            0x0C => self.inr(Reg::C),
            0x0D => self.dcr(Reg::C),
            0x0E => self.mvi(Reg::C),
            0x0F => self.rrc(),
            0x10 => self.nop(),
            0x11 => self.lxi(RegPair::DE),
            0x12 => self.stax(RegPair::DE),
            0x13 => self.inx(RegPair::DE),
            0x14 => self.inr(Reg::D),
            0x15 => self.dcr(Reg::D),
            0x16 => self.mvi(Reg::D),
            0x17 => self.ral(),
            0x18 => self.nop(),
            0x19 => self.dad(RegPair::DE),
            0x1A => self.ldax(RegPair::DE),
            0x1B => self.dcx(RegPair::DE),
            0x1C => self.inr(Reg::E),
            0x1D => self.dcr(Reg::E),
            0x1E => self.mvi(Reg::E),
            0x1F => self.rar(),
            0x20 => self.nop(),
            0x21 => self.lxi(RegPair::HL),
            0x22 => self.shld(),
            0x23 => self.inx(RegPair::HL),
            0x24 => self.inr(Reg::H),
            0x25 => self.dcr(Reg::H),
            0x26 => self.mvi(Reg::H),
            0x27 => self.daa(),
            0x28 => self.nop(),
            0x29 => self.dad(RegPair::HL),
            0x2A => self.lhld(),
            0x2B => self.dcx(RegPair::HL),
            0x2C => self.inr(Reg::L),
            0x2D => self.dcr(Reg::L),
            0x2E => self.mvi(Reg::L),
            0x2F => self.cma(),
            0x30 => self.nop(),
            0x31 => self.lxi_sp(),
            0x32 => self.sta(),
            0x33 => self.inx_sp(),
            0x34 => self.inr_m(),
            0x35 => self.dcr_m(),
            0x36 => self.mvi_m(),
            0x37 => self.stc(),
            0x38 => self.nop(),
            0x39 => self.dad_sp(),
            0x3A => self.lda(),
            0x3B => self.dcx_sp(),
            0x3C => self.inr(Reg::A),
            0x3D => self.dcr(Reg::A),
            0x3E => self.mvi(Reg::A),
            _ => self.cmc(),
        }
    }

    /// Opcodes 0xC0..0xFF.
    fn exec_ctrl_group(&mut self, op: u8)
        requires
            old(self)@.wf(),
            0xC0 <= op,
        ensures
            final(self)@ == ctrl_family(old(self)@, op),
            final(self)@.wf(),
    {
        match op {
            0xC0 => self.rcc(Cond::NZ),
            0xC1 => self.pop_pair(RegPair::BC),
            0xC2 => self.jcc(Cond::NZ),
            0xC3 => self.jmp(),
            0xC4 => self.ccc(Cond::NZ),
            0xC5 => self.push_pair(RegPair::BC),
            0xC6 => {
                let b = self.get_byte();
                self.alu_add(b, 0);
                self.advance_pc(2);
            },
            0xC7 => self.rst(0),
            0xC8 => self.rcc(Cond::Z),
            0xC9 => self.ret(),
            0xCA => self.jcc(Cond::Z),
            0xCB => self.jmp(),
            0xCC => self.ccc(Cond::Z),
            0xCD => self.call(),
            0xCE => {
                let b = self.get_byte();
                let carry: u8 = if self.registers.f.carry {
                    1
                } else {
                    0
                };
                self.alu_add(b, carry);
                self.advance_pc(2);
            },
            0xCF => self.rst(1),
            0xD0 => self.rcc(Cond::NC),
            0xD1 => self.pop_pair(RegPair::DE),
            0xD2 => self.jcc(Cond::NC),
            0xD3 => self.out_default(),
            0xD4 => self.ccc(Cond::NC),
            0xD5 => self.push_pair(RegPair::DE),
            0xD6 => {
                let b = self.get_byte();
                self.alu_sub(b, 0);
                self.advance_pc(2);
            },
            0xD7 => self.rst(2),
            0xD8 => self.rcc(Cond::C),
            0xD9 => self.ret(),
            0xDA => self.jcc(Cond::C),
            0xDB => self.in_default(),
            0xDC => self.ccc(Cond::C),
            0xDD => self.call(),
            0xDE => {
                let b = self.get_byte();
                let carry: u8 = if self.registers.f.carry {
                    1
                } else {
                    0
                };
                self.alu_sub(b, carry);
                self.advance_pc(2);
            },
            0xDF => self.rst(3),
            0xE0 => self.rcc(Cond::PO),
            0xE1 => self.pop_pair(RegPair::HL),
            0xE2 => self.jcc(Cond::PO),
            0xE3 => self.xthl(),
            0xE4 => self.ccc(Cond::PO),
            0xE5 => self.push_pair(RegPair::HL),
            0xE6 => {
                let b = self.get_byte();
                self.alu_and(b);
                self.advance_pc(2);
            },
            0xE7 => self.rst(4),
            0xE8 => self.rcc(Cond::PE),
            0xE9 => self.pchl(),
            0xEA => self.jcc(Cond::PE),
            0xEB => self.xchg(),
            0xEC => self.ccc(Cond::PE),
            0xED => self.call(),
            0xEE => {
                let b = self.get_byte();
                self.alu_xor(b);
                self.advance_pc(2);
            },
            0xEF => self.rst(5),
            0xF0 => self.rcc(Cond::P),
            0xF1 => self.pop_psw(),
            0xF2 => self.jcc(Cond::P),
            0xF3 => self.set_interrupts(false),
            0xF4 => self.ccc(Cond::P),
            0xF5 => self.push_psw(),
            0xF6 => {
                let b = self.get_byte();
                self.alu_or(b);
                self.advance_pc(2);
            },
            0xF7 => self.rst(6),
            0xF8 => self.rcc(Cond::M),
            0xF9 => self.sphl(),
            0xFA => self.jcc(Cond::M),
            0xFB => self.set_interrupts(true),
            0xFC => self.ccc(Cond::M),
            0xFD => self.call(),
            0xFE => {
                let b = self.get_byte();
                self.alu_cmp(b);
                self.advance_pc(2);
            },
            _ => self.rst(7),
        }
    }

    /// Fetch the opcode at PC, dispatch and execute it, halt latch
    /// notwithstanding.
    pub fn exec_opcode(&mut self)
        requires
            old(self)@.wf(),
        ensures
            final(self)@ == op_step(old(self)@),
            final(self)@.wf(),
    {
        let op = self.mem_read(self.registers.pc);
        if 0x40 <= op && op < 0x80 {
            self.exec_mov_group(op);
        } else if 0x80 <= op && op < 0xC0 {
            self.exec_alu_group(op);
        } else if op < 0x40 {
            self.exec_low_group(op);
        } else {
            self.exec_ctrl_group(op);
        }
    }

    /// One machine step: a no-op on a halted machine, otherwise one full
    /// instruction.
    pub fn step(&mut self)
        requires
            old(self)@.wf(),
        ensures
            final(self)@ == step_spec(old(self)@),
            final(self)@.wf(),
    {
        if !self.halted {
            self.exec_opcode();
        }
    }

    /// Run until the halt latch is set, but at most `max_steps`
    /// instructions: the final state is exactly `max_steps` machine steps
    /// from the starting one (a halted machine is a fixed point of
    /// stepping, so stopping at the halt early changes nothing). Returns
    /// whether the machine has halted.
    pub fn emulate(&mut self, max_steps: u64) -> (halted: bool)
        requires
            old(self)@.wf(),
        ensures
            final(self)@.wf(),
            final(self)@ == run_n(old(self)@, max_steps as nat),
            halted == final(self)@.halted,
    {
        let mut steps: u64 = 0;
        while steps < max_steps && !self.halted
            invariant
                steps <= max_steps,
                self@.wf(),
                self@ == run_n(old(self)@, steps as nat),
            decreases max_steps - steps,
        {
            self.exec_opcode();
            steps = steps + 1;
        }
        proof {
            if self@.halted {
                lemma_run_n_add(old(self)@, steps as nat, (max_steps - steps) as nat);
                lemma_run_n_halted(self@, (max_steps - steps) as nat);
            }
        }
        self.halted
    }
}

} // verus!
