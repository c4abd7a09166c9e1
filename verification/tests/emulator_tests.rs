use intel8080::emulator::Intel8080;
use intel8080::errors::{get_err_msg, EmulatorError};
use intel8080::flags::FlagRegister;
use intel8080::registers::{Reg, RegPair};

fn cpu_with_rom(rom: &[u8]) -> Intel8080 {
    let mut cpu = Intel8080::new();
    let rom_vec: Vec<u8> = rom.to_vec();
    cpu.load_rom(&rom_vec).expect("ROM fits in memory");
    cpu
}

fn run_rom(rom: &[u8]) -> Intel8080 {
    let mut cpu = cpu_with_rom(rom);
    let halted = cpu.emulate(10_000);
    assert!(halted, "program should halt");
    cpu
}

#[test]
fn new_cpu_is_zeroed() {
    let cpu = Intel8080::new();
    assert_eq!(cpu.registers.a, 0);
    assert_eq!(cpu.registers.b, 0);
    assert_eq!(cpu.registers.sp, 0);
    assert_eq!(cpu.registers.pc, 0);
    assert!(!cpu.halted);
    assert!(!cpu.interrupts_enabled);
    assert_eq!(cpu.mem.len(), 0x10000);
    assert!(cpu.mem.iter().all(|&b| b == 0));
}

#[test]
fn load_rom_rejects_oversized_image() {
    let mut cpu = Intel8080::new();
    let rom = vec![0u8; 0x10001];
    assert_eq!(cpu.load_rom(&rom), Err(EmulatorError::RomTooLarge));
    // A full-sized image is fine.
    let rom = vec![0x76u8; 0x10000];
    assert_eq!(cpu.load_rom(&rom), Ok(()));
    assert_eq!(cpu.mem[0xFFFF], 0x76);
}

#[test]
fn register_pairs_pack_big_endian() {
    let mut cpu = Intel8080::new();
    cpu.registers.set_reg_pair(RegPair::BC, 0x1234);
    assert_eq!(cpu.registers.b, 0x12);
    assert_eq!(cpu.registers.c, 0x34);
    assert_eq!(cpu.registers.get_reg_pair(RegPair::BC), 0x1234);
    cpu.registers.set_reg(Reg::H, 0xAB);
    cpu.registers.set_reg(Reg::L, 0xCD);
    assert_eq!(cpu.registers.get_reg_pair(RegPair::HL), 0xABCD);
    assert_eq!(cpu.registers.get_reg(Reg::H), 0xAB);
}

#[test]
fn flag_encode_decode_round_trips_all_combinations() {
    for bits in 0..32u8 {
        let f = FlagRegister {
            sign: bits & 1 != 0,
            zero: bits & 2 != 0,
            aux_carry: bits & 4 != 0,
            parity: bits & 8 != 0,
            carry: bits & 16 != 0,
        };
        let encoded = f.encode();
        // Reserved bits: bit 5 = 0, bit 3 = 0, bit 1 = 1.
        assert_eq!(encoded & 0b0010_1000, 0);
        assert_eq!(encoded & 0b0000_0010, 0b0000_0010);
        assert_eq!(FlagRegister::decode(encoded), f);
    }
}

#[test]
fn parity_flag_counts_set_bits() {
    let f = FlagRegister::cleared();
    for v in 0..=255u8 {
        let expected = v.count_ones() % 2 == 0;
        assert_eq!(f.check_parity(v), expected, "parity of {v:#04x}");
    }
}

#[test]
fn set_artihmetic_flags_leaves_carries_alone() {
    let mut f = FlagRegister::cleared();
    f.carry = true;
    f.aux_carry = true;
    f.set_artihmetic_flags(0x80);
    assert!(f.sign);
    assert!(!f.zero);
    assert!(!f.parity); // one set bit: odd
    assert!(f.carry);
    assert!(f.aux_carry);
    f.set_artihmetic_flags(0x00);
    assert!(f.zero);
    assert!(f.parity); // zero set bits: even
}

#[test]
fn add_sets_carry_iff_wide_sum_overflows() {
    // ADD B with A = 200, B = 100: 300 > 255.
    let mut cpu = cpu_with_rom(&[0x80]);
    cpu.registers.a = 200;
    cpu.registers.b = 100;
    cpu.step();
    assert_eq!(cpu.registers.a, (300 % 256) as u8);
    assert!(cpu.registers.f.carry);
    assert!(!cpu.registers.f.zero);
    // ADD B with A = 3, B = 4: no carry, no aux.
    let mut cpu = cpu_with_rom(&[0x80]);
    cpu.registers.a = 3;
    cpu.registers.b = 4;
    cpu.step();
    assert_eq!(cpu.registers.a, 7);
    assert!(!cpu.registers.f.carry);
    assert!(!cpu.registers.f.aux_carry);
    // ADD B with A = 0x0F, B = 0x01: aux carry from the low nibble.
    let mut cpu = cpu_with_rom(&[0x80]);
    cpu.registers.a = 0x0F;
    cpu.registers.b = 0x01;
    cpu.step();
    assert_eq!(cpu.registers.a, 0x10);
    assert!(cpu.registers.f.aux_carry);
    assert!(!cpu.registers.f.carry);
    // ADD B with A = 128, B = 128: result wraps to zero.
    let mut cpu = cpu_with_rom(&[0x80]);
    cpu.registers.a = 128;
    cpu.registers.b = 128;
    cpu.step();
    assert_eq!(cpu.registers.a, 0);
    assert!(cpu.registers.f.zero);
    assert!(cpu.registers.f.carry);
}

#[test]
fn cmp_preserves_a_and_matches_sub_flags() {
    for &(a, b) in &[(5u8, 9u8), (9, 5), (7, 7), (0, 255), (0x10, 0x01)] {
        // SUB B.
        let mut sub_cpu = cpu_with_rom(&[0x90]);
        sub_cpu.registers.a = a;
        sub_cpu.registers.b = b;
        sub_cpu.step();
        // CMP B.
        let mut cmp_cpu = cpu_with_rom(&[0xB8]);
        cmp_cpu.registers.a = a;
        cmp_cpu.registers.b = b;
        cmp_cpu.step();
        assert_eq!(cmp_cpu.registers.a, a, "CMP must preserve A");
        assert_eq!(cmp_cpu.registers.f, sub_cpu.registers.f, "flags for {a} vs {b}");
    }
}

#[test]
fn push_pop_restores_every_pair() {
    // LXI SP,0x2000; PUSH B; POP D.
    let mut cpu = cpu_with_rom(&[0x31, 0x00, 0x20, 0xC5, 0xD1]);
    cpu.registers.set_reg_pair(RegPair::BC, 0xBEEF);
    cpu.step();
    cpu.step();
    assert_eq!(cpu.registers.sp, 0x1FFE);
    cpu.step();
    assert_eq!(cpu.registers.get_reg_pair(RegPair::DE), 0xBEEF);
    assert_eq!(cpu.registers.sp, 0x2000);
    // PUSH H; POP H round trip.
    let mut cpu = cpu_with_rom(&[0x31, 0x00, 0x20, 0xE5, 0xE1]);
    cpu.registers.set_reg_pair(RegPair::HL, 0x1234);
    cpu.step();
    cpu.step();
    cpu.registers.set_reg_pair(RegPair::HL, 0);
    cpu.step();
    assert_eq!(cpu.registers.get_reg_pair(RegPair::HL), 0x1234);
}

#[test]
fn push_pop_psw_is_identity_on_a_and_flags() {
    // LXI SP,0x2000; PUSH PSW; POP PSW.
    let mut cpu = cpu_with_rom(&[0x31, 0x00, 0x20, 0xF5, 0xF1]);
    cpu.registers.a = 0x5A;
    cpu.registers.f = FlagRegister {
        sign: true,
        zero: false,
        aux_carry: true,
        parity: false,
        carry: true,
    };
    let saved = cpu.registers.f;
    cpu.step();
    cpu.step();
    cpu.registers.a = 0;
    cpu.registers.f = FlagRegister::cleared();
    cpu.step();
    assert_eq!(cpu.registers.a, 0x5A);
    assert_eq!(cpu.registers.f, saved);
}

#[test]
fn xchg_twice_is_identity() {
    // XCHG; XCHG.
    let mut cpu = cpu_with_rom(&[0xEB, 0xEB]);
    cpu.registers.set_reg_pair(RegPair::DE, 0x1122);
    cpu.registers.set_reg_pair(RegPair::HL, 0x3344);
    cpu.step();
    assert_eq!(cpu.registers.get_reg_pair(RegPair::DE), 0x3344);
    assert_eq!(cpu.registers.get_reg_pair(RegPair::HL), 0x1122);
    cpu.step();
    assert_eq!(cpu.registers.get_reg_pair(RegPair::DE), 0x1122);
    assert_eq!(cpu.registers.get_reg_pair(RegPair::HL), 0x3344);
    assert_eq!(cpu.registers.pc, 2);
}

#[test]
fn cma_twice_is_identity_on_a() {
    // CMA; CMA.
    let mut cpu = cpu_with_rom(&[0x2F, 0x2F]);
    cpu.registers.a = 0x5A;
    cpu.step();
    assert_eq!(cpu.registers.a, 0xA5);
    cpu.step();
    assert_eq!(cpu.registers.a, 0x5A);
}

#[test]
fn cmc_toggles_carry_twice_is_identity() {
    // CMC; CMC.
    let mut cpu = cpu_with_rom(&[0x3F, 0x3F]);
    assert!(!cpu.registers.f.carry);
    cpu.step();
    assert!(cpu.registers.f.carry);
    cpu.step();
    assert!(!cpu.registers.f.carry);
}

#[test]
fn inx_wraps_at_ffff_without_touching_flags() {
    // STC; LXI H,0xFFFF; INX H.
    let mut cpu = cpu_with_rom(&[0x37, 0x21, 0xFF, 0xFF, 0x23]);
    cpu.step();
    cpu.step();
    let flags_before = cpu.registers.f;
    cpu.step();
    assert_eq!(cpu.registers.get_reg_pair(RegPair::HL), 0x0000);
    assert_eq!(cpu.registers.f, flags_before);
    assert!(cpu.registers.f.carry);
}

#[test]
fn dcr_at_zero_wraps_to_ff() {
    // MVI B,0x00; DCR B.
    let mut cpu = cpu_with_rom(&[0x06, 0x00, 0x05]);
    cpu.step();
    cpu.step();
    assert_eq!(cpu.registers.b, 0xFF);
    assert!(cpu.registers.f.sign);
    assert!(!cpu.registers.f.zero);
    assert!(cpu.registers.f.parity); // eight set bits: even
    assert!(!cpu.registers.f.aux_carry); // (0xFF & 0x0F) == 0xF: borrow
}

#[test]
fn rlc_on_80_sets_carry_and_wraps_bit() {
    // MVI A,0x80; RLC.
    let mut cpu = cpu_with_rom(&[0x3E, 0x80, 0x07]);
    cpu.step();
    cpu.step();
    assert_eq!(cpu.registers.a, 0x01);
    assert!(cpu.registers.f.carry);
}

#[test]
fn rar_on_01_with_clear_carry() {
    // MVI A,0x01; RAR.
    let mut cpu = cpu_with_rom(&[0x3E, 0x01, 0x1F]);
    cpu.step();
    cpu.step();
    assert_eq!(cpu.registers.a, 0x00);
    assert!(cpu.registers.f.carry);
}

#[test]
fn daa_boundary_case() {
    // MVI A,0x9B; DAA.
    let mut cpu = cpu_with_rom(&[0x3E, 0x9B, 0x27]);
    cpu.step();
    assert!(!cpu.registers.f.carry);
    assert!(!cpu.registers.f.aux_carry);
    cpu.step();
    assert_eq!(cpu.registers.a, 0x01);
    assert!(cpu.registers.f.carry);
    assert!(cpu.registers.f.aux_carry);
}

#[test]
fn rst_7_pushes_return_address_and_jumps() {
    // LXI SP,0x2000; RST 7.
    let mut cpu = cpu_with_rom(&[0x31, 0x00, 0x20, 0xFF]);
    cpu.step();
    cpu.step();
    assert_eq!(cpu.registers.pc, 0x0038);
    assert_eq!(cpu.registers.sp, 0x1FFE);
    // The pushed word is the address after the RST: 0x0004.
    assert_eq!(cpu.mem[0x1FFE], 0x04);
    assert_eq!(cpu.mem[0x1FFF], 0x00);
}

#[test]
fn mvi_add_hlt_program() {
    // MVI A,0x42; MVI B,0x10; ADD B; HLT.
    let cpu = run_rom(&[0x3E, 0x42, 0x06, 0x10, 0x80, 0x76]);
    assert_eq!(cpu.registers.a, 0x52);
    assert_eq!(cpu.registers.b, 0x10);
    assert!(!cpu.registers.f.zero);
    assert!(!cpu.registers.f.sign);
    assert!(!cpu.registers.f.carry);
    assert!(!cpu.registers.f.aux_carry);
    // 0x52 has three set bits, so the parity flag (even parity) is clear.
    assert!(!cpu.registers.f.parity);
    // PC rests one past the HLT at address 5.
    assert_eq!(cpu.registers.pc, 0x0006);
}

#[test]
fn adi_overflow_program() {
    // MVI A,0xFF; ADI 0x01; HLT.
    let cpu = run_rom(&[0x3E, 0xFF, 0xC6, 0x01, 0x76]);
    assert_eq!(cpu.registers.a, 0x00);
    assert!(cpu.registers.f.zero);
    assert!(!cpu.registers.f.sign);
    assert!(cpu.registers.f.parity);
    assert!(cpu.registers.f.carry);
    assert!(cpu.registers.f.aux_carry);
}

#[test]
fn lxi_mov_ora_program() {
    // LXI H,0x1234; MOV A,H; ORA L; HLT.
    let cpu = run_rom(&[0x21, 0x34, 0x12, 0x7C, 0xB5, 0x76]);
    assert_eq!(cpu.registers.h, 0x12);
    assert_eq!(cpu.registers.l, 0x34);
    assert_eq!(cpu.registers.a, 0x36);
    assert!(!cpu.registers.f.zero);
    assert!(!cpu.registers.f.carry);
    assert!(!cpu.registers.f.aux_carry);
    assert!(cpu.registers.f.parity);
}

#[test]
fn call_ret_program() {
    // LXI SP,0x2000; CALL 0x0008; HLT; then at 0x0008: MVI A,0x07; RET.
    let cpu = run_rom(&[0x31, 0x00, 0x20, 0xCD, 0x08, 0x00, 0x76, 0x00, 0x3E, 0x07, 0xC9]);
    assert_eq!(cpu.registers.a, 0x07);
    assert_eq!(cpu.registers.sp, 0x2000);
    assert_eq!(cpu.registers.pc, 0x0007);
    // The return-address bytes pushed by the CALL are still in memory.
    assert_eq!(cpu.mem[0x1FFE], 0x06);
    assert_eq!(cpu.mem[0x1FFF], 0x00);
}

#[test]
fn daa_program() {
    // MVI A,0x9B; DAA; HLT.
    let cpu = run_rom(&[0x3E, 0x9B, 0x27, 0x76]);
    assert_eq!(cpu.registers.a, 0x01);
    assert!(cpu.registers.f.carry);
    assert!(cpu.registers.f.aux_carry);
    assert!(!cpu.registers.f.zero);
    assert!(!cpu.registers.f.sign);
    assert!(!cpu.registers.f.parity);
}

#[test]
fn sp_arithmetic_wraps_modulo_2_16() {
    // DCX SP at 0x0000 wraps to 0xFFFF; INX SP back to 0x0000.
    let mut cpu = cpu_with_rom(&[0x3B, 0x33]);
    cpu.step();
    assert_eq!(cpu.registers.sp, 0xFFFF);
    cpu.step();
    assert_eq!(cpu.registers.sp, 0x0000);
}

#[test]
fn step_on_halted_machine_is_a_noop() {
    let mut cpu = cpu_with_rom(&[0x76, 0x04]);
    cpu.step();
    assert!(cpu.halted);
    let pc = cpu.registers.pc;
    let b = cpu.registers.b;
    cpu.step();
    assert_eq!(cpu.registers.pc, pc);
    assert_eq!(cpu.registers.b, b);
}

#[test]
fn undocumented_opcodes_alias_documented_ones() {
    // NOP* (0x08), JMP* (0xCB) to 0x0005, RET* (0xD9) path: just check
    // NOP* and JMP* here.
    let mut cpu = cpu_with_rom(&[0x08, 0xCB, 0x05, 0x00, 0x00, 0x76]);
    cpu.step();
    assert_eq!(cpu.registers.pc, 1);
    cpu.step();
    assert_eq!(cpu.registers.pc, 5);
    cpu.step();
    assert!(cpu.halted);
}

#[test]
fn di_ei_toggle_interrupt_latch() {
    // EI; DI.
    let mut cpu = cpu_with_rom(&[0xFB, 0xF3]);
    cpu.step();
    assert!(cpu.interrupts_enabled);
    cpu.step();
    assert!(!cpu.interrupts_enabled);
}

#[test]
fn in_reads_zero_out_discards() {
    // MVI A,0x55; IN 0x10; OUT 0x20.
    let mut cpu = cpu_with_rom(&[0x3E, 0x55, 0xDB, 0x10, 0xD3, 0x20]);
    cpu.step();
    cpu.step();
    assert_eq!(cpu.registers.a, 0x00);
    assert_eq!(cpu.registers.pc, 4);
    cpu.step();
    assert_eq!(cpu.registers.pc, 6);
}

#[test]
fn memory_operand_instructions_use_hl() {
    // LXI H,0x1000; MVI M,0x21; INR M; MOV A,M; HLT.
    let cpu = run_rom(&[0x21, 0x00, 0x10, 0x36, 0x21, 0x34, 0x7E, 0x76]);
    assert_eq!(cpu.mem[0x1000], 0x22);
    assert_eq!(cpu.registers.a, 0x22);
}

#[test]
fn emulator_error_messages() {
    assert_eq!(
        get_err_msg(&EmulatorError::FilePathNotGiven),
        "File path was not given!"
    );
    assert_eq!(
        get_err_msg(&EmulatorError::FilePathNotFound(String::from("rom.bin"))),
        "File path 'rom.bin' was not valid!"
    );
    assert_eq!(
        get_err_msg(&EmulatorError::FileCantOpen(String::from("rom.bin"))),
        "Couldn't open file 'rom.bin'!"
    );
    assert_eq!(
        get_err_msg(&EmulatorError::RomTooLarge),
        "ROM image is larger than 65536 bytes!"
    );
}
