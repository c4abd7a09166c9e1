use intel8080::emulator::Intel8080;
use intel8080::registers::RegPair;

fn cpu_with_rom(rom: &[u8]) -> Intel8080 {
    let mut cpu = Intel8080::new();
    let rom_vec: Vec<u8> = rom.to_vec();
    cpu.load_rom(&rom_vec).expect("ROM fits in memory");
    cpu
}

#[test]
fn ana_aux_carry_mirrors_bit3_quirk() {
    // ANA B with bit 3 set on one side: result zero, aux carry set.
    let mut cpu = cpu_with_rom(&[0xA0]);
    cpu.registers.a = 0x08;
    cpu.registers.b = 0x04;
    cpu.registers.f.carry = true;
    cpu.step();
    assert_eq!(cpu.registers.a, 0x00);
    assert!(cpu.registers.f.zero);
    assert!(cpu.registers.f.aux_carry);
    assert!(!cpu.registers.f.carry, "ANA clears carry");
    // Neither side has bit 3: aux carry clear.
    let mut cpu = cpu_with_rom(&[0xA0]);
    cpu.registers.a = 0xF0;
    cpu.registers.b = 0x30;
    cpu.step();
    assert_eq!(cpu.registers.a, 0x30);
    assert!(!cpu.registers.f.aux_carry);
}

#[test]
fn xra_a_clears_accumulator_and_carries() {
    // XRA A.
    let mut cpu = cpu_with_rom(&[0xAF]);
    cpu.registers.a = 0x5A;
    cpu.registers.f.carry = true;
    cpu.registers.f.aux_carry = true;
    cpu.step();
    assert_eq!(cpu.registers.a, 0x00);
    assert!(cpu.registers.f.zero);
    assert!(cpu.registers.f.parity);
    assert!(!cpu.registers.f.carry);
    assert!(!cpu.registers.f.aux_carry);
}

#[test]
fn adc_and_sbb_chain_the_carry() {
    // STC; ADC B: 1 + 2 + carry = 4.
    let mut cpu = cpu_with_rom(&[0x37, 0x88]);
    cpu.registers.a = 0x01;
    cpu.registers.b = 0x02;
    cpu.step();
    cpu.step();
    assert_eq!(cpu.registers.a, 0x04);
    assert!(!cpu.registers.f.carry);
    // STC; SBB B: 5 - 2 - carry = 2.
    let mut cpu = cpu_with_rom(&[0x37, 0x98]);
    cpu.registers.a = 0x05;
    cpu.registers.b = 0x02;
    cpu.step();
    cpu.step();
    assert_eq!(cpu.registers.a, 0x02);
    assert!(!cpu.registers.f.carry);
}

#[test]
fn sub_borrow_sets_carry() {
    // SUB B with A < B.
    let mut cpu = cpu_with_rom(&[0x90]);
    cpu.registers.a = 3;
    cpu.registers.b = 5;
    cpu.step();
    assert_eq!(cpu.registers.a, 0xFE);
    assert!(cpu.registers.f.carry, "borrow sets carry");
    assert!(!cpu.registers.f.aux_carry, "low nibble borrows too");
    assert!(cpu.registers.f.sign);
}

#[test]
fn rrc_and_ral_rotate_as_documented() {
    // MVI A,0x01; RRC: bit 0 to carry and bit 7.
    let mut cpu = cpu_with_rom(&[0x3E, 0x01, 0x0F]);
    cpu.step();
    cpu.step();
    assert_eq!(cpu.registers.a, 0x80);
    assert!(cpu.registers.f.carry);
    // MVI A,0x80; RAL with carry clear: bit 7 to carry, 0 enters.
    let mut cpu = cpu_with_rom(&[0x3E, 0x80, 0x17]);
    cpu.step();
    cpu.step();
    assert_eq!(cpu.registers.a, 0x00);
    assert!(cpu.registers.f.carry);
}

#[test]
fn conditional_jump_follows_zero_flag() {
    // XRA A (sets Z); JZ 0x0006; INR B (skipped); HLT at 6.
    let mut cpu = cpu_with_rom(&[0xAF, 0xCA, 0x06, 0x00, 0x04, 0x00, 0x76]);
    cpu.step();
    cpu.step();
    assert_eq!(cpu.registers.pc, 0x0006);
    // With Z clear the jump falls through.
    let mut cpu = cpu_with_rom(&[0x3E, 0x01, 0xCA, 0x09, 0x00]);
    cpu.step();
    cpu.step(); // MVI leaves flags alone; Z is still clear from reset
    assert_eq!(cpu.registers.pc, 0x0005);
}

#[test]
fn conditional_call_not_taken_falls_through() {
    // MVI A,0x01; ORA A (clears Z); CZ 0x0010.
    let mut cpu = cpu_with_rom(&[0x3E, 0x01, 0xB7, 0xCC, 0x10, 0x00]);
    cpu.step();
    cpu.step();
    let sp = cpu.registers.sp;
    cpu.step();
    assert_eq!(cpu.registers.pc, 0x0006);
    assert_eq!(cpu.registers.sp, sp, "no push when the call is not taken");
}

#[test]
fn xthl_swaps_hl_with_stack_top() {
    // LXI SP,0x2000; LXI B,0xBEEF; PUSH B; LXI H,0x1234; XTHL.
    let mut cpu = cpu_with_rom(&[
        0x31, 0x00, 0x20, 0x01, 0xEF, 0xBE, 0xC5, 0x21, 0x34, 0x12, 0xE3,
    ]);
    for _ in 0..5 {
        cpu.step();
    }
    assert_eq!(cpu.registers.get_reg_pair(RegPair::HL), 0xBEEF);
    assert_eq!(cpu.mem[0x1FFE], 0x34);
    assert_eq!(cpu.mem[0x1FFF], 0x12);
    assert_eq!(cpu.registers.sp, 0x1FFE, "XTHL leaves SP alone");
}

#[test]
fn pchl_and_sphl_load_from_hl() {
    // LXI H,0x4321; SPHL; PCHL.
    let mut cpu = cpu_with_rom(&[0x21, 0x21, 0x43, 0xF9, 0xE9]);
    cpu.step();
    cpu.step();
    assert_eq!(cpu.registers.sp, 0x4321);
    cpu.step();
    assert_eq!(cpu.registers.pc, 0x4321);
}

#[test]
fn stax_and_ldax_use_the_pair_address() {
    // LXI B,0x1234; MVI A,0x77; STAX B; MVI A,0x00; LDAX B.
    let mut cpu = cpu_with_rom(&[0x01, 0x34, 0x12, 0x3E, 0x77, 0x02, 0x3E, 0x00, 0x0A]);
    for _ in 0..3 {
        cpu.step();
    }
    assert_eq!(cpu.mem[0x1234], 0x77);
    cpu.step();
    assert_eq!(cpu.registers.a, 0x00);
    cpu.step();
    assert_eq!(cpu.registers.a, 0x77);
}

#[test]
fn shld_lhld_round_trip_little_endian() {
    // LXI H,0x1234; SHLD 0x2000; LXI H,0x0000; LHLD 0x2000.
    let mut cpu = cpu_with_rom(&[
        0x21, 0x34, 0x12, 0x22, 0x00, 0x20, 0x21, 0x00, 0x00, 0x2A, 0x00, 0x20,
    ]);
    cpu.step();
    cpu.step();
    assert_eq!(cpu.mem[0x2000], 0x34, "L goes to the lower address");
    assert_eq!(cpu.mem[0x2001], 0x12, "H goes just above");
    cpu.step();
    assert_eq!(cpu.registers.get_reg_pair(RegPair::HL), 0x0000);
    cpu.step();
    assert_eq!(cpu.registers.get_reg_pair(RegPair::HL), 0x1234);
}

#[test]
fn sta_lda_use_the_immediate_address() {
    // MVI A,0x99; STA 0x1800; MVI A,0x00; LDA 0x1800.
    let mut cpu = cpu_with_rom(&[0x3E, 0x99, 0x32, 0x00, 0x18, 0x3E, 0x00, 0x3A, 0x00, 0x18]);
    cpu.step();
    cpu.step();
    assert_eq!(cpu.mem[0x1800], 0x99);
    cpu.step();
    cpu.step();
    assert_eq!(cpu.registers.a, 0x99);
}

#[test]
fn dad_adds_into_hl_and_sets_only_carry() {
    // LXI H,0xFFFF; LXI B,0x0002; DAD B.
    let mut cpu = cpu_with_rom(&[0x21, 0xFF, 0xFF, 0x01, 0x02, 0x00, 0x09]);
    cpu.step();
    cpu.step();
    cpu.step();
    assert_eq!(cpu.registers.get_reg_pair(RegPair::HL), 0x0001);
    assert!(cpu.registers.f.carry);
    assert!(!cpu.registers.f.zero, "DAD leaves the other flags alone");
}

#[test]
fn dad_sp_adds_the_stack_pointer_into_hl() {
    // LXI SP,0x1000; LXI H,0x0200; DAD SP.
    let mut cpu = cpu_with_rom(&[0x31, 0x00, 0x10, 0x21, 0x00, 0x02, 0x39]);
    cpu.step();
    cpu.step();
    cpu.step();
    assert_eq!(cpu.registers.get_reg_pair(RegPair::HL), 0x1200);
    assert_eq!(cpu.registers.sp, 0x1000, "DAD SP leaves SP itself alone");
    assert!(!cpu.registers.f.carry);
}

#[test]
fn inr_updates_aux_carry_from_low_nibble() {
    // MVI C,0x0F; INR C.
    let mut cpu = cpu_with_rom(&[0x0E, 0x0F, 0x0C]);
    cpu.step();
    cpu.step();
    assert_eq!(cpu.registers.c, 0x10);
    assert!(cpu.registers.f.aux_carry);
    assert!(!cpu.registers.f.carry, "INR never touches carry");
}

#[test]
fn emulate_budget_runs_out_on_a_spin_loop() {
    // JMP 0x0000 spins forever.
    let mut cpu = cpu_with_rom(&[0xC3, 0x00, 0x00]);
    let halted = cpu.emulate(100);
    assert!(!halted);
    assert!(!cpu.halted);
}

#[test]
fn dcx_wraps_at_zero() {
    // DCX B with BC = 0x0000 wraps to 0xFFFF, flags untouched.
    let mut cpu = cpu_with_rom(&[0x0B]);
    cpu.registers.f.carry = true;
    cpu.step();
    assert_eq!(cpu.registers.get_reg_pair(RegPair::BC), 0xFFFF);
    assert!(cpu.registers.f.carry);
    assert!(!cpu.registers.f.zero);
}

#[test]
fn alternate_call_and_ret_behave_like_the_documented_ones() {
    // LXI SP,0x2000; CALL* 0x0008; HLT; 0x00; at 0x0008: MVI A,0x07; RET*.
    let mut cpu = cpu_with_rom(&[0x31, 0x00, 0x20, 0xDD, 0x08, 0x00, 0x76, 0x00, 0x3E, 0x07, 0xD9]);
    let halted = cpu.emulate(100);
    assert!(halted);
    assert_eq!(cpu.registers.a, 0x07);
    assert_eq!(cpu.registers.sp, 0x2000);
    assert_eq!(cpu.registers.pc, 0x0007);
}

#[test]
fn conditional_return_follows_carry() {
    // LXI SP,0x2000; CALL 0x0008; HLT; 0x00;
    // at 0x0008: STC; RC (returns since carry set).
    let mut cpu = cpu_with_rom(&[0x31, 0x00, 0x20, 0xCD, 0x08, 0x00, 0x76, 0x00, 0x37, 0xD8]);
    let halted = cpu.emulate(100);
    assert!(halted);
    assert_eq!(cpu.registers.pc, 0x0007);
    assert_eq!(cpu.registers.sp, 0x2000);
}
