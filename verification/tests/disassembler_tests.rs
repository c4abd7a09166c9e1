use intel8080::disassembler::{disassemble, get_err_msg, stream_parses, DisassemblerError};

#[test]
fn jmp_and_nop_listing() {
    let rom: Vec<u8> = vec![0xC3, 0x34, 0x12, 0x00];
    assert!(stream_parses(&rom));
    let lines = disassemble(&rom);
    assert_eq!(lines.len(), 2);
    assert_eq!(lines[0], "0x0000    JMP      0x1234");
    assert_eq!(lines[1], "0x0003    NOP");
}

#[test]
fn immediate_operands_carry_a_hash_mark() {
    // MVI A,0x42; ADI 0xFF; LXI SP,0x2000; HLT.
    let rom: Vec<u8> = vec![0x3E, 0x42, 0xC6, 0xFF, 0x31, 0x00, 0x20, 0x76];
    assert!(stream_parses(&rom));
    let lines = disassemble(&rom);
    assert_eq!(lines.len(), 4);
    assert_eq!(lines[0], "0x0000    MVI A    #0x42");
    assert_eq!(lines[1], "0x0002    ADI      #0xFF");
    assert_eq!(lines[2], "0x0004    LXI SP   #0x2000");
    assert_eq!(lines[3], "0x0007    HLT");
}

#[test]
fn addresses_print_without_hash_mark() {
    // SHLD 0x0BCD; LDA 0xFEDC.
    let rom: Vec<u8> = vec![0x22, 0xCD, 0x0B, 0x3A, 0xDC, 0xFE];
    let lines = disassemble(&rom);
    assert_eq!(lines[0], "0x0000    SHLD     0x0BCD");
    assert_eq!(lines[1], "0x0003    LDA      0xFEDC");
}

#[test]
fn alternate_opcodes_are_starred() {
    let rom: Vec<u8> = vec![0x08, 0xCB, 0x05, 0x00, 0xD9, 0xDD, 0x00, 0x10];
    let lines = disassemble(&rom);
    assert_eq!(lines[0], "0x0000    NOP*");
    assert_eq!(lines[1], "0x0001    JMP*     0x0005");
    assert_eq!(lines[2], "0x0004    RET*");
    assert_eq!(lines[3], "0x0005    CALL*    0x1000");
}

#[test]
fn one_line_per_opcode_value() {
    // Every one-byte opcode disassembles alone; a full sweep of the MOV
    // block.
    let rom: Vec<u8> = (0x40u8..0x80).collect();
    assert!(stream_parses(&rom));
    let lines = disassemble(&rom);
    assert_eq!(lines.len(), 0x40);
    assert_eq!(lines[0], "0x0000    MOV B,B");
    assert_eq!(lines[0x36], "0x0036    HLT");
    assert_eq!(lines[0x3F], "0x003F    MOV A,A");
}

#[test]
fn truncated_stream_does_not_parse() {
    // LXI B needs two operand bytes; only one follows.
    let rom: Vec<u8> = vec![0x01, 0x00];
    assert!(!stream_parses(&rom));
    // A lone MVI with no operand byte.
    let rom: Vec<u8> = vec![0x3E];
    assert!(!stream_parses(&rom));
    // The empty image parses to an empty listing.
    let rom: Vec<u8> = vec![];
    assert!(stream_parses(&rom));
    assert_eq!(disassemble(&rom).len(), 0);
}

#[test]
fn disassembler_error_messages() {
    assert_eq!(
        get_err_msg(&DisassemblerError::FilePathNotGiven),
        "File path was not given!"
    );
    assert_eq!(
        get_err_msg(&DisassemblerError::FilePathNotFound(String::from("x.rom"))),
        "File path 'x.rom' was not valid!"
    );
    assert_eq!(
        get_err_msg(&DisassemblerError::FileCantOpen(String::from("x.rom"))),
        "Couldn't open file 'x.rom'!"
    );
}
