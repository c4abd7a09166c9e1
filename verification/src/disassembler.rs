//! The 8080 disassembler: a linear walk over a byte image, one mnemonic
//! line per instruction, sharing the opcode table shape of the
//! interpreter. Each emitted line is proved equal, character for
//! character, to `line_spec`.

use vstd::prelude::*;

verus! {

/// What can go wrong around the disassembler: the errors never arise
/// inside the linear walk itself.
#[derive(Debug, PartialEq, Eq)]
pub enum DisassemblerError {
    /// No ROM path was given on the command line.
    FilePathNotGiven,
    /// The ROM path does not exist.
    FilePathNotFound(String),
    /// The ROM file could not be opened or read.
    FileCantOpen(String),
}

/// A short descriptive message for each error.
pub fn get_err_msg(err: &DisassemblerError) -> (msg: String)
    ensures
        (match err {
            DisassemblerError::FilePathNotGiven => msg@ == "File path was not given!"@,
            DisassemblerError::FilePathNotFound(s) => msg@ == "File path '"@ + s@
                + "' was not valid!"@,
            DisassemblerError::FileCantOpen(s) => msg@ == "Couldn't open file '"@ + s@ + "'!"@,
        }),
{
    match err {
        DisassemblerError::FilePathNotGiven => String::from_str("File path was not given!"),
        DisassemblerError::FilePathNotFound(s) => {
            let mut msg = String::from_str("File path '");
            msg.append(s.as_str());
            msg.append("' was not valid!");
            msg
        },
        DisassemblerError::FileCantOpen(s) => {
            let mut msg = String::from_str("Couldn't open file '");
            msg.append(s.as_str());
            msg.append("'!");
            msg
        },
    }
}

/// How an opcode's operand bytes are rendered: none, a one-byte literal
/// (`#0xNN`), a two-byte literal (`#0xNNNN`), or a two-byte address
/// (`0xNNNN`).
#[derive(Clone, Copy, Debug, PartialEq, Eq, Structural)]
pub enum OperandKind {
    Plain,
    Imm8,
    Imm16,
    Addr16,
}

/// The mnemonic text and operand kind for every opcode byte. Mnemonics of
/// opcodes that take an operand are padded to the nine-character column;
/// undocumented alternate encodings carry a `*` suffix.
pub open spec fn op_table(op: u8) -> (Seq<char>, OperandKind) {
    match op {
        0x00 => ("NOP"@, OperandKind::Plain),
        0x01 => ("LXI B    "@, OperandKind::Imm16),
        0x02 => ("STAX B"@, OperandKind::Plain),
        0x03 => ("INX B"@, OperandKind::Plain),
        0x04 => ("INR B"@, OperandKind::Plain),
        0x05 => ("DCR B"@, OperandKind::Plain),
        0x06 => ("MVI B    "@, OperandKind::Imm8),
        0x07 => ("RLC"@, OperandKind::Plain),
        0x08 => ("NOP*"@, OperandKind::Plain),
        0x09 => ("DAD B"@, OperandKind::Plain),
        0x0A => ("LDAX B"@, OperandKind::Plain),
        0x0B => ("DCX B"@, OperandKind::Plain),
        0x0C => ("INR C"@, OperandKind::Plain),
        0x0D => ("DCR C"@, OperandKind::Plain),
        0x0E => ("MVI C    "@, OperandKind::Imm8),
        0x0F => ("RRC"@, OperandKind::Plain),
        0x10 => ("NOP*"@, OperandKind::Plain),
        0x11 => ("LXI D    "@, OperandKind::Imm16),
        0x12 => ("STAX D"@, OperandKind::Plain),
        0x13 => ("INX D"@, OperandKind::Plain),
        0x14 => ("INR D"@, OperandKind::Plain),
        0x15 => ("DCR D"@, OperandKind::Plain),
        0x16 => ("MVI D    "@, OperandKind::Imm8),
        0x17 => ("RAL"@, OperandKind::Plain),
        0x18 => ("NOP*"@, OperandKind::Plain),
        0x19 => ("DAD D"@, OperandKind::Plain),
        0x1A => ("LDAX D"@, OperandKind::Plain),
        0x1B => ("DCX D"@, OperandKind::Plain),
        0x1C => ("INR E"@, OperandKind::Plain),
        0x1D => ("DCR E"@, OperandKind::Plain),
        0x1E => ("MVI E    "@, OperandKind::Imm8),
        0x1F => ("RAR"@, OperandKind::Plain),
        0x20 => ("NOP*"@, OperandKind::Plain),
        0x21 => ("LXI H    "@, OperandKind::Imm16),
        0x22 => ("SHLD     "@, OperandKind::Addr16),
        0x23 => ("INX H"@, OperandKind::Plain),
        0x24 => ("INR H"@, OperandKind::Plain),
        0x25 => ("DCR H"@, OperandKind::Plain),
        0x26 => ("MVI H    "@, OperandKind::Imm8),
        0x27 => ("DAA"@, OperandKind::Plain),
        0x28 => ("NOP*"@, OperandKind::Plain),
        0x29 => ("DAD H"@, OperandKind::Plain),
        0x2A => ("LHLD     "@, OperandKind::Addr16),
        0x2B => ("DCX H"@, OperandKind::Plain),
        0x2C => ("INR L"@, OperandKind::Plain),
        0x2D => ("DCR L"@, OperandKind::Plain),
        0x2E => ("MVI L    "@, OperandKind::Imm8),
        0x2F => ("CMA"@, OperandKind::Plain),
        0x30 => ("NOP*"@, OperandKind::Plain),
        0x31 => ("LXI SP   "@, OperandKind::Imm16),
        0x32 => ("STA      "@, OperandKind::Addr16),
        0x33 => ("INX SP"@, OperandKind::Plain),
        0x34 => ("INR M"@, OperandKind::Plain),
        0x35 => ("DCR M"@, OperandKind::Plain),
        0x36 => ("MVI M    "@, OperandKind::Imm8),
        0x37 => ("STC"@, OperandKind::Plain),
        0x38 => ("NOP*"@, OperandKind::Plain),
        0x39 => ("DAD SP"@, OperandKind::Plain),
        0x3A => ("LDA      "@, OperandKind::Addr16),
        0x3B => ("DCX SP"@, OperandKind::Plain),
        0x3C => ("INR A"@, OperandKind::Plain),
        0x3D => ("DCR A"@, OperandKind::Plain),
        0x3E => ("MVI A    "@, OperandKind::Imm8),
        0x3F => ("CMC"@, OperandKind::Plain),
        0x40 => ("MOV B,B"@, OperandKind::Plain),
        0x41 => ("MOV B,C"@, OperandKind::Plain),
        0x42 => ("MOV B,D"@, OperandKind::Plain),
        0x43 => ("MOV B,E"@, OperandKind::Plain),
        0x44 => ("MOV B,H"@, OperandKind::Plain),
        0x45 => ("MOV B,L"@, OperandKind::Plain),
        0x46 => ("MOV B,M"@, OperandKind::Plain),
        0x47 => ("MOV B,A"@, OperandKind::Plain),
        0x48 => ("MOV C,B"@, OperandKind::Plain),
        0x49 => ("MOV C,C"@, OperandKind::Plain),
        0x4A => ("MOV C,D"@, OperandKind::Plain),
        0x4B => ("MOV C,E"@, OperandKind::Plain),
        0x4C => ("MOV C,H"@, OperandKind::Plain),
        0x4D => ("MOV C,L"@, OperandKind::Plain),
        0x4E => ("MOV C,M"@, OperandKind::Plain),
        0x4F => ("MOV C,A"@, OperandKind::Plain),
        0x50 => ("MOV D,B"@, OperandKind::Plain),
        0x51 => ("MOV D,C"@, OperandKind::Plain),
        0x52 => ("MOV D,D"@, OperandKind::Plain),
        0x53 => ("MOV D,E"@, OperandKind::Plain),
        0x54 => ("MOV D,H"@, OperandKind::Plain),
        0x55 => ("MOV D,L"@, OperandKind::Plain),
        0x56 => ("MOV D,M"@, OperandKind::Plain),
        0x57 => ("MOV D,A"@, OperandKind::Plain),
        0x58 => ("MOV E,B"@, OperandKind::Plain),
        0x59 => ("MOV E,C"@, OperandKind::Plain),
        0x5A => ("MOV E,D"@, OperandKind::Plain),
        0x5B => ("MOV E,E"@, OperandKind::Plain),
        0x5C => ("MOV E,H"@, OperandKind::Plain),
        0x5D => ("MOV E,L"@, OperandKind::Plain),
        0x5E => ("MOV E,M"@, OperandKind::Plain),
        0x5F => ("MOV E,A"@, OperandKind::Plain),
        0x60 => ("MOV H,B"@, OperandKind::Plain),
        0x61 => ("MOV H,C"@, OperandKind::Plain),
        0x62 => ("MOV H,D"@, OperandKind::Plain),
        0x63 => ("MOV H,E"@, OperandKind::Plain),
        0x64 => ("MOV H,H"@, OperandKind::Plain),
        0x65 => ("MOV H,L"@, OperandKind::Plain),
        0x66 => ("MOV H,M"@, OperandKind::Plain),
        0x67 => ("MOV H,A"@, OperandKind::Plain),
        0x68 => ("MOV L,B"@, OperandKind::Plain),
        0x69 => ("MOV L,C"@, OperandKind::Plain),
        0x6A => ("MOV L,D"@, OperandKind::Plain),
        0x6B => ("MOV L,E"@, OperandKind::Plain),
        0x6C => ("MOV L,H"@, OperandKind::Plain),
        0x6D => ("MOV L,L"@, OperandKind::Plain),
        0x6E => ("MOV L,M"@, OperandKind::Plain),
        0x6F => ("MOV L,A"@, OperandKind::Plain),
        0x70 => ("MOV M,B"@, OperandKind::Plain),
        0x71 => ("MOV M,C"@, OperandKind::Plain),
        0x72 => ("MOV M,D"@, OperandKind::Plain),
        0x73 => ("MOV M,E"@, OperandKind::Plain),
        0x74 => ("MOV M,H"@, OperandKind::Plain),
        0x75 => ("MOV M,L"@, OperandKind::Plain),
        0x76 => ("HLT"@, OperandKind::Plain),
        0x77 => ("MOV M,A"@, OperandKind::Plain),
        0x78 => ("MOV A,B"@, OperandKind::Plain),
        0x79 => ("MOV A,C"@, OperandKind::Plain),
        0x7A => ("MOV A,D"@, OperandKind::Plain),
        0x7B => ("MOV A,E"@, OperandKind::Plain),
        0x7C => ("MOV A,H"@, OperandKind::Plain),
        0x7D => ("MOV A,L"@, OperandKind::Plain),
        0x7E => ("MOV A,M"@, OperandKind::Plain),
        0x7F => ("MOV A,A"@, OperandKind::Plain),
        0x80 => ("ADD B"@, OperandKind::Plain),
        0x81 => ("ADD C"@, OperandKind::Plain),
        0x82 => ("ADD D"@, OperandKind::Plain),
        0x83 => ("ADD E"@, OperandKind::Plain),
        0x84 => ("ADD H"@, OperandKind::Plain),
        0x85 => ("ADD L"@, OperandKind::Plain),
        0x86 => ("ADD M"@, OperandKind::Plain),
        0x87 => ("ADD A"@, OperandKind::Plain),
        0x88 => ("ADC B"@, OperandKind::Plain),
        0x89 => ("ADC C"@, OperandKind::Plain),
        0x8A => ("ADC D"@, OperandKind::Plain),
        0x8B => ("ADC E"@, OperandKind::Plain),
        0x8C => ("ADC H"@, OperandKind::Plain),
        0x8D => ("ADC L"@, OperandKind::Plain),
        0x8E => ("ADC M"@, OperandKind::Plain),
        0x8F => ("ADC A"@, OperandKind::Plain),
        0x90 => ("SUB B"@, OperandKind::Plain),
        0x91 => ("SUB C"@, OperandKind::Plain),
        0x92 => ("SUB D"@, OperandKind::Plain),
        0x93 => ("SUB E"@, OperandKind::Plain),
        0x94 => ("SUB H"@, OperandKind::Plain),
        0x95 => ("SUB L"@, OperandKind::Plain),
        0x96 => ("SUB M"@, OperandKind::Plain),
        0x97 => ("SUB A"@, OperandKind::Plain),
        0x98 => ("SBB B"@, OperandKind::Plain),
        0x99 => ("SBB C"@, OperandKind::Plain),
        0x9A => ("SBB D"@, OperandKind::Plain),
        0x9B => ("SBB E"@, OperandKind::Plain),
        0x9C => ("SBB H"@, OperandKind::Plain),
        0x9D => ("SBB L"@, OperandKind::Plain),
        0x9E => ("SBB M"@, OperandKind::Plain),
        0x9F => ("SBB A"@, OperandKind::Plain),
        0xA0 => ("ANA B"@, OperandKind::Plain),
        0xA1 => ("ANA C"@, OperandKind::Plain),
        0xA2 => ("ANA D"@, OperandKind::Plain),
        0xA3 => ("ANA E"@, OperandKind::Plain),
        0xA4 => ("ANA H"@, OperandKind::Plain),
        0xA5 => ("ANA L"@, OperandKind::Plain),
        0xA6 => ("ANA M"@, OperandKind::Plain),
        0xA7 => ("ANA A"@, OperandKind::Plain),
        0xA8 => ("XRA B"@, OperandKind::Plain),
        0xA9 => ("XRA C"@, OperandKind::Plain),
        0xAA => ("XRA D"@, OperandKind::Plain),
        0xAB => ("XRA E"@, OperandKind::Plain),
        0xAC => ("XRA H"@, OperandKind::Plain),
        0xAD => ("XRA L"@, OperandKind::Plain),
        0xAE => ("XRA M"@, OperandKind::Plain),
        0xAF => ("XRA A"@, OperandKind::Plain),
        0xB0 => ("ORA B"@, OperandKind::Plain),
        0xB1 => ("ORA C"@, OperandKind::Plain),
        0xB2 => ("ORA D"@, OperandKind::Plain),
        0xB3 => ("ORA E"@, OperandKind::Plain),
        0xB4 => ("ORA H"@, OperandKind::Plain),
        0xB5 => ("ORA L"@, OperandKind::Plain),
        0xB6 => ("ORA M"@, OperandKind::Plain),
        0xB7 => ("ORA A"@, OperandKind::Plain),
        0xB8 => ("CMP B"@, OperandKind::Plain),
        0xB9 => ("CMP C"@, OperandKind::Plain),
        0xBA => ("CMP D"@, OperandKind::Plain),
        0xBB => ("CMP E"@, OperandKind::Plain),
        0xBC => ("CMP H"@, OperandKind::Plain),
        0xBD => ("CMP L"@, OperandKind::Plain),
        0xBE => ("CMP M"@, OperandKind::Plain),
        0xBF => ("CMP A"@, OperandKind::Plain),
        0xC0 => ("RNZ"@, OperandKind::Plain),
        0xC1 => ("POP B"@, OperandKind::Plain),
        0xC2 => ("JNZ      "@, OperandKind::Addr16),
        0xC3 => ("JMP      "@, OperandKind::Addr16),
        0xC4 => ("CNZ      "@, OperandKind::Addr16),
        0xC5 => ("PUSH B"@, OperandKind::Plain),
        0xC6 => ("ADI      "@, OperandKind::Imm8),
        0xC7 => ("RST 0"@, OperandKind::Plain),
        0xC8 => ("RZ"@, OperandKind::Plain),
        0xC9 => ("RET"@, OperandKind::Plain),
        0xCA => ("JZ       "@, OperandKind::Addr16),
        0xCB => ("JMP*     "@, OperandKind::Addr16),
        0xCC => ("CZ       "@, OperandKind::Addr16),
        0xCD => ("CALL     "@, OperandKind::Addr16),
        0xCE => ("ACI      "@, OperandKind::Imm8),
        0xCF => ("RST 1"@, OperandKind::Plain),
        0xD0 => ("RNC"@, OperandKind::Plain),
        0xD1 => ("POP D"@, OperandKind::Plain),
        0xD2 => ("JNC      "@, OperandKind::Addr16),
        0xD3 => ("OUT      "@, OperandKind::Imm8),
        0xD4 => ("CNC      "@, OperandKind::Addr16),
        0xD5 => ("PUSH D"@, OperandKind::Plain),
        0xD6 => ("SUI      "@, OperandKind::Imm8),
        0xD7 => ("RST 2"@, OperandKind::Plain),
        0xD8 => ("RC"@, OperandKind::Plain),
        0xD9 => ("RET*"@, OperandKind::Plain),
        0xDA => ("JC       "@, OperandKind::Addr16),
        0xDB => ("IN       "@, OperandKind::Imm8),
        0xDC => ("CC       "@, OperandKind::Addr16),
        0xDD => ("CALL*    "@, OperandKind::Addr16),
        0xDE => ("SBI      "@, OperandKind::Imm8),
        0xDF => ("RST 3"@, OperandKind::Plain),
        0xE0 => ("RPO"@, OperandKind::Plain),
        0xE1 => ("POP H"@, OperandKind::Plain),
        0xE2 => ("JPO      "@, OperandKind::Addr16),
        0xE3 => ("XTHL"@, OperandKind::Plain),
        0xE4 => ("CPO      "@, OperandKind::Addr16),
        0xE5 => ("PUSH H"@, OperandKind::Plain),
        0xE6 => ("ANI      "@, OperandKind::Imm8),
        0xE7 => ("RST 4"@, OperandKind::Plain),
        0xE8 => ("RPE"@, OperandKind::Plain),
        0xE9 => ("PCHL"@, OperandKind::Plain),
        0xEA => ("JPE      "@, OperandKind::Addr16),
        0xEB => ("XCHG"@, OperandKind::Plain),
        0xEC => ("CPE      "@, OperandKind::Addr16),
        0xED => ("CALL*    "@, OperandKind::Addr16),
        0xEE => ("XRI      "@, OperandKind::Imm8),
        0xEF => ("RST 5"@, OperandKind::Plain),
        0xF0 => ("RP"@, OperandKind::Plain),
        0xF1 => ("POP PSW"@, OperandKind::Plain),
        0xF2 => ("JP       "@, OperandKind::Addr16),
        0xF3 => ("DI"@, OperandKind::Plain),
        0xF4 => ("CP       "@, OperandKind::Addr16),
        0xF5 => ("PUSH PSW"@, OperandKind::Plain),
        0xF6 => ("ORI      "@, OperandKind::Imm8),
        0xF7 => ("RST 6"@, OperandKind::Plain),
        0xF8 => ("RM"@, OperandKind::Plain),
        0xF9 => ("SPHL"@, OperandKind::Plain),
        0xFA => ("JM       "@, OperandKind::Addr16),
        0xFB => ("EI"@, OperandKind::Plain),
        0xFC => ("CM       "@, OperandKind::Addr16),
        0xFD => ("CALL*    "@, OperandKind::Addr16),
        0xFE => ("CPI      "@, OperandKind::Imm8),
        _ => ("RST 7"@, OperandKind::Plain),
    }
}

/// The byte length of the instruction starting with `op`: the opcode plus
/// its operand bytes.
pub open spec fn instr_len(op: u8) -> int {
    match op_table(op).1 {
        OperandKind::Plain => 1,
        OperandKind::Imm8 => 2,
        OperandKind::Imm16 => 3,
        OperandKind::Addr16 => 3,
    }
}

/// The mnemonic text and operand kind for an opcode byte.
pub fn opcode_info(op: u8) -> (r: (&'static str, OperandKind))
    ensures
        r.0@ == op_table(op).0,
        r.1 == op_table(op).1,
{
    match op {
        0x00 => ("NOP", OperandKind::Plain),
        0x01 => ("LXI B    ", OperandKind::Imm16),
        0x02 => ("STAX B", OperandKind::Plain),
        0x03 => ("INX B", OperandKind::Plain),
        0x04 => ("INR B", OperandKind::Plain),
        0x05 => ("DCR B", OperandKind::Plain),
        0x06 => ("MVI B    ", OperandKind::Imm8),
        0x07 => ("RLC", OperandKind::Plain),
        0x08 => ("NOP*", OperandKind::Plain),
        0x09 => ("DAD B", OperandKind::Plain),
        0x0A => ("LDAX B", OperandKind::Plain),
        0x0B => ("DCX B", OperandKind::Plain),
        0x0C => ("INR C", OperandKind::Plain),
        0x0D => ("DCR C", OperandKind::Plain),
        0x0E => ("MVI C    ", OperandKind::Imm8),
        0x0F => ("RRC", OperandKind::Plain),
        0x10 => ("NOP*", OperandKind::Plain),
        0x11 => ("LXI D    ", OperandKind::Imm16),
        0x12 => ("STAX D", OperandKind::Plain),
        0x13 => ("INX D", OperandKind::Plain),
        0x14 => ("INR D", OperandKind::Plain),
        0x15 => ("DCR D", OperandKind::Plain),
        0x16 => ("MVI D    ", OperandKind::Imm8),
        0x17 => ("RAL", OperandKind::Plain),
        0x18 => ("NOP*", OperandKind::Plain),
        0x19 => ("DAD D", OperandKind::Plain),
        0x1A => ("LDAX D", OperandKind::Plain),
        0x1B => ("DCX D", OperandKind::Plain),
        0x1C => ("INR E", OperandKind::Plain),
        0x1D => ("DCR E", OperandKind::Plain),
        0x1E => ("MVI E    ", OperandKind::Imm8),
        0x1F => ("RAR", OperandKind::Plain),
        0x20 => ("NOP*", OperandKind::Plain),
        0x21 => ("LXI H    ", OperandKind::Imm16),
        0x22 => ("SHLD     ", OperandKind::Addr16),
        0x23 => ("INX H", OperandKind::Plain),
        0x24 => ("INR H", OperandKind::Plain),
        0x25 => ("DCR H", OperandKind::Plain),
        0x26 => ("MVI H    ", OperandKind::Imm8),
        0x27 => ("DAA", OperandKind::Plain),
        0x28 => ("NOP*", OperandKind::Plain),
        0x29 => ("DAD H", OperandKind::Plain),
        0x2A => ("LHLD     ", OperandKind::Addr16),
        0x2B => ("DCX H", OperandKind::Plain),
        0x2C => ("INR L", OperandKind::Plain),
        0x2D => ("DCR L", OperandKind::Plain),
        0x2E => ("MVI L    ", OperandKind::Imm8),
        0x2F => ("CMA", OperandKind::Plain),
        0x30 => ("NOP*", OperandKind::Plain),
        0x31 => ("LXI SP   ", OperandKind::Imm16),
        0x32 => ("STA      ", OperandKind::Addr16),
        0x33 => ("INX SP", OperandKind::Plain),
        0x34 => ("INR M", OperandKind::Plain),
        0x35 => ("DCR M", OperandKind::Plain),
        0x36 => ("MVI M    ", OperandKind::Imm8),
        0x37 => ("STC", OperandKind::Plain),
        0x38 => ("NOP*", OperandKind::Plain),
        0x39 => ("DAD SP", OperandKind::Plain),
        0x3A => ("LDA      ", OperandKind::Addr16),
        0x3B => ("DCX SP", OperandKind::Plain),
        0x3C => ("INR A", OperandKind::Plain),
        0x3D => ("DCR A", OperandKind::Plain),
        0x3E => ("MVI A    ", OperandKind::Imm8),
        0x3F => ("CMC", OperandKind::Plain),
        0x40 => ("MOV B,B", OperandKind::Plain),
        0x41 => ("MOV B,C", OperandKind::Plain),
        0x42 => ("MOV B,D", OperandKind::Plain),
        0x43 => ("MOV B,E", OperandKind::Plain),
        0x44 => ("MOV B,H", OperandKind::Plain),
        0x45 => ("MOV B,L", OperandKind::Plain),
        0x46 => ("MOV B,M", OperandKind::Plain),
        0x47 => ("MOV B,A", OperandKind::Plain),
        0x48 => ("MOV C,B", OperandKind::Plain),
        0x49 => ("MOV C,C", OperandKind::Plain),
        0x4A => ("MOV C,D", OperandKind::Plain),
        0x4B => ("MOV C,E", OperandKind::Plain),
        0x4C => ("MOV C,H", OperandKind::Plain),
        0x4D => ("MOV C,L", OperandKind::Plain),
        0x4E => ("MOV C,M", OperandKind::Plain),
        0x4F => ("MOV C,A", OperandKind::Plain),
        0x50 => ("MOV D,B", OperandKind::Plain),
        0x51 => ("MOV D,C", OperandKind::Plain),
        0x52 => ("MOV D,D", OperandKind::Plain),
        0x53 => ("MOV D,E", OperandKind::Plain),
        0x54 => ("MOV D,H", OperandKind::Plain),
        0x55 => ("MOV D,L", OperandKind::Plain),
        0x56 => ("MOV D,M", OperandKind::Plain),
        0x57 => ("MOV D,A", OperandKind::Plain),
        0x58 => ("MOV E,B", OperandKind::Plain),
        0x59 => ("MOV E,C", OperandKind::Plain),
        0x5A => ("MOV E,D", OperandKind::Plain),
        0x5B => ("MOV E,E", OperandKind::Plain),
        0x5C => ("MOV E,H", OperandKind::Plain),
        0x5D => ("MOV E,L", OperandKind::Plain),
        0x5E => ("MOV E,M", OperandKind::Plain),
        0x5F => ("MOV E,A", OperandKind::Plain),
        0x60 => ("MOV H,B", OperandKind::Plain),
        0x61 => ("MOV H,C", OperandKind::Plain),
        0x62 => ("MOV H,D", OperandKind::Plain),
        0x63 => ("MOV H,E", OperandKind::Plain),
        0x64 => ("MOV H,H", OperandKind::Plain),
        0x65 => ("MOV H,L", OperandKind::Plain),
        0x66 => ("MOV H,M", OperandKind::Plain),
        0x67 => ("MOV H,A", OperandKind::Plain),
        0x68 => ("MOV L,B", OperandKind::Plain),
        0x69 => ("MOV L,C", OperandKind::Plain),
        0x6A => ("MOV L,D", OperandKind::Plain),
        0x6B => ("MOV L,E", OperandKind::Plain),
        0x6C => ("MOV L,H", OperandKind::Plain),
        0x6D => ("MOV L,L", OperandKind::Plain),
        0x6E => ("MOV L,M", OperandKind::Plain),
        0x6F => ("MOV L,A", OperandKind::Plain),
        0x70 => ("MOV M,B", OperandKind::Plain),
        0x71 => ("MOV M,C", OperandKind::Plain),
        0x72 => ("MOV M,D", OperandKind::Plain),
        0x73 => ("MOV M,E", OperandKind::Plain),
        0x74 => ("MOV M,H", OperandKind::Plain),
        0x75 => ("MOV M,L", OperandKind::Plain),
        0x76 => ("HLT", OperandKind::Plain),
        0x77 => ("MOV M,A", OperandKind::Plain),
        0x78 => ("MOV A,B", OperandKind::Plain),
        0x79 => ("MOV A,C", OperandKind::Plain),
        0x7A => ("MOV A,D", OperandKind::Plain),
        0x7B => ("MOV A,E", OperandKind::Plain),
        0x7C => ("MOV A,H", OperandKind::Plain),
        0x7D => ("MOV A,L", OperandKind::Plain),
        0x7E => ("MOV A,M", OperandKind::Plain),
        0x7F => ("MOV A,A", OperandKind::Plain),
        0x80 => ("ADD B", OperandKind::Plain),
        0x81 => ("ADD C", OperandKind::Plain),
        0x82 => ("ADD D", OperandKind::Plain),
        0x83 => ("ADD E", OperandKind::Plain),
        0x84 => ("ADD H", OperandKind::Plain),
        0x85 => ("ADD L", OperandKind::Plain),
        0x86 => ("ADD M", OperandKind::Plain),
        0x87 => ("ADD A", OperandKind::Plain),
        0x88 => ("ADC B", OperandKind::Plain),
        0x89 => ("ADC C", OperandKind::Plain),
        0x8A => ("ADC D", OperandKind::Plain),
        0x8B => ("ADC E", OperandKind::Plain),
        0x8C => ("ADC H", OperandKind::Plain),
        0x8D => ("ADC L", OperandKind::Plain),
        0x8E => ("ADC M", OperandKind::Plain),
        0x8F => ("ADC A", OperandKind::Plain),
        0x90 => ("SUB B", OperandKind::Plain),
        0x91 => ("SUB C", OperandKind::Plain),
        0x92 => ("SUB D", OperandKind::Plain),
        0x93 => ("SUB E", OperandKind::Plain),
        0x94 => ("SUB H", OperandKind::Plain),
        0x95 => ("SUB L", OperandKind::Plain),
        0x96 => ("SUB M", OperandKind::Plain),
        0x97 => ("SUB A", OperandKind::Plain),
        0x98 => ("SBB B", OperandKind::Plain),
        0x99 => ("SBB C", OperandKind::Plain),
        0x9A => ("SBB D", OperandKind::Plain),
        0x9B => ("SBB E", OperandKind::Plain),
        0x9C => ("SBB H", OperandKind::Plain),
        0x9D => ("SBB L", OperandKind::Plain),
        0x9E => ("SBB M", OperandKind::Plain),
        0x9F => ("SBB A", OperandKind::Plain),
        0xA0 => ("ANA B", OperandKind::Plain),
        0xA1 => ("ANA C", OperandKind::Plain),
        0xA2 => ("ANA D", OperandKind::Plain),
        0xA3 => ("ANA E", OperandKind::Plain),
        0xA4 => ("ANA H", OperandKind::Plain),
        0xA5 => ("ANA L", OperandKind::Plain),
        0xA6 => ("ANA M", OperandKind::Plain),
        0xA7 => ("ANA A", OperandKind::Plain),
        0xA8 => ("XRA B", OperandKind::Plain),
        0xA9 => ("XRA C", OperandKind::Plain),
        0xAA => ("XRA D", OperandKind::Plain),
        0xAB => ("XRA E", OperandKind::Plain),
        0xAC => ("XRA H", OperandKind::Plain),
        0xAD => ("XRA L", OperandKind::Plain),
        0xAE => ("XRA M", OperandKind::Plain),
        0xAF => ("XRA A", OperandKind::Plain),
        0xB0 => ("ORA B", OperandKind::Plain),
        0xB1 => ("ORA C", OperandKind::Plain),
        0xB2 => ("ORA D", OperandKind::Plain),
        0xB3 => ("ORA E", OperandKind::Plain),
        0xB4 => ("ORA H", OperandKind::Plain),
        0xB5 => ("ORA L", OperandKind::Plain),
        0xB6 => ("ORA M", OperandKind::Plain),
        0xB7 => ("ORA A", OperandKind::Plain),
        0xB8 => ("CMP B", OperandKind::Plain),
        0xB9 => ("CMP C", OperandKind::Plain),
        0xBA => ("CMP D", OperandKind::Plain),
        0xBB => ("CMP E", OperandKind::Plain),
        0xBC => ("CMP H", OperandKind::Plain),
        0xBD => ("CMP L", OperandKind::Plain),
        0xBE => ("CMP M", OperandKind::Plain),
        0xBF => ("CMP A", OperandKind::Plain),
        0xC0 => ("RNZ", OperandKind::Plain),
        0xC1 => ("POP B", OperandKind::Plain),
        0xC2 => ("JNZ      ", OperandKind::Addr16),
        0xC3 => ("JMP      ", OperandKind::Addr16),
        0xC4 => ("CNZ      ", OperandKind::Addr16),
        0xC5 => ("PUSH B", OperandKind::Plain),
        0xC6 => ("ADI      ", OperandKind::Imm8),
        0xC7 => ("RST 0", OperandKind::Plain),
        0xC8 => ("RZ", OperandKind::Plain),
        0xC9 => ("RET", OperandKind::Plain),
        0xCA => ("JZ       ", OperandKind::Addr16),
        0xCB => ("JMP*     ", OperandKind::Addr16),
        0xCC => ("CZ       ", OperandKind::Addr16),
        0xCD => ("CALL     ", OperandKind::Addr16),
        0xCE => ("ACI      ", OperandKind::Imm8),
        0xCF => ("RST 1", OperandKind::Plain),
        0xD0 => ("RNC", OperandKind::Plain),
        0xD1 => ("POP D", OperandKind::Plain),
        0xD2 => ("JNC      ", OperandKind::Addr16),
        0xD3 => ("OUT      ", OperandKind::Imm8),
        0xD4 => ("CNC      ", OperandKind::Addr16),
        0xD5 => ("PUSH D", OperandKind::Plain),
        0xD6 => ("SUI      ", OperandKind::Imm8),
        0xD7 => ("RST 2", OperandKind::Plain),
        0xD8 => ("RC", OperandKind::Plain),
        0xD9 => ("RET*", OperandKind::Plain),
        0xDA => ("JC       ", OperandKind::Addr16),
        0xDB => ("IN       ", OperandKind::Imm8),
        0xDC => ("CC       ", OperandKind::Addr16),
        0xDD => ("CALL*    ", OperandKind::Addr16),
        0xDE => ("SBI      ", OperandKind::Imm8),
        0xDF => ("RST 3", OperandKind::Plain),
        0xE0 => ("RPO", OperandKind::Plain),
        0xE1 => ("POP H", OperandKind::Plain),
        0xE2 => ("JPO      ", OperandKind::Addr16),
        0xE3 => ("XTHL", OperandKind::Plain),
        0xE4 => ("CPO      ", OperandKind::Addr16),
        0xE5 => ("PUSH H", OperandKind::Plain),
        0xE6 => ("ANI      ", OperandKind::Imm8),
        0xE7 => ("RST 4", OperandKind::Plain),
        0xE8 => ("RPE", OperandKind::Plain),
        0xE9 => ("PCHL", OperandKind::Plain),
        0xEA => ("JPE      ", OperandKind::Addr16),
        0xEB => ("XCHG", OperandKind::Plain),
        0xEC => ("CPE      ", OperandKind::Addr16),
        0xED => ("CALL*    ", OperandKind::Addr16),
        0xEE => ("XRI      ", OperandKind::Imm8),
        0xEF => ("RST 5", OperandKind::Plain),
        0xF0 => ("RP", OperandKind::Plain),
        0xF1 => ("POP PSW", OperandKind::Plain),
        0xF2 => ("JP       ", OperandKind::Addr16),
        0xF3 => ("DI", OperandKind::Plain),
        0xF4 => ("CP       ", OperandKind::Addr16),
        0xF5 => ("PUSH PSW", OperandKind::Plain),
        0xF6 => ("ORI      ", OperandKind::Imm8),
        0xF7 => ("RST 6", OperandKind::Plain),
        0xF8 => ("RM", OperandKind::Plain),
        0xF9 => ("SPHL", OperandKind::Plain),
        0xFA => ("JM       ", OperandKind::Addr16),
        0xFB => ("EI", OperandKind::Plain),
        0xFC => ("CM       ", OperandKind::Addr16),
        0xFD => ("CALL*    ", OperandKind::Addr16),
        0xFE => ("CPI      ", OperandKind::Imm8),
        _ => ("RST 7", OperandKind::Plain),
    }
}

/// The byte length of the instruction starting with `op`.
pub fn opcode_len(op: u8) -> (n: usize)
    ensures
        n == instr_len(op),
        1 <= n <= 3,
{
    let (_mnemonic, kind) = opcode_info(op);
    match kind {
        OperandKind::Plain => 1,
        OperandKind::Imm8 => 2,
        OperandKind::Imm16 => 3,
        OperandKind::Addr16 => 3,
    }
}

/// One uppercase hexadecimal digit.
pub open spec fn hex_digit_chars(n: int) -> Seq<char> {
    if n == 0 {
        "0"@
    } else if n == 1 {
        "1"@
    } else if n == 2 {
        "2"@
    } else if n == 3 {
        "3"@
    } else if n == 4 {
        "4"@
    } else if n == 5 {
        "5"@
    } else if n == 6 {
        "6"@
    } else if n == 7 {
        "7"@
    } else if n == 8 {
        "8"@
    } else if n == 9 {
        "9"@
    } else if n == 10 {
        "A"@
    } else if n == 11 {
        "B"@
    } else if n == 12 {
        "C"@
    } else if n == 13 {
        "D"@
    } else if n == 14 {
        "E"@
    } else {
        "F"@
    }
}

/// A byte as `0x` and two uppercase hexadecimal digits.
pub open spec fn hex8_chars(v: u8) -> Seq<char> {
    "0x"@ + hex_digit_chars((v / 16) as int) + hex_digit_chars((v % 16) as int)
}

/// A 16-bit value as `0x` and four uppercase hexadecimal digits.
pub open spec fn hex16_chars(v: int) -> Seq<char> {
    "0x"@ + hex_digit_chars(v / 4096 % 16) + hex_digit_chars(v / 256 % 16) + hex_digit_chars(
        v / 16 % 16,
    ) + hex_digit_chars(v % 16)
}

/// The disassembly line for the instruction at `pc`: the address, four
/// spaces, the mnemonic, and the operand bytes rendered per the opcode's
/// operand kind (little endian: low byte first in memory).
pub open spec fn line_spec(b: Seq<u8>, pc: int) -> Seq<char> {
    let (mnemonic, kind) = op_table(b[pc]);
    let prefix = hex16_chars(pc) + "    "@;
    match kind {
        OperandKind::Plain => prefix + mnemonic,
        OperandKind::Imm8 => prefix + mnemonic + "#"@ + hex8_chars(b[pc + 1]),
        OperandKind::Imm16 => prefix + mnemonic + "#"@ + hex16_chars(b[pc + 2] * 256 + b[pc + 1]),
        OperandKind::Addr16 => prefix + mnemonic + hex16_chars(b[pc + 2] * 256 + b[pc + 1]),
    }
}

/// The listing from `pc` on: one line per instruction, the cursor
/// advancing by each instruction's length.
pub open spec fn listing_spec(b: Seq<u8>, pc: int) -> Seq<Seq<char>>
    decreases b.len() - pc,
{
    if 0 <= pc < b.len() {
        let next = if pc + instr_len(b[pc]) <= b.len() {
            pc + instr_len(b[pc])
        } else {
            b.len() as int
        };
        seq![line_spec(b, pc)] + listing_spec(b, next)
    } else {
        Seq::empty()
    }
}

/// Whether a linear walk from `pc` lands exactly on the end of the image:
/// no instruction runs off the end.
pub open spec fn parses(b: Seq<u8>, pc: int) -> bool
    decreases b.len() - pc,
{
    if pc == b.len() {
        true
    } else if 0 <= pc < b.len() && pc + instr_len(b[pc]) <= b.len() {
        parses(b, pc + instr_len(b[pc]))
    } else {
        false
    }
}

/// Check that the whole image parses: every instruction, including its
/// operand bytes, lies within the image.
pub fn stream_parses(bytes: &Vec<u8>) -> (ok: bool)
    ensures
        ok == parses(bytes@, 0),
{
    let mut pc: usize = 0;
    while pc < bytes.len()
        invariant
            pc <= bytes@.len(),
            parses(bytes@, 0) == parses(bytes@, pc as int),
        decreases bytes@.len() - pc,
    {
        let l = opcode_len(bytes[pc]);
        if l > bytes.len() - pc {
            return false;
        }
        pc = pc + l;
    }
    true
}

/// One uppercase hexadecimal digit.
fn hex_digit_str(n: u8) -> (s: &'static str)
    requires
        n < 16,
    ensures
        s@ == hex_digit_chars(n as int),
{
    match n {
        0 => "0",
        1 => "1",
        2 => "2",
        3 => "3",
        4 => "4",
        5 => "5",
        6 => "6",
        7 => "7",
        8 => "8",
        9 => "9",
        10 => "A",
        11 => "B",
        12 => "C",
        13 => "D",
        14 => "E",
        _ => "F",
    }
}

/// A byte as `0x` and two digits.
fn hex8_str(v: u8) -> (s: String)
    ensures
        s@ == hex8_chars(v),
{
    let mut s = String::from_str("0x");
    s.append(hex_digit_str(v / 16));
    s.append(hex_digit_str(v % 16));
    s
}

/// A 16-bit value as `0x` and four digits.
fn hex16_str(v: u16) -> (s: String)
    ensures
        s@ == hex16_chars(v as int),
{
    let mut s = String::from_str("0x");
    s.append(hex_digit_str((v / 4096 % 16) as u8));
    s.append(hex_digit_str((v / 256 % 16) as u8));
    s.append(hex_digit_str((v / 16 % 16) as u8));
    s.append(hex_digit_str((v % 16) as u8));
    s
}

/// Render the line for the instruction at `pc`.
fn build_line(bytes: &Vec<u8>, pc: usize) -> (line: String)
    requires
        bytes@.len() <= 0x10000,
        pc < bytes@.len(),
        pc + instr_len(bytes@[pc as int]) <= bytes@.len(),
    ensures
        line@ == line_spec(bytes@, pc as int),
{
    let op = bytes[pc];
    let (mnemonic, kind) = opcode_info(op);
    let mut line = hex16_str(pc as u16);
    line.append("    ");
    line.append(mnemonic);
    match kind {
        OperandKind::Plain => {},
        OperandKind::Imm8 => {
            line.append("#");
            line.append(hex8_str(bytes[pc + 1]).as_str());
        },
        OperandKind::Imm16 => {
            line.append("#");
            let w: u16 = (bytes[pc + 2] as u16) * 256 + (bytes[pc + 1] as u16);
            line.append(hex16_str(w).as_str());
        },
        OperandKind::Addr16 => {
            let w: u16 = (bytes[pc + 2] as u16) * 256 + (bytes[pc + 1] as u16);
            line.append(hex16_str(w).as_str());
        },
    }
    line
}

/// Disassemble a whole image into one line per instruction. The image
/// must parse: data bytes inside the stream are rendered as the
/// instructions they alias, an accepted limitation of a linear walk.
pub fn disassemble(bytes: &Vec<u8>) -> (lines: Vec<String>)
    requires
        bytes@.len() <= 0x10000,
        parses(bytes@, 0),
    ensures
        lines@.map_values(|l: String| l@) == listing_spec(bytes@, 0),
{
    let mut lines: Vec<String> = Vec::new();
    let mut pc: usize = 0;
    while pc < bytes.len()
        invariant
            pc <= bytes@.len() <= 0x10000,
            parses(bytes@, pc as int),
            listing_spec(bytes@, 0) == lines@.map_values(|l: String| l@) + listing_spec(
                bytes@,
                pc as int,
            ),
        decreases bytes@.len() - pc,
    {
        let line = build_line(bytes, pc);
        let ghost prev = lines@;
        let ghost prev_pc = pc as int;
        lines.push(line);
        let l = opcode_len(bytes[pc]);
        pc = pc + l;
        proof {
            assert(lines@.map_values(|l: String| l@) =~= prev.map_values(|l: String| l@)
                + seq![line@]);
            assert(lines@.map_values(|l: String| l@) + listing_spec(bytes@, pc as int)
                =~= listing_spec(bytes@, 0));
        }
    }
    proof {
        assert(lines@.map_values(|l: String| l@) =~= listing_spec(bytes@, 0));
    }
    lines
}

} // verus!
