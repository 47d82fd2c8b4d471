//! Execution tracing support: the cycle counter a trace line reports, and a
//! disassembler for single instructions.  Printing the trace is the host's
//! business; the library only computes the text.

use vstd::prelude::*;
use vstd::string::StringExecFns;

verus! {

/// Cycle bookkeeping for instruction traces.
pub struct TraceState {
    pub enabled: bool,
    pub ppu_cycle_count: u64,
}

impl TraceState {
    pub fn new(enabled: bool) -> (r: Self)
        ensures
            r.enabled == enabled,
            r.ppu_cycle_count == 0,
    {
        TraceState { enabled, ppu_cycle_count: 0 }
    }

    /// The CPU cycle count a trace line shows: PPU dots divided by three,
    /// rounding down, since the CPU runs at a third of the dot clock.
    pub fn get_cycle_count(&self) -> (r: u64)
        ensures
            r == self.ppu_cycle_count / 3,
    {
        self.ppu_cycle_count / 3
    }

    /// Advances the dot counter; it wraps around at the 64-bit boundary.
    pub fn increment_ppu_cycles(&mut self, cycles: u64)
        ensures
            final(self).enabled == old(self).enabled,
            final(self).ppu_cycle_count == vstd::wrapping::u64_specs::wrapping_add(
                old(self).ppu_cycle_count,
                cycles,
            ),
    {
        self.ppu_cycle_count = self.ppu_cycle_count.wrapping_add(cycles);
    }
}

/// How an instruction names its operand.
pub enum AddrMode {
    Implied,
    Accumulator,
    Immediate,
    ZeroPage,
    ZeroPageX,
    ZeroPageY,
    Absolute,
    AbsoluteX,
    AbsoluteY,
    Indirect,
    IndirectX,
    IndirectY,
    Relative,
}

/// The mnemonic and addressing mode of every opcode, as the disassembler
/// prints them; an opcode outside the table reads as `???`.
pub open spec fn spec_opcode_info(opcode: u8) -> (Seq<char>, AddrMode) {
    match opcode {
        0x00 => ("BRK"@, AddrMode::Implied),
        0x01 => ("ORA"@, AddrMode::IndirectX),
        0x05 => ("ORA"@, AddrMode::ZeroPage),
        0x06 => ("ASL"@, AddrMode::ZeroPage),
        0x08 => ("PHP"@, AddrMode::Implied),
        0x09 => ("ORA"@, AddrMode::Immediate),
        0x0A => ("ASL"@, AddrMode::Accumulator),
        0x0D => ("ORA"@, AddrMode::Absolute),
        0x0E => ("ASL"@, AddrMode::Absolute),
        0x10 => ("BPL"@, AddrMode::Relative),
        0x11 => ("ORA"@, AddrMode::IndirectY),
        0x15 => ("ORA"@, AddrMode::ZeroPageX),
        0x16 => ("ASL"@, AddrMode::ZeroPageX),
        0x18 => ("CLC"@, AddrMode::Implied),
        0x19 => ("ORA"@, AddrMode::AbsoluteY),
        0x1D => ("ORA"@, AddrMode::AbsoluteX),
        0x1E => ("ASL"@, AddrMode::AbsoluteX),
        0x20 => ("JSR"@, AddrMode::Absolute),
        0x21 => ("AND"@, AddrMode::IndirectX),
        0x24 => ("BIT"@, AddrMode::ZeroPage),
        0x25 => ("AND"@, AddrMode::ZeroPage),
        0x26 => ("ROL"@, AddrMode::ZeroPage),
        0x28 => ("PLP"@, AddrMode::Implied),
        0x29 => ("AND"@, AddrMode::Immediate),
        0x2A => ("ROL"@, AddrMode::Accumulator),
        0x2C => ("BIT"@, AddrMode::Absolute),
        0x2D => ("AND"@, AddrMode::Absolute),
        0x2E => ("ROL"@, AddrMode::Absolute),
        0x30 => ("BMI"@, AddrMode::Relative),
        0x31 => ("AND"@, AddrMode::IndirectY),
        0x35 => ("AND"@, AddrMode::ZeroPageX),
        0x36 => ("ROL"@, AddrMode::ZeroPageX),
        0x38 => ("SEC"@, AddrMode::Implied),
        0x39 => ("AND"@, AddrMode::AbsoluteY),
        0x3D => ("AND"@, AddrMode::AbsoluteX),
        0x3E => ("ROL"@, AddrMode::AbsoluteX),
        0x40 => ("RTI"@, AddrMode::Implied),
        0x41 => ("EOR"@, AddrMode::IndirectX),
        0x45 => ("EOR"@, AddrMode::ZeroPage),
        0x46 => ("LSR"@, AddrMode::ZeroPage),
        0x48 => ("PHA"@, AddrMode::Implied),
        0x49 => ("EOR"@, AddrMode::Immediate),
        0x4A => ("LSR"@, AddrMode::Accumulator),
        0x4C => ("JMP"@, AddrMode::Absolute),
        0x4D => ("EOR"@, AddrMode::Absolute),
        0x4E => ("LSR"@, AddrMode::Absolute),
        0x50 => ("BVC"@, AddrMode::Relative),
        0x51 => ("EOR"@, AddrMode::IndirectY),
        0x55 => ("EOR"@, AddrMode::ZeroPageX),
        0x56 => ("LSR"@, AddrMode::ZeroPageX),
        0x58 => ("CLI"@, AddrMode::Implied),
        0x59 => ("EOR"@, AddrMode::AbsoluteY),
        0x5D => ("EOR"@, AddrMode::AbsoluteX),
        0x5E => ("LSR"@, AddrMode::AbsoluteX),
        0x60 => ("RTS"@, AddrMode::Implied),
        0x61 => ("ADC"@, AddrMode::IndirectX),
        0x65 => ("ADC"@, AddrMode::ZeroPage),
        0x66 => ("ROR"@, AddrMode::ZeroPage),
        0x68 => ("PLA"@, AddrMode::Implied),
        0x69 => ("ADC"@, AddrMode::Immediate),
        0x6A => ("ROR"@, AddrMode::Accumulator),
        0x6C => ("JMP"@, AddrMode::Indirect),
        0x6D => ("ADC"@, AddrMode::Absolute),
        0x6E => ("ROR"@, AddrMode::Absolute),
        0x70 => ("BVS"@, AddrMode::Relative),
        0x71 => ("ADC"@, AddrMode::IndirectY),
        0x75 => ("ADC"@, AddrMode::ZeroPageX),
        0x76 => ("ROR"@, AddrMode::ZeroPageX),
        0x78 => ("SEI"@, AddrMode::Implied),
        0x79 => ("ADC"@, AddrMode::AbsoluteY),
        0x7D => ("ADC"@, AddrMode::AbsoluteX),
        0x7E => ("ROR"@, AddrMode::AbsoluteX),
        0x81 => ("STA"@, AddrMode::IndirectX),
        0x84 => ("STY"@, AddrMode::ZeroPage),
        0x85 => ("STA"@, AddrMode::ZeroPage),
        0x86 => ("STX"@, AddrMode::ZeroPage),
        0x88 => ("DEY"@, AddrMode::Implied),
        0x8A => ("TXA"@, AddrMode::Implied),
        0x8C => ("STY"@, AddrMode::Absolute),
        0x8D => ("STA"@, AddrMode::Absolute),
        0x8E => ("STX"@, AddrMode::Absolute),
        0x90 => ("BCC"@, AddrMode::Relative),
        0x91 => ("STA"@, AddrMode::IndirectY),
        0x94 => ("STY"@, AddrMode::ZeroPageX),
        0x95 => ("STA"@, AddrMode::ZeroPageX),
        0x96 => ("STX"@, AddrMode::ZeroPageY),
        0x98 => ("TYA"@, AddrMode::Implied),
        0x99 => ("STA"@, AddrMode::AbsoluteY),
        0x9A => ("TXS"@, AddrMode::Implied),
        0x9D => ("STA"@, AddrMode::AbsoluteX),
        0xA0 => ("LDY"@, AddrMode::Immediate),
        0xA1 => ("LDA"@, AddrMode::IndirectX),
        0xA2 => ("LDX"@, AddrMode::Immediate),
        0xA4 => ("LDY"@, AddrMode::ZeroPage),
        0xA5 => ("LDA"@, AddrMode::ZeroPage),
        0xA6 => ("LDX"@, AddrMode::ZeroPage),
        0xA8 => ("TAY"@, AddrMode::Implied),
        0xA9 => ("LDA"@, AddrMode::Immediate),
        0xAA => ("TAX"@, AddrMode::Implied),
        0xAC => ("LDY"@, AddrMode::Absolute),
        0xAD => ("LDA"@, AddrMode::Absolute),
        0xAE => ("LDX"@, AddrMode::Absolute),
        0xB0 => ("BCS"@, AddrMode::Relative),
        0xB1 => ("LDA"@, AddrMode::IndirectY),
        0xB4 => ("LDY"@, AddrMode::ZeroPageX),
        0xB5 => ("LDA"@, AddrMode::ZeroPageX),
        0xB6 => ("LDX"@, AddrMode::ZeroPageY),
        0xB8 => ("CLV"@, AddrMode::Implied),
        0xB9 => ("LDA"@, AddrMode::AbsoluteY),
        0xBA => ("TSX"@, AddrMode::Implied),
        0xBC => ("LDY"@, AddrMode::AbsoluteX),
        0xBD => ("LDA"@, AddrMode::AbsoluteX),
        0xBE => ("LDX"@, AddrMode::AbsoluteY),
        0xC0 => ("CPY"@, AddrMode::Immediate),
        0xC1 => ("CMP"@, AddrMode::IndirectX),
        0xC4 => ("CPY"@, AddrMode::ZeroPage),
        0xC5 => ("CMP"@, AddrMode::ZeroPage),
        0xC6 => ("DEC"@, AddrMode::ZeroPage),
        0xC8 => ("INY"@, AddrMode::Implied),
        0xC9 => ("CMP"@, AddrMode::Immediate),
        0xCA => ("DEX"@, AddrMode::Implied),
        0xCC => ("CPY"@, AddrMode::Absolute),
        0xCD => ("CMP"@, AddrMode::Absolute),
        0xCE => ("DEC"@, AddrMode::Absolute),
        0xD0 => ("BNE"@, AddrMode::Relative),
        0xD1 => ("CMP"@, AddrMode::IndirectY),
        0xD5 => ("CMP"@, AddrMode::ZeroPageX),
        0xD6 => ("DEC"@, AddrMode::ZeroPageX),
        0xD8 => ("CLD"@, AddrMode::Implied),
        0xD9 => ("CMP"@, AddrMode::AbsoluteY),
        0xDD => ("CMP"@, AddrMode::AbsoluteX),
        0xDE => ("DEC"@, AddrMode::AbsoluteX),
        0xE0 => ("CPX"@, AddrMode::Immediate),
        0xE1 => ("SBC"@, AddrMode::IndirectX),
        0xE4 => ("CPX"@, AddrMode::ZeroPage),
        0xE5 => ("SBC"@, AddrMode::ZeroPage),
        0xE6 => ("INC"@, AddrMode::ZeroPage),
        0xE8 => ("INX"@, AddrMode::Implied),
        0xE9 => ("SBC"@, AddrMode::Immediate),
        0xEA => ("NOP"@, AddrMode::Implied),
        0xEC => ("CPX"@, AddrMode::Absolute),
        0xED => ("SBC"@, AddrMode::Absolute),
        0xEE => ("INC"@, AddrMode::Absolute),
        0xF0 => ("BEQ"@, AddrMode::Relative),
        0xF1 => ("SBC"@, AddrMode::IndirectY),
        0xF5 => ("SBC"@, AddrMode::ZeroPageX),
        0xF6 => ("INC"@, AddrMode::ZeroPageX),
        0xF8 => ("SED"@, AddrMode::Implied),
        0xF9 => ("SBC"@, AddrMode::AbsoluteY),
        0xFD => ("SBC"@, AddrMode::AbsoluteX),
        0xFE => ("INC"@, AddrMode::AbsoluteX),
        0x03 => ("*SLO"@, AddrMode::IndirectX),
        0x07 => ("*SLO"@, AddrMode::ZeroPage),
        0x0F => ("*SLO"@, AddrMode::Absolute),
        0x13 => ("*SLO"@, AddrMode::IndirectY),
        0x17 => ("*SLO"@, AddrMode::ZeroPageX),
        0x1B => ("*SLO"@, AddrMode::AbsoluteY),
        0x1F => ("*SLO"@, AddrMode::AbsoluteX),
        0x23 => ("*RLA"@, AddrMode::IndirectX),
        0x27 => ("*RLA"@, AddrMode::ZeroPage),
        0x2F => ("*RLA"@, AddrMode::Absolute),
        0x33 => ("*RLA"@, AddrMode::IndirectY),
        0x37 => ("*RLA"@, AddrMode::ZeroPageX),
        0x3B => ("*RLA"@, AddrMode::AbsoluteY),
        0x3F => ("*RLA"@, AddrMode::AbsoluteX),
        0x43 => ("*SRE"@, AddrMode::IndirectX),
        0x47 => ("*SRE"@, AddrMode::ZeroPage),
        0x4F => ("*SRE"@, AddrMode::Absolute),
        0x53 => ("*SRE"@, AddrMode::IndirectY),
        0x57 => ("*SRE"@, AddrMode::ZeroPageX),
        0x5B => ("*SRE"@, AddrMode::AbsoluteY),
        0x5F => ("*SRE"@, AddrMode::AbsoluteX),
        0x63 => ("*RRA"@, AddrMode::IndirectX),
        0x67 => ("*RRA"@, AddrMode::ZeroPage),
        0x6F => ("*RRA"@, AddrMode::Absolute),
        0x73 => ("*RRA"@, AddrMode::IndirectY),
        0x77 => ("*RRA"@, AddrMode::ZeroPageX),
        0x7B => ("*RRA"@, AddrMode::AbsoluteY),
        0x7F => ("*RRA"@, AddrMode::AbsoluteX),
        0x83 => ("*SAX"@, AddrMode::IndirectX),
        0x87 => ("*SAX"@, AddrMode::ZeroPage),
        0x8F => ("*SAX"@, AddrMode::Absolute),
        0x97 => ("*SAX"@, AddrMode::ZeroPageY),
        0xA3 => ("*LAX"@, AddrMode::IndirectX),
        0xA7 => ("*LAX"@, AddrMode::ZeroPage),
        0xAB => ("*LAX"@, AddrMode::Immediate),
        0xAF => ("*LAX"@, AddrMode::Absolute),
        0xB3 => ("*LAX"@, AddrMode::IndirectY),
        0xB7 => ("*LAX"@, AddrMode::ZeroPageY),
        0xBF => ("*LAX"@, AddrMode::AbsoluteY),
        0xC3 => ("*DCP"@, AddrMode::IndirectX),
        0xC7 => ("*DCP"@, AddrMode::ZeroPage),
        0xCF => ("*DCP"@, AddrMode::Absolute),
        0xD3 => ("*DCP"@, AddrMode::IndirectY),
        0xD7 => ("*DCP"@, AddrMode::ZeroPageX),
        0xDB => ("*DCP"@, AddrMode::AbsoluteY),
        0xDF => ("*DCP"@, AddrMode::AbsoluteX),
        0xE3 => ("*ISB"@, AddrMode::IndirectX),
        0xE7 => ("*ISB"@, AddrMode::ZeroPage),
        0xEB => ("*SBC"@, AddrMode::Immediate),
        0xEF => ("*ISB"@, AddrMode::Absolute),
        0xF3 => ("*ISB"@, AddrMode::IndirectY),
        0xF7 => ("*ISB"@, AddrMode::ZeroPageX),
        0xFB => ("*ISB"@, AddrMode::AbsoluteY),
        0xFF => ("*ISB"@, AddrMode::AbsoluteX),
        0x0B => ("*ANC"@, AddrMode::Immediate),
        0x2B => ("*ANC"@, AddrMode::Immediate),
        0x4B => ("*ALR"@, AddrMode::Immediate),
        0x6B => ("*ARR"@, AddrMode::Immediate),
        0xCB => ("*AXS"@, AddrMode::Immediate),
        0x04 => ("*NOP"@, AddrMode::ZeroPage),
        0x44 => ("*NOP"@, AddrMode::ZeroPage),
        0x64 => ("*NOP"@, AddrMode::ZeroPage),
        0x0C => ("*NOP"@, AddrMode::Absolute),
        0x14 => ("*NOP"@, AddrMode::ZeroPageX),
        0x34 => ("*NOP"@, AddrMode::ZeroPageX),
        0x54 => ("*NOP"@, AddrMode::ZeroPageX),
        0x74 => ("*NOP"@, AddrMode::ZeroPageX),
        0xD4 => ("*NOP"@, AddrMode::ZeroPageX),
        0xF4 => ("*NOP"@, AddrMode::ZeroPageX),
        0x1A => ("*NOP"@, AddrMode::Implied),
        0x3A => ("*NOP"@, AddrMode::Implied),
        0x5A => ("*NOP"@, AddrMode::Implied),
        0x7A => ("*NOP"@, AddrMode::Implied),
        0xDA => ("*NOP"@, AddrMode::Implied),
        0xFA => ("*NOP"@, AddrMode::Implied),
        0x1C => ("*NOP"@, AddrMode::AbsoluteX),
        0x3C => ("*NOP"@, AddrMode::AbsoluteX),
        0x5C => ("*NOP"@, AddrMode::AbsoluteX),
        0x7C => ("*NOP"@, AddrMode::AbsoluteX),
        0xDC => ("*NOP"@, AddrMode::AbsoluteX),
        0xFC => ("*NOP"@, AddrMode::AbsoluteX),
        0x80 => ("*NOP"@, AddrMode::Immediate),
        0x82 => ("*NOP"@, AddrMode::Immediate),
        0x89 => ("*NOP"@, AddrMode::Immediate),
        0xC2 => ("*NOP"@, AddrMode::Immediate),
        0xE2 => ("*NOP"@, AddrMode::Immediate),
        _ => ("???"@, AddrMode::Implied),
    }
}

/// One upper-case hexadecimal digit as text.
pub open spec fn hex_digit(n: u8) -> Seq<char> {
    if n == 0 { "0"@ } else if n == 1 { "1"@ } else if n == 2 { "2"@ }
    else if n == 3 { "3"@ } else if n == 4 { "4"@ } else if n == 5 { "5"@ }
    else if n == 6 { "6"@ } else if n == 7 { "7"@ } else if n == 8 { "8"@ }
    else if n == 9 { "9"@ } else if n == 10 { "A"@ } else if n == 11 { "B"@ }
    else if n == 12 { "C"@ } else if n == 13 { "D"@ } else if n == 14 { "E"@ }
    else { "F"@ }
}

/// A byte as two upper-case hexadecimal digits.
pub open spec fn hex_byte(v: u8) -> Seq<char> {
    hex_digit(v / 16) + hex_digit(v % 16)
}

/// A 16-bit value as four upper-case hexadecimal digits.
pub open spec fn hex_word(v: u16) -> Seq<char> {
    hex_byte((v / 0x100) as u8) + hex_byte((v % 0x100) as u8)
}

/// The text of a one-byte operand: `$XX`, or `$??` when it is missing.
pub open spec fn byte_operand_text(operand: Option<u8>) -> Seq<char> {
    match operand {
        Option::Some(b) => "$"@ + hex_byte(b),
        Option::None => "$"@ + "??"@,
    }
}

/// The text of a little-endian word operand: `$XXXX`, or `$????` when a
/// byte is missing.
pub open spec fn word_operand_text(operand1: Option<u8>, operand2: Option<u8>) -> Seq<char> {
    if operand1 is Some && operand2 is Some {
        "$"@ + hex_word((((operand1->0 as int) + (operand2->0 as int) * 0x100)) as u16)
    } else {
        "$"@ + "????"@
    }
}

/// The full rendered line of one instruction: the mnemonic followed by its
/// operand in the syntax of the addressing mode.
pub open spec fn disassembly_text(opcode: u8, operand1: Option<u8>, operand2: Option<u8>) -> Seq<
    char,
> {
    let m = spec_opcode_info(opcode).0;
    match spec_opcode_info(opcode).1 {
        AddrMode::Implied => m,
        AddrMode::Accumulator => m + " A"@,
        AddrMode::Immediate => m + " #"@ + byte_operand_text(operand1),
        AddrMode::ZeroPage => m + " "@ + byte_operand_text(operand1),
        AddrMode::ZeroPageX => m + " "@ + byte_operand_text(operand1) + ",X"@,
        AddrMode::ZeroPageY => m + " "@ + byte_operand_text(operand1) + ",Y"@,
        AddrMode::Absolute => m + " "@ + word_operand_text(operand1, operand2),
        AddrMode::AbsoluteX => m + " "@ + word_operand_text(operand1, operand2) + ",X"@,
        AddrMode::AbsoluteY => m + " "@ + word_operand_text(operand1, operand2) + ",Y"@,
        AddrMode::Indirect => m + " ("@ + word_operand_text(operand1, operand2) + ")"@,
        AddrMode::IndirectX => m + " ("@ + byte_operand_text(operand1) + ",X)"@,
        AddrMode::IndirectY => m + " ("@ + byte_operand_text(operand1) + "),Y"@,
        AddrMode::Relative => m + " "@ + byte_operand_text(operand1),
    }
}

/// One hexadecimal digit as text.
fn nibble_str(n: u8) -> (r: &'static str)
    requires
        n < 16,
    ensures
        r@ == hex_digit(n),
{
    if n == 0 {
        "0"
    } else if n == 1 {
        "1"
    } else if n == 2 {
        "2"
    } else if n == 3 {
        "3"
    } else if n == 4 {
        "4"
    } else if n == 5 {
        "5"
    } else if n == 6 {
        "6"
    } else if n == 7 {
        "7"
    } else if n == 8 {
        "8"
    } else if n == 9 {
        "9"
    } else if n == 10 {
        "A"
    } else if n == 11 {
        "B"
    } else if n == 12 {
        "C"
    } else if n == 13 {
        "D"
    } else if n == 14 {
        "E"
    } else {
        "F"
    }
}

/// Appends a byte as two upper-case hexadecimal digits.
fn push_hex_byte(out: &mut String, v: u8)
    ensures
        final(out)@ == old(out)@ + hex_byte(v),
{
    out.append(nibble_str(v / 16));
    out.append(nibble_str(v % 16));
    proof {
        assert(out@ =~= old(out)@ + hex_byte(v));
    }
}

/// Appends a 16-bit value as four upper-case hexadecimal digits.
fn push_hex_word(out: &mut String, v: u16)
    ensures
        final(out)@ == old(out)@ + hex_word(v),
{
    push_hex_byte(out, (v / 0x100) as u8);
    push_hex_byte(out, (v % 0x100) as u8);
    proof {
        assert(out@ =~= old(out)@ + hex_word(v));
    }
}

/// Appends `$XX` for a known byte operand, `$??` for a missing one.
fn push_byte_operand(out: &mut String, operand: Option<u8>)
    ensures
        final(out)@ == old(out)@ + byte_operand_text(operand),
{
    out.append("$");
    match operand {
        Option::Some(b) => push_hex_byte(out, b),
        Option::None => out.append("??"),
    }
    proof {
        assert(out@ =~= old(out)@ + byte_operand_text(operand));
    }
}

/// Appends `$XXXX` for a known word operand, `$????` for a missing one.
fn push_word_operand(out: &mut String, operand1: Option<u8>, operand2: Option<u8>)
    ensures
        final(out)@ == old(out)@ + word_operand_text(operand1, operand2),
{
    out.append("$");
    if operand1.is_some() && operand2.is_some() {
        let lo = operand_byte(operand1);
        let hi = operand_byte(operand2);
        push_hex_word(out, (hi as u16) * 0x100 + lo as u16);
    } else {
        out.append("????");
    }
    proof {
        assert(out@ =~= old(out)@ + word_operand_text(operand1, operand2));
    }
}

/// The byte inside an operand, zero when absent.
fn operand_byte(operand: Option<u8>) -> (r: u8)
    ensures
        r == (match operand {
            Option::Some(b) => b,
            Option::None => 0u8,
        }),
{
    match operand {
        Option::Some(b) => b,
        Option::None => 0,
    }
}

/// Renders one instruction in the classic trace format: the mnemonic
/// (starred for an undocumented opcode) followed by its operand in the
/// syntax of the addressing mode.
pub fn disassemble_instruction(opcode: u8, operand1: Option<u8>, operand2: Option<u8>) -> (r:
    String)
    ensures
        r@ == disassembly_text(opcode, operand1, operand2),
{
    let info = get_opcode_info(opcode);
    let mnemonic = info.0;
    let mut out = String::new();
    out.append(mnemonic);
    match info.1 {
        AddrMode::Implied => {},
        AddrMode::Accumulator => out.append(" A"),
        AddrMode::Immediate => {
            out.append(" #");
            push_byte_operand(&mut out, operand1);
        },
        AddrMode::ZeroPage => {
            out.append(" ");
            push_byte_operand(&mut out, operand1);
        },
        AddrMode::ZeroPageX => {
            out.append(" ");
            push_byte_operand(&mut out, operand1);
            out.append(",X");
        },
        AddrMode::ZeroPageY => {
            out.append(" ");
            push_byte_operand(&mut out, operand1);
            out.append(",Y");
        },
        AddrMode::Absolute => {
            out.append(" ");
            push_word_operand(&mut out, operand1, operand2);
        },
        AddrMode::AbsoluteX => {
            out.append(" ");
            push_word_operand(&mut out, operand1, operand2);
            out.append(",X");
        },
        AddrMode::AbsoluteY => {
            out.append(" ");
            push_word_operand(&mut out, operand1, operand2);
            out.append(",Y");
        },
        AddrMode::Indirect => {
            out.append(" (");
            push_word_operand(&mut out, operand1, operand2);
            out.append(")");
        },
        AddrMode::IndirectX => {
            out.append(" (");
            push_byte_operand(&mut out, operand1);
            out.append(",X)");
        },
        AddrMode::IndirectY => {
            out.append(" (");
            push_byte_operand(&mut out, operand1);
            out.append("),Y");
        },
        AddrMode::Relative => {
            out.append(" ");
            push_byte_operand(&mut out, operand1);
        },
    }
    proof {
        assert(out@ =~= disassembly_text(opcode, operand1, operand2));
    }
    out
}

/// Mnemonic and addressing mode for every opcode the CPU understands;
/// anything else disassembles as `???`.
pub fn get_opcode_info(opcode: u8) -> (r: (&'static str, AddrMode))
    ensures
        r.0@ == spec_opcode_info(opcode).0,
        r.1 == spec_opcode_info(opcode).1,
{
    match opcode {
        0x00 => ("BRK", AddrMode::Implied),
        0x01 => ("ORA", AddrMode::IndirectX),
        0x05 => ("ORA", AddrMode::ZeroPage),
        0x06 => ("ASL", AddrMode::ZeroPage),
        0x08 => ("PHP", AddrMode::Implied),
        0x09 => ("ORA", AddrMode::Immediate),
        0x0A => ("ASL", AddrMode::Accumulator),
        0x0D => ("ORA", AddrMode::Absolute),
        0x0E => ("ASL", AddrMode::Absolute),
        0x10 => ("BPL", AddrMode::Relative),
        0x11 => ("ORA", AddrMode::IndirectY),
        0x15 => ("ORA", AddrMode::ZeroPageX),
        0x16 => ("ASL", AddrMode::ZeroPageX),
        0x18 => ("CLC", AddrMode::Implied),
        0x19 => ("ORA", AddrMode::AbsoluteY),
        0x1D => ("ORA", AddrMode::AbsoluteX),
        0x1E => ("ASL", AddrMode::AbsoluteX),
        0x20 => ("JSR", AddrMode::Absolute),
        0x21 => ("AND", AddrMode::IndirectX),
        0x24 => ("BIT", AddrMode::ZeroPage),
        0x25 => ("AND", AddrMode::ZeroPage),
        0x26 => ("ROL", AddrMode::ZeroPage),
        0x28 => ("PLP", AddrMode::Implied),
        0x29 => ("AND", AddrMode::Immediate),
        0x2A => ("ROL", AddrMode::Accumulator),
        0x2C => ("BIT", AddrMode::Absolute),
        0x2D => ("AND", AddrMode::Absolute),
        0x2E => ("ROL", AddrMode::Absolute),
        0x30 => ("BMI", AddrMode::Relative),
        0x31 => ("AND", AddrMode::IndirectY),
        0x35 => ("AND", AddrMode::ZeroPageX),
        0x36 => ("ROL", AddrMode::ZeroPageX),
        0x38 => ("SEC", AddrMode::Implied),
        0x39 => ("AND", AddrMode::AbsoluteY),
        0x3D => ("AND", AddrMode::AbsoluteX),
        0x3E => ("ROL", AddrMode::AbsoluteX),
        0x40 => ("RTI", AddrMode::Implied),
        0x41 => ("EOR", AddrMode::IndirectX),
        0x45 => ("EOR", AddrMode::ZeroPage),
        0x46 => ("LSR", AddrMode::ZeroPage),
        0x48 => ("PHA", AddrMode::Implied),
        0x49 => ("EOR", AddrMode::Immediate),
        0x4A => ("LSR", AddrMode::Accumulator),
        0x4C => ("JMP", AddrMode::Absolute),
        0x4D => ("EOR", AddrMode::Absolute),
        0x4E => ("LSR", AddrMode::Absolute),
        0x50 => ("BVC", AddrMode::Relative),
        0x51 => ("EOR", AddrMode::IndirectY),
        0x55 => ("EOR", AddrMode::ZeroPageX),
        0x56 => ("LSR", AddrMode::ZeroPageX),
        0x58 => ("CLI", AddrMode::Implied),
        0x59 => ("EOR", AddrMode::AbsoluteY),
        0x5D => ("EOR", AddrMode::AbsoluteX),
        0x5E => ("LSR", AddrMode::AbsoluteX),
        0x60 => ("RTS", AddrMode::Implied),
        0x61 => ("ADC", AddrMode::IndirectX),
        0x65 => ("ADC", AddrMode::ZeroPage),
        0x66 => ("ROR", AddrMode::ZeroPage),
        0x68 => ("PLA", AddrMode::Implied),
        0x69 => ("ADC", AddrMode::Immediate),
        0x6A => ("ROR", AddrMode::Accumulator),
        0x6C => ("JMP", AddrMode::Indirect),
        0x6D => ("ADC", AddrMode::Absolute),
        0x6E => ("ROR", AddrMode::Absolute),
        0x70 => ("BVS", AddrMode::Relative),
        0x71 => ("ADC", AddrMode::IndirectY),
        0x75 => ("ADC", AddrMode::ZeroPageX),
        0x76 => ("ROR", AddrMode::ZeroPageX),
        0x78 => ("SEI", AddrMode::Implied),
        0x79 => ("ADC", AddrMode::AbsoluteY),
        0x7D => ("ADC", AddrMode::AbsoluteX),
        0x7E => ("ROR", AddrMode::AbsoluteX),
        0x81 => ("STA", AddrMode::IndirectX),
        0x84 => ("STY", AddrMode::ZeroPage),
        0x85 => ("STA", AddrMode::ZeroPage),
        0x86 => ("STX", AddrMode::ZeroPage),
        0x88 => ("DEY", AddrMode::Implied),
        0x8A => ("TXA", AddrMode::Implied),
        0x8C => ("STY", AddrMode::Absolute),
        0x8D => ("STA", AddrMode::Absolute),
        0x8E => ("STX", AddrMode::Absolute),
        0x90 => ("BCC", AddrMode::Relative),
        0x91 => ("STA", AddrMode::IndirectY),
        0x94 => ("STY", AddrMode::ZeroPageX),
        0x95 => ("STA", AddrMode::ZeroPageX),
        0x96 => ("STX", AddrMode::ZeroPageY),
        0x98 => ("TYA", AddrMode::Implied),
        0x99 => ("STA", AddrMode::AbsoluteY),
        0x9A => ("TXS", AddrMode::Implied),
        0x9D => ("STA", AddrMode::AbsoluteX),
        0xA0 => ("LDY", AddrMode::Immediate),
        0xA1 => ("LDA", AddrMode::IndirectX),
        0xA2 => ("LDX", AddrMode::Immediate),
        0xA4 => ("LDY", AddrMode::ZeroPage),
        0xA5 => ("LDA", AddrMode::ZeroPage),
        0xA6 => ("LDX", AddrMode::ZeroPage),
        0xA8 => ("TAY", AddrMode::Implied),
        0xA9 => ("LDA", AddrMode::Immediate),
        0xAA => ("TAX", AddrMode::Implied),
        0xAC => ("LDY", AddrMode::Absolute),
        0xAD => ("LDA", AddrMode::Absolute),
        0xAE => ("LDX", AddrMode::Absolute),
        0xB0 => ("BCS", AddrMode::Relative),
        0xB1 => ("LDA", AddrMode::IndirectY),
        0xB4 => ("LDY", AddrMode::ZeroPageX),
        0xB5 => ("LDA", AddrMode::ZeroPageX),
        0xB6 => ("LDX", AddrMode::ZeroPageY),
        0xB8 => ("CLV", AddrMode::Implied),
        0xB9 => ("LDA", AddrMode::AbsoluteY),
        0xBA => ("TSX", AddrMode::Implied),
        0xBC => ("LDY", AddrMode::AbsoluteX),
        0xBD => ("LDA", AddrMode::AbsoluteX),
        0xBE => ("LDX", AddrMode::AbsoluteY),
        0xC0 => ("CPY", AddrMode::Immediate),
        0xC1 => ("CMP", AddrMode::IndirectX),
        0xC4 => ("CPY", AddrMode::ZeroPage),
        0xC5 => ("CMP", AddrMode::ZeroPage),
        0xC6 => ("DEC", AddrMode::ZeroPage),
        0xC8 => ("INY", AddrMode::Implied),
        0xC9 => ("CMP", AddrMode::Immediate),
        0xCA => ("DEX", AddrMode::Implied),
        0xCC => ("CPY", AddrMode::Absolute),
        0xCD => ("CMP", AddrMode::Absolute),
        0xCE => ("DEC", AddrMode::Absolute),
        0xD0 => ("BNE", AddrMode::Relative),
        0xD1 => ("CMP", AddrMode::IndirectY),
        0xD5 => ("CMP", AddrMode::ZeroPageX),
        0xD6 => ("DEC", AddrMode::ZeroPageX),
        0xD8 => ("CLD", AddrMode::Implied),
        0xD9 => ("CMP", AddrMode::AbsoluteY),
        0xDD => ("CMP", AddrMode::AbsoluteX),
        0xDE => ("DEC", AddrMode::AbsoluteX),
        0xE0 => ("CPX", AddrMode::Immediate),
        0xE1 => ("SBC", AddrMode::IndirectX),
        0xE4 => ("CPX", AddrMode::ZeroPage),
        0xE5 => ("SBC", AddrMode::ZeroPage),
        0xE6 => ("INC", AddrMode::ZeroPage),
        0xE8 => ("INX", AddrMode::Implied),
        0xE9 => ("SBC", AddrMode::Immediate),
        0xEA => ("NOP", AddrMode::Implied),
        0xEC => ("CPX", AddrMode::Absolute),
        0xED => ("SBC", AddrMode::Absolute),
        0xEE => ("INC", AddrMode::Absolute),
        0xF0 => ("BEQ", AddrMode::Relative),
        0xF1 => ("SBC", AddrMode::IndirectY),
        0xF5 => ("SBC", AddrMode::ZeroPageX),
        0xF6 => ("INC", AddrMode::ZeroPageX),
        0xF8 => ("SED", AddrMode::Implied),
        0xF9 => ("SBC", AddrMode::AbsoluteY),
        0xFD => ("SBC", AddrMode::AbsoluteX),
        0xFE => ("INC", AddrMode::AbsoluteX),
        0x03 => ("*SLO", AddrMode::IndirectX),
        0x07 => ("*SLO", AddrMode::ZeroPage),
        0x0F => ("*SLO", AddrMode::Absolute),
        0x13 => ("*SLO", AddrMode::IndirectY),
        0x17 => ("*SLO", AddrMode::ZeroPageX),
        0x1B => ("*SLO", AddrMode::AbsoluteY),
        0x1F => ("*SLO", AddrMode::AbsoluteX),
        0x23 => ("*RLA", AddrMode::IndirectX),
        0x27 => ("*RLA", AddrMode::ZeroPage),
        0x2F => ("*RLA", AddrMode::Absolute),
        0x33 => ("*RLA", AddrMode::IndirectY),
        0x37 => ("*RLA", AddrMode::ZeroPageX),
        0x3B => ("*RLA", AddrMode::AbsoluteY),
        0x3F => ("*RLA", AddrMode::AbsoluteX),
        0x43 => ("*SRE", AddrMode::IndirectX),
        0x47 => ("*SRE", AddrMode::ZeroPage),
        0x4F => ("*SRE", AddrMode::Absolute),
        0x53 => ("*SRE", AddrMode::IndirectY),
        0x57 => ("*SRE", AddrMode::ZeroPageX),
        0x5B => ("*SRE", AddrMode::AbsoluteY),
        0x5F => ("*SRE", AddrMode::AbsoluteX),
        0x63 => ("*RRA", AddrMode::IndirectX),
        0x67 => ("*RRA", AddrMode::ZeroPage),
        0x6F => ("*RRA", AddrMode::Absolute),
        0x73 => ("*RRA", AddrMode::IndirectY),
        0x77 => ("*RRA", AddrMode::ZeroPageX),
        0x7B => ("*RRA", AddrMode::AbsoluteY),
        0x7F => ("*RRA", AddrMode::AbsoluteX),
        0x83 => ("*SAX", AddrMode::IndirectX),
        0x87 => ("*SAX", AddrMode::ZeroPage),
        0x8F => ("*SAX", AddrMode::Absolute),
        0x97 => ("*SAX", AddrMode::ZeroPageY),
        0xA3 => ("*LAX", AddrMode::IndirectX),
        0xA7 => ("*LAX", AddrMode::ZeroPage),
        0xAB => ("*LAX", AddrMode::Immediate),
        0xAF => ("*LAX", AddrMode::Absolute),
        0xB3 => ("*LAX", AddrMode::IndirectY),
        0xB7 => ("*LAX", AddrMode::ZeroPageY),
        0xBF => ("*LAX", AddrMode::AbsoluteY),
        0xC3 => ("*DCP", AddrMode::IndirectX),
        0xC7 => ("*DCP", AddrMode::ZeroPage),
        0xCF => ("*DCP", AddrMode::Absolute),
        0xD3 => ("*DCP", AddrMode::IndirectY),
        0xD7 => ("*DCP", AddrMode::ZeroPageX),
        0xDB => ("*DCP", AddrMode::AbsoluteY),
        0xDF => ("*DCP", AddrMode::AbsoluteX),
        0xE3 => ("*ISB", AddrMode::IndirectX),
        0xE7 => ("*ISB", AddrMode::ZeroPage),
        0xEB => ("*SBC", AddrMode::Immediate),
        0xEF => ("*ISB", AddrMode::Absolute),
        0xF3 => ("*ISB", AddrMode::IndirectY),
        0xF7 => ("*ISB", AddrMode::ZeroPageX),
        0xFB => ("*ISB", AddrMode::AbsoluteY),
        0xFF => ("*ISB", AddrMode::AbsoluteX),
        0x0B => ("*ANC", AddrMode::Immediate),
        0x2B => ("*ANC", AddrMode::Immediate),
        0x4B => ("*ALR", AddrMode::Immediate),
        0x6B => ("*ARR", AddrMode::Immediate),
        0xCB => ("*AXS", AddrMode::Immediate),
        0x04 => ("*NOP", AddrMode::ZeroPage),
        0x44 => ("*NOP", AddrMode::ZeroPage),
        0x64 => ("*NOP", AddrMode::ZeroPage),
        0x0C => ("*NOP", AddrMode::Absolute),
        0x14 => ("*NOP", AddrMode::ZeroPageX),
        0x34 => ("*NOP", AddrMode::ZeroPageX),
        0x54 => ("*NOP", AddrMode::ZeroPageX),
        0x74 => ("*NOP", AddrMode::ZeroPageX),
        0xD4 => ("*NOP", AddrMode::ZeroPageX),
        0xF4 => ("*NOP", AddrMode::ZeroPageX),
        0x1A => ("*NOP", AddrMode::Implied),
        0x3A => ("*NOP", AddrMode::Implied),
        0x5A => ("*NOP", AddrMode::Implied),
        0x7A => ("*NOP", AddrMode::Implied),
        0xDA => ("*NOP", AddrMode::Implied),
        0xFA => ("*NOP", AddrMode::Implied),
        0x1C => ("*NOP", AddrMode::AbsoluteX),
        0x3C => ("*NOP", AddrMode::AbsoluteX),
        0x5C => ("*NOP", AddrMode::AbsoluteX),
        0x7C => ("*NOP", AddrMode::AbsoluteX),
        0xDC => ("*NOP", AddrMode::AbsoluteX),
        0xFC => ("*NOP", AddrMode::AbsoluteX),
        0x80 => ("*NOP", AddrMode::Immediate),
        0x82 => ("*NOP", AddrMode::Immediate),
        0x89 => ("*NOP", AddrMode::Immediate),
        0xC2 => ("*NOP", AddrMode::Immediate),
        0xE2 => ("*NOP", AddrMode::Immediate),
        _ => ("???", AddrMode::Implied),
    }
}

} // verus!
