//! The instruction-text formatter: renders one instruction at the
//! program counter as the conventional assembler text, reading from a
//! full image of the CPU address space. Every produced string is
//! pinned by a specification over the image bytes. A byte outside the
//! decode table renders as a fixed placeholder: formatting is a
//! diagnostic surface, never a fault.

use vstd::prelude::*;
use vstd::string::*;

verus! {

/// The character for one hexadecimal digit.
pub open spec fn spec_hex_digit(n: u8) -> char {
    if n == 0 {
        '0'
    } else if n == 1 {
        '1'
    } else if n == 2 {
        '2'
    } else if n == 3 {
        '3'
    } else if n == 4 {
        '4'
    } else if n == 5 {
        '5'
    } else if n == 6 {
        '6'
    } else if n == 7 {
        '7'
    } else if n == 8 {
        '8'
    } else if n == 9 {
        '9'
    } else if n == 10 {
        'A'
    } else if n == 11 {
        'B'
    } else if n == 12 {
        'C'
    } else if n == 13 {
        'D'
    } else if n == 14 {
        'E'
    } else {
        'F'
    }
}

/// Two upper-case hexadecimal digits of a byte.
pub open spec fn spec_hex2(v: u8) -> Seq<char> {
    seq![spec_hex_digit(v / 16), spec_hex_digit(v % 16)]
}

/// Four upper-case hexadecimal digits of a word.
pub open spec fn spec_hex4(w: u16) -> Seq<char> {
    spec_hex2((w / 256) as u8) + spec_hex2((w % 256) as u8)
}

fn hex_char(n: u8) -> (r: &'static str)
    requires
        n < 16,
    ensures
        r@ == seq![spec_hex_digit(n)],
{
    match n {
        0 => {
            proof {
                reveal_strlit("0");
            }
            "0"
        },
        1 => {
            proof {
                reveal_strlit("1");
            }
            "1"
        },
        2 => {
            proof {
                reveal_strlit("2");
            }
            "2"
        },
        3 => {
            proof {
                reveal_strlit("3");
            }
            "3"
        },
        4 => {
            proof {
                reveal_strlit("4");
            }
            "4"
        },
        5 => {
            proof {
                reveal_strlit("5");
            }
            "5"
        },
        6 => {
            proof {
                reveal_strlit("6");
            }
            "6"
        },
        7 => {
            proof {
                reveal_strlit("7");
            }
            "7"
        },
        8 => {
            proof {
                reveal_strlit("8");
            }
            "8"
        },
        9 => {
            proof {
                reveal_strlit("9");
            }
            "9"
        },
        10 => {
            proof {
                reveal_strlit("A");
            }
            "A"
        },
        11 => {
            proof {
                reveal_strlit("B");
            }
            "B"
        },
        12 => {
            proof {
                reveal_strlit("C");
            }
            "C"
        },
        13 => {
            proof {
                reveal_strlit("D");
            }
            "D"
        },
        14 => {
            proof {
                reveal_strlit("E");
            }
            "E"
        },
        _ => {
            proof {
                reveal_strlit("F");
            }
            "F"
        },
    }
}

/// A byte as two hexadecimal digits.
pub fn hex2(v: u8) -> (r: String)
    ensures
        r@ == spec_hex2(v),
{
    let mut s = String::from_str(hex_char(v / 16));
    s.append(hex_char(v % 16));
    s
}

/// A word as four hexadecimal digits.
pub fn hex4(w: u16) -> (r: String)
    ensures
        r@ == spec_hex4(w),
{
    let mut s = hex2((w / 256) as u8);
    s.append(hex2((w % 256) as u8).as_str());
    s
}

/// The byte of the image at a wrapped address.
pub open spec fn spec_byte_at(mem: Seq<u8>, pc: int) -> u8
    recommends
        mem.len() == 65536,
{
    mem[pc % 65536]
}

/// The little-endian word of the image at a wrapped address.
pub open spec fn spec_word_at(mem: Seq<u8>, pc: int) -> int {
    spec_byte_at(mem, pc) + 256 * spec_byte_at(mem, (pc + 1) % 65536)
}

pub open spec fn spec_dollar2(mem: Seq<u8>, pc: int) -> Seq<char> {
    seq!['$'] + spec_hex2(spec_byte_at(mem, pc))
}

pub open spec fn spec_dollar4(mem: Seq<u8>, pc: int) -> Seq<char> {
    seq!['$'] + spec_hex4(spec_word_at(mem, pc) as u16)
}

pub open spec fn spec_am_immediate(mem: Seq<u8>, pc: int) -> Seq<char> {
    seq!['#'] + spec_dollar2(mem, pc)
}

pub open spec fn spec_am_accumulator(mem: Seq<u8>, pc: int) -> Seq<char> {
    Seq::<char>::empty()
}

pub open spec fn spec_am_zero_page(mem: Seq<u8>, pc: int) -> Seq<char> {
    spec_dollar2(mem, pc)
}

pub open spec fn spec_am_zero_page_x(mem: Seq<u8>, pc: int) -> Seq<char> {
    spec_dollar2(mem, pc) + seq![',', 'X']
}

pub open spec fn spec_am_zero_page_y(mem: Seq<u8>, pc: int) -> Seq<char> {
    spec_dollar2(mem, pc) + seq![',', 'Y']
}

pub open spec fn spec_am_absolute(mem: Seq<u8>, pc: int) -> Seq<char> {
    spec_dollar4(mem, pc)
}

pub open spec fn spec_am_absolute_x(mem: Seq<u8>, pc: int) -> Seq<char> {
    spec_dollar4(mem, pc) + seq![',', 'X']
}

pub open spec fn spec_am_absolute_y(mem: Seq<u8>, pc: int) -> Seq<char> {
    spec_dollar4(mem, pc) + seq![',', 'Y']
}

pub open spec fn spec_am_indexed_indirect_x(mem: Seq<u8>, pc: int) -> Seq<char> {
    seq!['('] + spec_dollar2(mem, pc) + seq![',', 'X', ')']
}

pub open spec fn spec_am_indirect_indexed_y(mem: Seq<u8>, pc: int) -> Seq<char> {
    seq!['('] + spec_dollar2(mem, pc) + seq![')', ',', 'Y']
}

/// How many image bytes one rendered instruction consumes: the
/// opcode, plus the operand bytes its text shows. Branch and call
/// displacements render as a fixed placeholder and consume nothing,
/// as this formatter has always done.
pub open spec fn spec_dis_len(op: u8) -> int {
    match op {
        0x00u8 => 1,
        0x01u8 => 2,
        0x05u8 => 2,
        0x06u8 => 2,
        0x08u8 => 1,
        0x09u8 => 2,
        0x0Au8 => 1,
        0x0Du8 => 3,
        0x0Eu8 => 3,
        0x10u8 => 1,
        0x11u8 => 2,
        0x15u8 => 2,
        0x16u8 => 2,
        0x18u8 => 1,
        0x19u8 => 3,
        0x1Du8 => 3,
        0x1Eu8 => 3,
        0x20u8 => 1,
        0x21u8 => 2,
        0x24u8 => 2,
        0x25u8 => 2,
        0x26u8 => 2,
        0x28u8 => 1,
        0x29u8 => 2,
        0x2Au8 => 1,
        0x2Cu8 => 3,
        0x2Du8 => 3,
        0x2Eu8 => 3,
        0x30u8 => 1,
        0x31u8 => 2,
        0x35u8 => 2,
        0x36u8 => 2,
        0x38u8 => 1,
        0x39u8 => 3,
        0x3Du8 => 3,
        0x3Eu8 => 3,
        0x40u8 => 1,
        0x41u8 => 2,
        0x45u8 => 2,
        0x46u8 => 2,
        0x48u8 => 1,
        0x49u8 => 2,
        0x4Au8 => 1,
        0x4Cu8 => 3,
        0x4Du8 => 3,
        0x4Eu8 => 3,
        0x50u8 => 1,
        0x51u8 => 2,
        0x55u8 => 2,
        0x56u8 => 2,
        0x58u8 => 1,
        0x59u8 => 3,
        0x5Du8 => 3,
        0x5Eu8 => 3,
        0x60u8 => 1,
        0x61u8 => 2,
        0x65u8 => 2,
        0x66u8 => 2,
        0x68u8 => 1,
        0x69u8 => 2,
        0x6Au8 => 1,
        0x6Cu8 => 3,
        0x6Du8 => 3,
        0x6Eu8 => 3,
        0x70u8 => 1,
        0x71u8 => 2,
        0x75u8 => 2,
        0x76u8 => 2,
        0x78u8 => 1,
        0x79u8 => 3,
        0x7Du8 => 3,
        0x7Eu8 => 3,
        0x81u8 => 2,
        0x84u8 => 2,
        0x85u8 => 2,
        0x86u8 => 2,
        0x88u8 => 1,
        0x8Au8 => 1,
        0x8Cu8 => 3,
        0x8Du8 => 3,
        0x8Eu8 => 3,
        0x90u8 => 1,
        0x91u8 => 2,
        0x94u8 => 2,
        0x95u8 => 2,
        0x96u8 => 2,
        0x98u8 => 1,
        0x99u8 => 3,
        0x9Au8 => 1,
        0x9Du8 => 3,
        0xA0u8 => 2,
        0xA1u8 => 2,
        0xA2u8 => 2,
        0xA4u8 => 2,
        0xA5u8 => 2,
        0xA6u8 => 2,
        0xA8u8 => 1,
        0xA9u8 => 2,
        0xAAu8 => 1,
        0xACu8 => 3,
        0xADu8 => 3,
        0xAEu8 => 3,
        0xB0u8 => 1,
        0xB1u8 => 2,
        0xB4u8 => 2,
        0xB5u8 => 2,
        0xB6u8 => 2,
        0xB8u8 => 1,
        0xB9u8 => 3,
        0xBAu8 => 1,
        0xBCu8 => 3,
        0xBDu8 => 3,
        0xBEu8 => 3,
        0xC0u8 => 2,
        0xC1u8 => 2,
        0xC4u8 => 2,
        0xC5u8 => 2,
        0xC6u8 => 2,
        0xC8u8 => 1,
        0xC9u8 => 2,
        0xCAu8 => 1,
        0xCCu8 => 3,
        0xCDu8 => 3,
        0xCEu8 => 3,
        0xD0u8 => 1,
        0xD1u8 => 2,
        0xD5u8 => 2,
        0xD6u8 => 2,
        0xD8u8 => 1,
        0xD9u8 => 3,
        0xDDu8 => 3,
        0xDEu8 => 3,
        0xE0u8 => 2,
        0xE1u8 => 2,
        0xE4u8 => 2,
        0xE5u8 => 2,
        0xE6u8 => 2,
        0xE8u8 => 1,
        0xE9u8 => 2,
        0xEAu8 => 1,
        0xECu8 => 3,
        0xEDu8 => 3,
        0xEEu8 => 3,
        0xF0u8 => 1,
        0xF1u8 => 2,
        0xF5u8 => 2,
        0xF6u8 => 2,
        0xF8u8 => 1,
        0xF9u8 => 3,
        0xFDu8 => 3,
        0xFEu8 => 3,
        _ => 1,
    }
}

/// The text one instruction renders to, from the image and the
/// address of its opcode byte.
pub open spec fn spec_disassemble(mem: Seq<u8>, pc: int) -> Seq<char>
    recommends
        mem.len() == 65536,
{
    let pcn = (pc + 1) % 65536;
    match spec_byte_at(mem, pc) {
        0x00u8 => "BRK"@,
        0x01u8 => "ORA "@ + spec_am_indexed_indirect_x(mem, pcn),
        0x05u8 => "ORA "@ + spec_am_zero_page(mem, pcn),
        0x06u8 => "ASL "@ + spec_am_zero_page(mem, pcn),
        0x08u8 => "PHP"@,
        0x09u8 => "ORA "@ + spec_am_immediate(mem, pcn),
        0x0Au8 => "ASL "@ + spec_am_accumulator(mem, pcn),
        0x0Du8 => "ORA "@ + spec_am_absolute(mem, pcn),
        0x0Eu8 => "ASL "@ + spec_am_absolute(mem, pcn),
        0x10u8 => "BPL xx"@,
        0x11u8 => "ORA "@ + spec_am_indirect_indexed_y(mem, pcn),
        0x15u8 => "ORA "@ + spec_am_zero_page_x(mem, pcn),
        0x16u8 => "ASL "@ + spec_am_zero_page_x(mem, pcn),
        0x18u8 => "CLC"@,
        0x19u8 => "ORA "@ + spec_am_absolute_y(mem, pcn),
        0x1Du8 => "ORA "@ + spec_am_absolute_x(mem, pcn),
        0x1Eu8 => "ASL "@ + spec_am_absolute_x(mem, pcn),
        0x20u8 => "JSR xx"@,
        0x21u8 => "AND "@ + spec_am_indexed_indirect_x(mem, pcn),
        0x24u8 => "BIT "@ + spec_am_zero_page(mem, pcn),
        0x25u8 => "AND "@ + spec_am_zero_page(mem, pcn),
        0x26u8 => "ROL "@ + spec_am_zero_page(mem, pcn),
        0x28u8 => "PLP"@,
        0x29u8 => "AND "@ + spec_am_immediate(mem, pcn),
        0x2Au8 => "ROL "@ + spec_am_accumulator(mem, pcn),
        0x2Cu8 => "BIT "@ + spec_am_absolute(mem, pcn),
        0x2Du8 => "AND "@ + spec_am_absolute(mem, pcn),
        0x2Eu8 => "ROL "@ + spec_am_absolute(mem, pcn),
        0x30u8 => "BMI xx"@,
        0x31u8 => "AND "@ + spec_am_indirect_indexed_y(mem, pcn),
        0x35u8 => "AND "@ + spec_am_zero_page_x(mem, pcn),
        0x36u8 => "ROL "@ + spec_am_zero_page_x(mem, pcn),
        0x38u8 => "SEC"@,
        0x39u8 => "AND "@ + spec_am_absolute_y(mem, pcn),
        0x3Du8 => "AND "@ + spec_am_absolute_x(mem, pcn),
        0x3Eu8 => "ROL "@ + spec_am_absolute_x(mem, pcn),
        0x40u8 => "RTI"@,
        0x41u8 => "EOR "@ + spec_am_indexed_indirect_x(mem, pcn),
        0x45u8 => "EOR "@ + spec_am_zero_page(mem, pcn),
        0x46u8 => "LSR "@ + spec_am_zero_page(mem, pcn),
        0x48u8 => "PHA"@,
        0x49u8 => "EOR "@ + spec_am_immediate(mem, pcn),
        0x4Au8 => "LSR "@ + spec_am_accumulator(mem, pcn),
        0x4Cu8 => "JMP "@ + spec_dollar4(mem, pcn),
        0x4Du8 => "EOR "@ + spec_am_absolute(mem, pcn),
        0x4Eu8 => "LSR "@ + spec_am_absolute(mem, pcn),
        0x50u8 => "BVC xx"@,
        0x51u8 => "EOR "@ + spec_am_indirect_indexed_y(mem, pcn),
        0x55u8 => "EOR "@ + spec_am_zero_page_x(mem, pcn),
        0x56u8 => "LSR "@ + spec_am_zero_page_x(mem, pcn),
        0x58u8 => "CLI"@,
        0x59u8 => "EOR "@ + spec_am_absolute_y(mem, pcn),
        0x5Du8 => "EOR "@ + spec_am_absolute_x(mem, pcn),
        0x5Eu8 => "LSR "@ + spec_am_absolute_x(mem, pcn),
        0x60u8 => "RTS"@,
        0x61u8 => "ADC "@ + spec_am_indexed_indirect_x(mem, pcn),
        0x65u8 => "ADC "@ + spec_am_zero_page(mem, pcn),
        0x66u8 => "ROR "@ + spec_am_zero_page(mem, pcn),
        0x68u8 => "PLA"@,
        0x69u8 => "ADC "@ + spec_am_immediate(mem, pcn),
        0x6Au8 => "ROR "@ + spec_am_accumulator(mem, pcn),
        0x6Cu8 => "JMP ("@ + spec_dollar4(mem, pcn) + ")"@,
        0x6Du8 => "ADC "@ + spec_am_absolute(mem, pcn),
        0x6Eu8 => "ROR "@ + spec_am_absolute(mem, pcn),
        0x70u8 => "BVS xx"@,
        0x71u8 => "ADC "@ + spec_am_indirect_indexed_y(mem, pcn),
        0x75u8 => "ADC "@ + spec_am_zero_page_x(mem, pcn),
        0x76u8 => "ROR "@ + spec_am_zero_page_x(mem, pcn),
        0x78u8 => "SEI"@,
        0x79u8 => "ADC "@ + spec_am_absolute_y(mem, pcn),
        0x7Du8 => "ADC "@ + spec_am_absolute_x(mem, pcn),
        0x7Eu8 => "ROR "@ + spec_am_absolute_x(mem, pcn),
        0x81u8 => "STA "@ + spec_am_indexed_indirect_x(mem, pcn),
        0x84u8 => "STY "@ + spec_am_zero_page(mem, pcn),
        0x85u8 => "STA "@ + spec_am_zero_page(mem, pcn),
        0x86u8 => "STX "@ + spec_am_zero_page(mem, pcn),
        0x88u8 => "DEY"@,
        0x8Au8 => "TXA"@,
        0x8Cu8 => "STY "@ + spec_am_absolute(mem, pcn),
        0x8Du8 => "STA "@ + spec_am_absolute(mem, pcn),
        0x8Eu8 => "STX "@ + spec_am_absolute(mem, pcn),
        0x90u8 => "BCC xx"@,
        0x91u8 => "STA "@ + spec_am_indirect_indexed_y(mem, pcn),
        0x94u8 => "STY "@ + spec_am_zero_page_x(mem, pcn),
        0x95u8 => "STA "@ + spec_am_zero_page_x(mem, pcn),
        0x96u8 => "STX "@ + spec_am_zero_page_y(mem, pcn),
        0x98u8 => "TYA"@,
        0x99u8 => "STA "@ + spec_am_absolute_y(mem, pcn),
        0x9Au8 => "TXS"@,
        0x9Du8 => "STA "@ + spec_am_absolute_x(mem, pcn),
        0xA0u8 => "LDY "@ + spec_am_immediate(mem, pcn),
        0xA1u8 => "LDA "@ + spec_am_indexed_indirect_x(mem, pcn),
        0xA2u8 => "LDX "@ + spec_am_immediate(mem, pcn),
        0xA4u8 => "LDY "@ + spec_am_zero_page(mem, pcn),
        0xA5u8 => "LDA "@ + spec_am_zero_page(mem, pcn),
        0xA6u8 => "LDX "@ + spec_am_zero_page(mem, pcn),
        0xA8u8 => "TAY"@,
        0xA9u8 => "LDA "@ + spec_am_immediate(mem, pcn),
        0xAAu8 => "TAX"@,
        0xACu8 => "LDY "@ + spec_am_absolute(mem, pcn),
        0xADu8 => "LDA "@ + spec_am_absolute(mem, pcn),
        0xAEu8 => "LDX "@ + spec_am_absolute(mem, pcn),
        0xB0u8 => "BCS xx"@,
        0xB1u8 => "LDA "@ + spec_am_indirect_indexed_y(mem, pcn),
        0xB4u8 => "LDY "@ + spec_am_zero_page_x(mem, pcn),
        0xB5u8 => "LDA "@ + spec_am_zero_page_x(mem, pcn),
        0xB6u8 => "LDX "@ + spec_am_zero_page_y(mem, pcn),
        0xB8u8 => "CLV"@,
        0xB9u8 => "LDA "@ + spec_am_absolute_y(mem, pcn),
        0xBAu8 => "TSX"@,
        0xBCu8 => "LDY "@ + spec_am_absolute_x(mem, pcn),
        0xBDu8 => "LDA "@ + spec_am_absolute_x(mem, pcn),
        0xBEu8 => "LDX "@ + spec_am_absolute_y(mem, pcn),
        0xC0u8 => "CPY "@ + spec_am_immediate(mem, pcn),
        0xC1u8 => "CMP "@ + spec_am_indexed_indirect_x(mem, pcn),
        0xC4u8 => "CPY "@ + spec_am_zero_page(mem, pcn),
        0xC5u8 => "CMP "@ + spec_am_zero_page(mem, pcn),
        0xC6u8 => "DEC "@ + spec_am_zero_page(mem, pcn),
        0xC8u8 => "INY"@,
        0xC9u8 => "CMP "@ + spec_am_immediate(mem, pcn),
        0xCAu8 => "DEX"@,
        0xCCu8 => "CPY "@ + spec_am_absolute(mem, pcn),
        0xCDu8 => "CMP "@ + spec_am_absolute(mem, pcn),
        0xCEu8 => "DEC "@ + spec_am_absolute(mem, pcn),
        0xD0u8 => "BNE xx"@,
        0xD1u8 => "CMP "@ + spec_am_indirect_indexed_y(mem, pcn),
        0xD5u8 => "CMP "@ + spec_am_zero_page_x(mem, pcn),
        0xD6u8 => "DEC "@ + spec_am_zero_page_x(mem, pcn),
        0xD8u8 => "CLD"@,
        0xD9u8 => "CMP "@ + spec_am_absolute_y(mem, pcn),
        0xDDu8 => "CMP "@ + spec_am_absolute_x(mem, pcn),
        0xDEu8 => "DEC "@ + spec_am_absolute_x(mem, pcn),
        0xE0u8 => "CPX "@ + spec_am_immediate(mem, pcn),
        0xE1u8 => "SBC "@ + spec_am_indexed_indirect_x(mem, pcn),
        0xE4u8 => "CPX "@ + spec_am_zero_page(mem, pcn),
        0xE5u8 => "SBC "@ + spec_am_zero_page(mem, pcn),
        0xE6u8 => "INC "@ + spec_am_zero_page(mem, pcn),
        0xE8u8 => "INX"@,
        0xE9u8 => "SBC "@ + spec_am_immediate(mem, pcn),
        0xEAu8 => "NOP"@,
        0xECu8 => "CPX "@ + spec_am_absolute(mem, pcn),
        0xEDu8 => "SBC "@ + spec_am_absolute(mem, pcn),
        0xEEu8 => "INC "@ + spec_am_absolute(mem, pcn),
        0xF0u8 => "BEQ xx"@,
        0xF1u8 => "SBC "@ + spec_am_indirect_indexed_y(mem, pcn),
        0xF5u8 => "SBC "@ + spec_am_zero_page_x(mem, pcn),
        0xF6u8 => "INC "@ + spec_am_zero_page_x(mem, pcn),
        0xF8u8 => "SED"@,
        0xF9u8 => "SBC "@ + spec_am_absolute_y(mem, pcn),
        0xFDu8 => "SBC "@ + spec_am_absolute_x(mem, pcn),
        0xFEu8 => "INC "@ + spec_am_absolute_x(mem, pcn),
        _ => "???"@,
    }
}

/// Renders instructions out of a full CPU address-space image.
pub struct Disassembler {
    /// Address of the next byte to read.
    pub pc: u16,
    /// The image: one byte per CPU address.
    pub mem: Vec<u8>,
}

pub open spec fn disassembler_wf(d: Disassembler) -> bool {
    d.mem.len() == 65536
}

impl Disassembler {
    fn loadb_bump_pc(&mut self) -> (r: u8)
        requires
            disassembler_wf(*old(self)),
        ensures
            disassembler_wf(*final(self)),
            r == spec_byte_at(old(self).mem@, old(self).pc as int),
            final(self).pc == (old(self).pc + 1) % 65536,
            final(self).mem@ == old(self).mem@,
    {
        let v = self.mem[self.pc as usize];
        self.pc = crate::ops::wrap16_add(self.pc, 1);
        v
    }

    fn loadw_bump_pc(&mut self) -> (r: u16)
        requires
            disassembler_wf(*old(self)),
        ensures
            disassembler_wf(*final(self)),
            r as int == spec_word_at(old(self).mem@, old(self).pc as int),
            final(self).pc as int == (old(self).pc + 2) % 65536,
            final(self).mem@ == old(self).mem@,
    {
        let bottom = self.loadb_bump_pc();
        let top = self.loadb_bump_pc();
        bottom as u16 + 256 * top as u16
    }

    fn disb_bump_pc(&mut self) -> (r: String)
        requires
            disassembler_wf(*old(self)),
        ensures
            disassembler_wf(*final(self)),
            r@ == spec_dollar2(old(self).mem@, old(self).pc as int),
            final(self).pc == (old(self).pc + 1) % 65536,
            final(self).mem@ == old(self).mem@,
    {
        let b = self.loadb_bump_pc();
        let mut s = String::from_str("$");
        s.append(hex2(b).as_str());
        proof {
            reveal_strlit("$");
            assert(s@ =~= spec_dollar2(old(self).mem@, old(self).pc as int));
        }
        s
    }

    fn disw_bump_pc(&mut self) -> (r: String)
        requires
            disassembler_wf(*old(self)),
        ensures
            disassembler_wf(*final(self)),
            r@ == spec_dollar4(old(self).mem@, old(self).pc as int),
            final(self).pc as int == (old(self).pc + 2) % 65536,
            final(self).mem@ == old(self).mem@,
    {
        let w = self.loadw_bump_pc();
        let mut s = String::from_str("$");
        s.append(hex4(w).as_str());
        proof {
            reveal_strlit("$");
            assert(s@ =~= spec_dollar4(old(self).mem@, old(self).pc as int));
        }
        s
    }

    fn lda(&mut self, am: String) -> (r: String)
        ensures
            r@ == "LDA "@ + am@,
            *final(self) == *old(self),
    {
        let mut s = String::from_str("LDA ");
        s.append(am.as_str());
        s
    }

    fn ldx(&mut self, am: String) -> (r: String)
        ensures
            r@ == "LDX "@ + am@,
            *final(self) == *old(self),
    {
        let mut s = String::from_str("LDX ");
        s.append(am.as_str());
        s
    }

    fn ldy(&mut self, am: String) -> (r: String)
        ensures
            r@ == "LDY "@ + am@,
            *final(self) == *old(self),
    {
        let mut s = String::from_str("LDY ");
        s.append(am.as_str());
        s
    }

    fn sta(&mut self, am: String) -> (r: String)
        ensures
            r@ == "STA "@ + am@,
            *final(self) == *old(self),
    {
        let mut s = String::from_str("STA ");
        s.append(am.as_str());
        s
    }

    fn stx(&mut self, am: String) -> (r: String)
        ensures
            r@ == "STX "@ + am@,
            *final(self) == *old(self),
    {
        let mut s = String::from_str("STX ");
        s.append(am.as_str());
        s
    }

    fn sty(&mut self, am: String) -> (r: String)
        ensures
            r@ == "STY "@ + am@,
            *final(self) == *old(self),
    {
        let mut s = String::from_str("STY ");
        s.append(am.as_str());
        s
    }

    fn adc(&mut self, am: String) -> (r: String)
        ensures
            r@ == "ADC "@ + am@,
            *final(self) == *old(self),
    {
        let mut s = String::from_str("ADC ");
        s.append(am.as_str());
        s
    }

    fn sbc(&mut self, am: String) -> (r: String)
        ensures
            r@ == "SBC "@ + am@,
            *final(self) == *old(self),
    {
        let mut s = String::from_str("SBC ");
        s.append(am.as_str());
        s
    }

    fn cmp(&mut self, am: String) -> (r: String)
        ensures
            r@ == "CMP "@ + am@,
            *final(self) == *old(self),
    {
        let mut s = String::from_str("CMP ");
        s.append(am.as_str());
        s
    }

    fn cpx(&mut self, am: String) -> (r: String)
        ensures
            r@ == "CPX "@ + am@,
            *final(self) == *old(self),
    {
        let mut s = String::from_str("CPX ");
        s.append(am.as_str());
        s
    }

    fn cpy(&mut self, am: String) -> (r: String)
        ensures
            r@ == "CPY "@ + am@,
            *final(self) == *old(self),
    {
        let mut s = String::from_str("CPY ");
        s.append(am.as_str());
        s
    }

    fn and(&mut self, am: String) -> (r: String)
        ensures
            r@ == "AND "@ + am@,
            *final(self) == *old(self),
    {
        let mut s = String::from_str("AND ");
        s.append(am.as_str());
        s
    }

    fn ora(&mut self, am: String) -> (r: String)
        ensures
            r@ == "ORA "@ + am@,
            *final(self) == *old(self),
    {
        let mut s = String::from_str("ORA ");
        s.append(am.as_str());
        s
    }

    fn eor(&mut self, am: String) -> (r: String)
        ensures
            r@ == "EOR "@ + am@,
            *final(self) == *old(self),
    {
        let mut s = String::from_str("EOR ");
        s.append(am.as_str());
        s
    }

    fn bit(&mut self, am: String) -> (r: String)
        ensures
            r@ == "BIT "@ + am@,
            *final(self) == *old(self),
    {
        let mut s = String::from_str("BIT ");
        s.append(am.as_str());
        s
    }

    fn rol(&mut self, am: String) -> (r: String)
        ensures
            r@ == "ROL "@ + am@,
            *final(self) == *old(self),
    {
        let mut s = String::from_str("ROL ");
        s.append(am.as_str());
        s
    }

    fn ror(&mut self, am: String) -> (r: String)
        ensures
            r@ == "ROR "@ + am@,
            *final(self) == *old(self),
    {
        let mut s = String::from_str("ROR ");
        s.append(am.as_str());
        s
    }

    fn asl(&mut self, am: String) -> (r: String)
        ensures
            r@ == "ASL "@ + am@,
            *final(self) == *old(self),
    {
        let mut s = String::from_str("ASL ");
        s.append(am.as_str());
        s
    }

    fn lsr(&mut self, am: String) -> (r: String)
        ensures
            r@ == "LSR "@ + am@,
            *final(self) == *old(self),
    {
        let mut s = String::from_str("LSR ");
        s.append(am.as_str());
        s
    }

    fn inc(&mut self, am: String) -> (r: String)
        ensures
            r@ == "INC "@ + am@,
            *final(self) == *old(self),
    {
        let mut s = String::from_str("INC ");
        s.append(am.as_str());
        s
    }

    fn dec(&mut self, am: String) -> (r: String)
        ensures
            r@ == "DEC "@ + am@,
            *final(self) == *old(self),
    {
        let mut s = String::from_str("DEC ");
        s.append(am.as_str());
        s
    }

    fn inx(&mut self) -> (r: String)
        ensures
            r@ == "INX"@,
            *final(self) == *old(self),
    {
        String::from_str("INX")
    }

    fn dex(&mut self) -> (r: String)
        ensures
            r@ == "DEX"@,
            *final(self) == *old(self),
    {
        String::from_str("DEX")
    }

    fn iny(&mut self) -> (r: String)
        ensures
            r@ == "INY"@,
            *final(self) == *old(self),
    {
        String::from_str("INY")
    }

    fn dey(&mut self) -> (r: String)
        ensures
            r@ == "DEY"@,
            *final(self) == *old(self),
    {
        String::from_str("DEY")
    }

    fn tax(&mut self) -> (r: String)
        ensures
            r@ == "TAX"@,
            *final(self) == *old(self),
    {
        String::from_str("TAX")
    }

    fn tay(&mut self) -> (r: String)
        ensures
            r@ == "TAY"@,
            *final(self) == *old(self),
    {
        String::from_str("TAY")
    }

    fn txa(&mut self) -> (r: String)
        ensures
            r@ == "TXA"@,
            *final(self) == *old(self),
    {
        String::from_str("TXA")
    }

    fn tya(&mut self) -> (r: String)
        ensures
            r@ == "TYA"@,
            *final(self) == *old(self),
    {
        String::from_str("TYA")
    }

    fn txs(&mut self) -> (r: String)
        ensures
            r@ == "TXS"@,
            *final(self) == *old(self),
    {
        String::from_str("TXS")
    }

    fn tsx(&mut self) -> (r: String)
        ensures
            r@ == "TSX"@,
            *final(self) == *old(self),
    {
        String::from_str("TSX")
    }

    fn clc(&mut self) -> (r: String)
        ensures
            r@ == "CLC"@,
            *final(self) == *old(self),
    {
        String::from_str("CLC")
    }

    fn sec(&mut self) -> (r: String)
        ensures
            r@ == "SEC"@,
            *final(self) == *old(self),
    {
        String::from_str("SEC")
    }

    fn cli(&mut self) -> (r: String)
        ensures
            r@ == "CLI"@,
            *final(self) == *old(self),
    {
        String::from_str("CLI")
    }

    fn sei(&mut self) -> (r: String)
        ensures
            r@ == "SEI"@,
            *final(self) == *old(self),
    {
        String::from_str("SEI")
    }

    fn clv(&mut self) -> (r: String)
        ensures
            r@ == "CLV"@,
            *final(self) == *old(self),
    {
        String::from_str("CLV")
    }

    fn cld(&mut self) -> (r: String)
        ensures
            r@ == "CLD"@,
            *final(self) == *old(self),
    {
        String::from_str("CLD")
    }

    fn sed(&mut self) -> (r: String)
        ensures
            r@ == "SED"@,
            *final(self) == *old(self),
    {
        String::from_str("SED")
    }

    fn bpl(&mut self) -> (r: String)
        ensures
            r@ == "BPL xx"@,
            *final(self) == *old(self),
    {
        String::from_str("BPL xx")
    }

    fn bmi(&mut self) -> (r: String)
        ensures
            r@ == "BMI xx"@,
            *final(self) == *old(self),
    {
        String::from_str("BMI xx")
    }

    fn bvc(&mut self) -> (r: String)
        ensures
            r@ == "BVC xx"@,
            *final(self) == *old(self),
    {
        String::from_str("BVC xx")
    }

    fn bvs(&mut self) -> (r: String)
        ensures
            r@ == "BVS xx"@,
            *final(self) == *old(self),
    {
        String::from_str("BVS xx")
    }

    fn bcc(&mut self) -> (r: String)
        ensures
            r@ == "BCC xx"@,
            *final(self) == *old(self),
    {
        String::from_str("BCC xx")
    }

    fn bcs(&mut self) -> (r: String)
        ensures
            r@ == "BCS xx"@,
            *final(self) == *old(self),
    {
        String::from_str("BCS xx")
    }

    fn bne(&mut self) -> (r: String)
        ensures
            r@ == "BNE xx"@,
            *final(self) == *old(self),
    {
        String::from_str("BNE xx")
    }

    fn beq(&mut self) -> (r: String)
        ensures
            r@ == "BEQ xx"@,
            *final(self) == *old(self),
    {
        String::from_str("BEQ xx")
    }

    fn jsr(&mut self) -> (r: String)
        ensures
            r@ == "JSR xx"@,
            *final(self) == *old(self),
    {
        String::from_str("JSR xx")
    }

    fn rts(&mut self) -> (r: String)
        ensures
            r@ == "RTS"@,
            *final(self) == *old(self),
    {
        String::from_str("RTS")
    }

    fn brk(&mut self) -> (r: String)
        ensures
            r@ == "BRK"@,
            *final(self) == *old(self),
    {
        String::from_str("BRK")
    }

    fn rti(&mut self) -> (r: String)
        ensures
            r@ == "RTI"@,
            *final(self) == *old(self),
    {
        String::from_str("RTI")
    }

    fn pha(&mut self) -> (r: String)
        ensures
            r@ == "PHA"@,
            *final(self) == *old(self),
    {
        String::from_str("PHA")
    }

    fn pla(&mut self) -> (r: String)
        ensures
            r@ == "PLA"@,
            *final(self) == *old(self),
    {
        String::from_str("PLA")
    }

    fn php(&mut self) -> (r: String)
        ensures
            r@ == "PHP"@,
            *final(self) == *old(self),
    {
        String::from_str("PHP")
    }

    fn plp(&mut self) -> (r: String)
        ensures
            r@ == "PLP"@,
            *final(self) == *old(self),
    {
        String::from_str("PLP")
    }

    fn nop(&mut self) -> (r: String)
        ensures
            r@ == "NOP"@,
            *final(self) == *old(self),
    {
        String::from_str("NOP")
    }

    fn jmp(&mut self) -> (r: String)
        requires
            disassembler_wf(*old(self)),
        ensures
            disassembler_wf(*final(self)),
            r@ == "JMP "@ + spec_dollar4(old(self).mem@, old(self).pc as int),
            final(self).pc as int == (old(self).pc + 2) % 65536,
            final(self).mem@ == old(self).mem@,
    {
        let w = self.disw_bump_pc();
        let mut s = String::from_str("JMP ");
        s.append(w.as_str());
        s
    }

    fn jmpi(&mut self) -> (r: String)
        requires
            disassembler_wf(*old(self)),
        ensures
            disassembler_wf(*final(self)),
            r@ == "JMP ("@ + spec_dollar4(old(self).mem@, old(self).pc as int) + ")"@,
            final(self).pc as int == (old(self).pc + 2) % 65536,
            final(self).mem@ == old(self).mem@,
    {
        let w = self.disw_bump_pc();
        let mut s = String::from_str("JMP (");
        s.append(w.as_str());
        s.append(")");
        s
    }

    fn immediate(&mut self) -> (r: String)
        requires
            disassembler_wf(*old(self)),
        ensures
            disassembler_wf(*final(self)),
            r@ == spec_am_immediate(old(self).mem@, old(self).pc as int),
            final(self).pc == (old(self).pc + 1) % 65536,
            final(self).mem@ == old(self).mem@,
    {
        let b = self.disb_bump_pc();
        let mut s = String::from_str("#");
        s.append(b.as_str());
        proof {
            reveal_strlit("#");
            assert(s@ =~= spec_am_immediate(old(self).mem@, old(self).pc as int));
        }
        s
    }

    fn accumulator(&mut self) -> (r: String)
        ensures
            r@ == Seq::<char>::empty(),
            *final(self) == *old(self),
    {
        String::new()
    }

    fn zero_page(&mut self) -> (r: String)
        requires
            disassembler_wf(*old(self)),
        ensures
            disassembler_wf(*final(self)),
            r@ == spec_am_zero_page(old(self).mem@, old(self).pc as int),
            final(self).pc == (old(self).pc + 1) % 65536,
            final(self).mem@ == old(self).mem@,
    {
        self.disb_bump_pc()
    }

    fn zero_page_x(&mut self) -> (r: String)
        requires
            disassembler_wf(*old(self)),
        ensures
            disassembler_wf(*final(self)),
            r@ == spec_am_zero_page_x(old(self).mem@, old(self).pc as int),
            final(self).pc == (old(self).pc + 1) % 65536,
            final(self).mem@ == old(self).mem@,
    {
        let mut buf = self.disb_bump_pc();
        buf.append(",X");
        proof {
            reveal_strlit(",X");
            assert(buf@ =~= spec_am_zero_page_x(old(self).mem@, old(self).pc as int));
        }
        buf
    }

    fn zero_page_y(&mut self) -> (r: String)
        requires
            disassembler_wf(*old(self)),
        ensures
            disassembler_wf(*final(self)),
            r@ == spec_am_zero_page_y(old(self).mem@, old(self).pc as int),
            final(self).pc == (old(self).pc + 1) % 65536,
            final(self).mem@ == old(self).mem@,
    {
        let mut buf = self.disb_bump_pc();
        buf.append(",Y");
        proof {
            reveal_strlit(",Y");
            assert(buf@ =~= spec_am_zero_page_y(old(self).mem@, old(self).pc as int));
        }
        buf
    }

    fn absolute(&mut self) -> (r: String)
        requires
            disassembler_wf(*old(self)),
        ensures
            disassembler_wf(*final(self)),
            r@ == spec_am_absolute(old(self).mem@, old(self).pc as int),
            final(self).pc as int == (old(self).pc + 2) % 65536,
            final(self).mem@ == old(self).mem@,
    {
        self.disw_bump_pc()
    }

    fn absolute_x(&mut self) -> (r: String)
        requires
            disassembler_wf(*old(self)),
        ensures
            disassembler_wf(*final(self)),
            r@ == spec_am_absolute_x(old(self).mem@, old(self).pc as int),
            final(self).pc as int == (old(self).pc + 2) % 65536,
            final(self).mem@ == old(self).mem@,
    {
        let mut buf = self.disw_bump_pc();
        buf.append(",X");
        proof {
            reveal_strlit(",X");
            assert(buf@ =~= spec_am_absolute_x(old(self).mem@, old(self).pc as int));
        }
        buf
    }

    fn absolute_y(&mut self) -> (r: String)
        requires
            disassembler_wf(*old(self)),
        ensures
            disassembler_wf(*final(self)),
            r@ == spec_am_absolute_y(old(self).mem@, old(self).pc as int),
            final(self).pc as int == (old(self).pc + 2) % 65536,
            final(self).mem@ == old(self).mem@,
    {
        let mut buf = self.disw_bump_pc();
        buf.append(",Y");
        proof {
            reveal_strlit(",Y");
            assert(buf@ =~= spec_am_absolute_y(old(self).mem@, old(self).pc as int));
        }
        buf
    }

    fn indexed_indirect_x(&mut self) -> (r: String)
        requires
            disassembler_wf(*old(self)),
        ensures
            disassembler_wf(*final(self)),
            r@ == spec_am_indexed_indirect_x(old(self).mem@, old(self).pc as int),
            final(self).pc == (old(self).pc + 1) % 65536,
            final(self).mem@ == old(self).mem@,
    {
        let b = self.disb_bump_pc();
        let mut s = String::from_str("(");
        s.append(b.as_str());
        s.append(",X)");
        proof {
            reveal_strlit("(");
            reveal_strlit(",X)");
            assert(s@ =~= spec_am_indexed_indirect_x(old(self).mem@, old(self).pc as int));
        }
        s
    }

    fn indirect_indexed_y(&mut self) -> (r: String)
        requires
            disassembler_wf(*old(self)),
        ensures
            disassembler_wf(*final(self)),
            r@ == spec_am_indirect_indexed_y(old(self).mem@, old(self).pc as int),
            final(self).pc == (old(self).pc + 1) % 65536,
            final(self).mem@ == old(self).mem@,
    {
        let b = self.disb_bump_pc();
        let mut s = String::from_str("(");
        s.append(b.as_str());
        s.append("),Y");
        proof {
            reveal_strlit("(");
            reveal_strlit("),Y");
            assert(s@ =~= spec_am_indirect_indexed_y(old(self).mem@, old(self).pc as int));
        }
        s
    }

    /// Render the instruction at the current address and step past
    /// the bytes its text shows.
    #[verifier::rlimit(100)]
    pub fn disassemble(&mut self) -> (r: String)
        requires
            disassembler_wf(*old(self)),
        ensures
            disassembler_wf(*final(self)),
            r@ == spec_disassemble(old(self).mem@, old(self).pc as int),
            final(self).pc as int == (old(self).pc + spec_dis_len(spec_byte_at(old(self).mem@,
                old(self).pc as int))) % 65536,
            final(self).mem@ == old(self).mem@,
    {
        let op = self.loadb_bump_pc();
        match op {
            0x00u8 => self.brk(),
            0x01u8 => {
                let am = self.indexed_indirect_x();
                self.ora(am)
            },
            0x05u8 => {
                let am = self.zero_page();
                self.ora(am)
            },
            0x06u8 => {
                let am = self.zero_page();
                self.asl(am)
            },
            0x08u8 => self.php(),
            0x09u8 => {
                let am = self.immediate();
                self.ora(am)
            },
            0x0Au8 => {
                let am = self.accumulator();
                self.asl(am)
            },
            0x0Du8 => {
                let am = self.absolute();
                self.ora(am)
            },
            0x0Eu8 => {
                let am = self.absolute();
                self.asl(am)
            },
            0x10u8 => self.bpl(),
            0x11u8 => {
                let am = self.indirect_indexed_y();
                self.ora(am)
            },
            0x15u8 => {
                let am = self.zero_page_x();
                self.ora(am)
            },
            0x16u8 => {
                let am = self.zero_page_x();
                self.asl(am)
            },
            0x18u8 => self.clc(),
            0x19u8 => {
                let am = self.absolute_y();
                self.ora(am)
            },
            0x1Du8 => {
                let am = self.absolute_x();
                self.ora(am)
            },
            0x1Eu8 => {
                let am = self.absolute_x();
                self.asl(am)
            },
            0x20u8 => self.jsr(),
            0x21u8 => {
                let am = self.indexed_indirect_x();
                self.and(am)
            },
            0x24u8 => {
                let am = self.zero_page();
                self.bit(am)
            },
            0x25u8 => {
                let am = self.zero_page();
                self.and(am)
            },
            0x26u8 => {
                let am = self.zero_page();
                self.rol(am)
            },
            0x28u8 => self.plp(),
            0x29u8 => {
                let am = self.immediate();
                self.and(am)
            },
            0x2Au8 => {
                let am = self.accumulator();
                self.rol(am)
            },
            0x2Cu8 => {
                let am = self.absolute();
                self.bit(am)
            },
            0x2Du8 => {
                let am = self.absolute();
                self.and(am)
            },
            0x2Eu8 => {
                let am = self.absolute();
                self.rol(am)
            },
            0x30u8 => self.bmi(),
            0x31u8 => {
                let am = self.indirect_indexed_y();
                self.and(am)
            },
            0x35u8 => {
                let am = self.zero_page_x();
                self.and(am)
            },
            0x36u8 => {
                let am = self.zero_page_x();
                self.rol(am)
            },
            0x38u8 => self.sec(),
            0x39u8 => {
                let am = self.absolute_y();
                self.and(am)
            },
            0x3Du8 => {
                let am = self.absolute_x();
                self.and(am)
            },
            0x3Eu8 => {
                let am = self.absolute_x();
                self.rol(am)
            },
            0x40u8 => self.rti(),
            0x41u8 => {
                let am = self.indexed_indirect_x();
                self.eor(am)
            },
            0x45u8 => {
                let am = self.zero_page();
                self.eor(am)
            },
            0x46u8 => {
                let am = self.zero_page();
                self.lsr(am)
            },
            0x48u8 => self.pha(),
            0x49u8 => {
                let am = self.immediate();
                self.eor(am)
            },
            0x4Au8 => {
                let am = self.accumulator();
                self.lsr(am)
            },
            0x4Cu8 => self.jmp(),
            0x4Du8 => {
                let am = self.absolute();
                self.eor(am)
            },
            0x4Eu8 => {
                let am = self.absolute();
                self.lsr(am)
            },
            0x50u8 => self.bvc(),
            0x51u8 => {
                let am = self.indirect_indexed_y();
                self.eor(am)
            },
            0x55u8 => {
                let am = self.zero_page_x();
                self.eor(am)
            },
            0x56u8 => {
                let am = self.zero_page_x();
                self.lsr(am)
            },
            0x58u8 => self.cli(),
            0x59u8 => {
                let am = self.absolute_y();
                self.eor(am)
            },
            0x5Du8 => {
                let am = self.absolute_x();
                self.eor(am)
            },
            0x5Eu8 => {
                let am = self.absolute_x();
                self.lsr(am)
            },
            0x60u8 => self.rts(),
            0x61u8 => {
                let am = self.indexed_indirect_x();
                self.adc(am)
            },
            0x65u8 => {
                let am = self.zero_page();
                self.adc(am)
            },
            0x66u8 => {
                let am = self.zero_page();
                self.ror(am)
            },
            0x68u8 => self.pla(),
            0x69u8 => {
                let am = self.immediate();
                self.adc(am)
            },
            0x6Au8 => {
                let am = self.accumulator();
                self.ror(am)
            },
            0x6Cu8 => self.jmpi(),
            0x6Du8 => {
                let am = self.absolute();
                self.adc(am)
            },
            0x6Eu8 => {
                let am = self.absolute();
                self.ror(am)
            },
            0x70u8 => self.bvs(),
            0x71u8 => {
                let am = self.indirect_indexed_y();
                self.adc(am)
            },
            0x75u8 => {
                let am = self.zero_page_x();
                self.adc(am)
            },
            0x76u8 => {
                let am = self.zero_page_x();
                self.ror(am)
            },
            0x78u8 => self.sei(),
            0x79u8 => {
                let am = self.absolute_y();
                self.adc(am)
            },
            0x7Du8 => {
                let am = self.absolute_x();
                self.adc(am)
            },
            0x7Eu8 => {
                let am = self.absolute_x();
                self.ror(am)
            },
            0x81u8 => {
                let am = self.indexed_indirect_x();
                self.sta(am)
            },
            0x84u8 => {
                let am = self.zero_page();
                self.sty(am)
            },
            0x85u8 => {
                let am = self.zero_page();
                self.sta(am)
            },
            0x86u8 => {
                let am = self.zero_page();
                self.stx(am)
            },
            0x88u8 => self.dey(),
            0x8Au8 => self.txa(),
            0x8Cu8 => {
                let am = self.absolute();
                self.sty(am)
            },
            0x8Du8 => {
                let am = self.absolute();
                self.sta(am)
            },
            0x8Eu8 => {
                let am = self.absolute();
                self.stx(am)
            },
            0x90u8 => self.bcc(),
            0x91u8 => {
                let am = self.indirect_indexed_y();
                self.sta(am)
            },
            0x94u8 => {
                let am = self.zero_page_x();
                self.sty(am)
            },
            0x95u8 => {
                let am = self.zero_page_x();
                self.sta(am)
            },
            0x96u8 => {
                let am = self.zero_page_y();
                self.stx(am)
            },
            0x98u8 => self.tya(),
            0x99u8 => {
                let am = self.absolute_y();
                self.sta(am)
            },
            0x9Au8 => self.txs(),
            0x9Du8 => {
                let am = self.absolute_x();
                self.sta(am)
            },
            0xA0u8 => {
                let am = self.immediate();
                self.ldy(am)
            },
            0xA1u8 => {
                let am = self.indexed_indirect_x();
                self.lda(am)
            },
            0xA2u8 => {
                let am = self.immediate();
                self.ldx(am)
            },
            0xA4u8 => {
                let am = self.zero_page();
                self.ldy(am)
            },
            0xA5u8 => {
                let am = self.zero_page();
                self.lda(am)
            },
            0xA6u8 => {
                let am = self.zero_page();
                self.ldx(am)
            },
            0xA8u8 => self.tay(),
            0xA9u8 => {
                let am = self.immediate();
                self.lda(am)
            },
            0xAAu8 => self.tax(),
            0xACu8 => {
                let am = self.absolute();
                self.ldy(am)
            },
            0xADu8 => {
                let am = self.absolute();
                self.lda(am)
            },
            0xAEu8 => {
                let am = self.absolute();
                self.ldx(am)
            },
            0xB0u8 => self.bcs(),
            0xB1u8 => {
                let am = self.indirect_indexed_y();
                self.lda(am)
            },
            0xB4u8 => {
                let am = self.zero_page_x();
                self.ldy(am)
            },
            0xB5u8 => {
                let am = self.zero_page_x();
                self.lda(am)
            },
            0xB6u8 => {
                let am = self.zero_page_y();
                self.ldx(am)
            },
            0xB8u8 => self.clv(),
            0xB9u8 => {
                let am = self.absolute_y();
                self.lda(am)
            },
            0xBAu8 => self.tsx(),
            0xBCu8 => {
                let am = self.absolute_x();
                self.ldy(am)
            },
            0xBDu8 => {
                let am = self.absolute_x();
                self.lda(am)
            },
            0xBEu8 => {
                let am = self.absolute_y();
                self.ldx(am)
            },
            0xC0u8 => {
                let am = self.immediate();
                self.cpy(am)
            },
            0xC1u8 => {
                let am = self.indexed_indirect_x();
                self.cmp(am)
            },
            0xC4u8 => {
                let am = self.zero_page();
                self.cpy(am)
            },
            0xC5u8 => {
                let am = self.zero_page();
                self.cmp(am)
            },
            0xC6u8 => {
                let am = self.zero_page();
                self.dec(am)
            },
            0xC8u8 => self.iny(),
            0xC9u8 => {
                let am = self.immediate();
                self.cmp(am)
            },
            0xCAu8 => self.dex(),
            0xCCu8 => {
                let am = self.absolute();
                self.cpy(am)
            },
            0xCDu8 => {
                let am = self.absolute();
                self.cmp(am)
            },
            0xCEu8 => {
                let am = self.absolute();
                self.dec(am)
            },
            0xD0u8 => self.bne(),
            0xD1u8 => {
                let am = self.indirect_indexed_y();
                self.cmp(am)
            },
            0xD5u8 => {
                let am = self.zero_page_x();
                self.cmp(am)
            },
            0xD6u8 => {
                let am = self.zero_page_x();
                self.dec(am)
            },
            0xD8u8 => self.cld(),
            0xD9u8 => {
                let am = self.absolute_y();
                self.cmp(am)
            },
            0xDDu8 => {
                let am = self.absolute_x();
                self.cmp(am)
            },
            0xDEu8 => {
                let am = self.absolute_x();
                self.dec(am)
            },
            0xE0u8 => {
                let am = self.immediate();
                self.cpx(am)
            },
            0xE1u8 => {
                let am = self.indexed_indirect_x();
                self.sbc(am)
            },
            0xE4u8 => {
                let am = self.zero_page();
                self.cpx(am)
            },
            0xE5u8 => {
                let am = self.zero_page();
                self.sbc(am)
            },
            0xE6u8 => {
                let am = self.zero_page();
                self.inc(am)
            },
            0xE8u8 => self.inx(),
            0xE9u8 => {
                let am = self.immediate();
                self.sbc(am)
            },
            0xEAu8 => self.nop(),
            0xECu8 => {
                let am = self.absolute();
                self.cpx(am)
            },
            0xEDu8 => {
                let am = self.absolute();
                self.sbc(am)
            },
            0xEEu8 => {
                let am = self.absolute();
                self.inc(am)
            },
            0xF0u8 => self.beq(),
            0xF1u8 => {
                let am = self.indirect_indexed_y();
                self.sbc(am)
            },
            0xF5u8 => {
                let am = self.zero_page_x();
                self.sbc(am)
            },
            0xF6u8 => {
                let am = self.zero_page_x();
                self.inc(am)
            },
            0xF8u8 => self.sed(),
            0xF9u8 => {
                let am = self.absolute_y();
                self.sbc(am)
            },
            0xFDu8 => {
                let am = self.absolute_x();
                self.sbc(am)
            },
            0xFEu8 => {
                let am = self.absolute_x();
                self.inc(am)
            },
            _ => String::from_str("???"),
        }
    }
}

} // verus!
