use vstd::prelude::*;
use super::enums::AdressingMode;

verus! {

/// The operations of the CPU, official and undocumented ones; `Jam` stands
/// for the opcodes that jam the processor.
#[derive(Debug, Clone, Copy, PartialEq, Eq, Structural)]
pub enum Operation {
    Adc,
    Anc,
    And,
    Ane,
    Arr,
    Asl,
    Asr,
    Bcc,
    Bcs,
    Beq,
    Bit,
    Bmi,
    Bne,
    Bpl,
    Brk,
    Bvc,
    Bvs,
    Clc,
    Cld,
    Cli,
    Clv,
    Cmp,
    Cpx,
    Cpy,
    Dcp,
    Dec,
    Dex,
    Dey,
    Eor,
    Jam,
    Inc,
    Inx,
    Iny,
    Isb,
    Jmp,
    Jsr,
    Las,
    Lax,
    Lda,
    Ldx,
    Ldy,
    Lsr,
    Lxa,
    Nop,
    Ora,
    Pha,
    Php,
    Pla,
    Plp,
    Rla,
    Rol,
    Ror,
    Rra,
    Rti,
    Rts,
    Sax,
    Sbc,
    Sbx,
    Sec,
    Sed,
    Sei,
    Sha,
    Shs,
    Shx,
    Shy,
    Slo,
    Sre,
    Sta,
    Stx,
    Sty,
    Tax,
    Tay,
    Tsx,
    Txa,
    Txs,
    Tya,
}

/// How an opcode is executed: its operation, addressing mode, base cycle
/// count, and whether a page crossed by the addressing costs a cycle.
#[derive(Debug, Clone, Copy, PartialEq, Eq, Structural)]
pub struct CpuInstruction {
    pub operation: Operation,
    pub adressing_mode: AdressingMode,
    pub cycles: u8,
    pub add_cycle: bool,
}

pub open spec fn entry(operation: Operation, adressing_mode: AdressingMode, cycles: u8, add_cycle: bool) -> CpuInstruction {
    CpuInstruction { operation, adressing_mode, cycles, add_cycle }
}

pub open spec fn instruction_quarter_0(opcode: u8) -> CpuInstruction {
    match opcode {
        0x00 => entry(Operation::Brk, AdressingMode::Implicit, 7, false),
        0x01 => entry(Operation::Ora, AdressingMode::IndirectX, 6, false),
        0x02 => entry(Operation::Jam, AdressingMode::Implicit, 2, false),
        0x03 => entry(Operation::Slo, AdressingMode::IndirectX, 8, false),
        0x04 => entry(Operation::Nop, AdressingMode::ZeroPage, 3, false),
        0x05 => entry(Operation::Ora, AdressingMode::ZeroPage, 3, false),
        0x06 => entry(Operation::Asl, AdressingMode::ZeroPage, 5, false),
        0x07 => entry(Operation::Slo, AdressingMode::ZeroPage, 5, false),
        0x08 => entry(Operation::Php, AdressingMode::Implicit, 3, false),
        0x09 => entry(Operation::Ora, AdressingMode::Immediate, 2, false),
        0x0A => entry(Operation::Asl, AdressingMode::Accumulator, 2, false),
        0x0B => entry(Operation::Anc, AdressingMode::Immediate, 2, false),
        0x0C => entry(Operation::Nop, AdressingMode::Absolute, 4, false),
        0x0D => entry(Operation::Ora, AdressingMode::Absolute, 4, false),
        0x0E => entry(Operation::Asl, AdressingMode::Absolute, 6, false),
        0x0F => entry(Operation::Slo, AdressingMode::Absolute, 6, false),
        0x10 => entry(Operation::Bpl, AdressingMode::Relative, 2, false),
        0x11 => entry(Operation::Ora, AdressingMode::IndirectY, 5, true),
        0x12 => entry(Operation::Jam, AdressingMode::Implicit, 2, false),
        0x13 => entry(Operation::Slo, AdressingMode::IndirectY, 8, false),
        0x14 => entry(Operation::Nop, AdressingMode::ZeroPageX, 4, false),
        0x15 => entry(Operation::Ora, AdressingMode::ZeroPageX, 4, false),
        0x16 => entry(Operation::Asl, AdressingMode::ZeroPageX, 6, false),
        0x17 => entry(Operation::Slo, AdressingMode::ZeroPageX, 6, false),
        0x18 => entry(Operation::Clc, AdressingMode::Implicit, 2, false),
        0x19 => entry(Operation::Ora, AdressingMode::AbsoluteY, 4, true),
        0x1A => entry(Operation::Nop, AdressingMode::Implicit, 2, false),
        0x1B => entry(Operation::Slo, AdressingMode::AbsoluteY, 7, false),
        0x1C => entry(Operation::Nop, AdressingMode::AbsoluteX, 4, true),
        0x1D => entry(Operation::Ora, AdressingMode::AbsoluteX, 4, true),
        0x1E => entry(Operation::Asl, AdressingMode::AbsoluteX, 7, false),
        0x1F => entry(Operation::Slo, AdressingMode::AbsoluteX, 7, false),
        0x20 => entry(Operation::Jsr, AdressingMode::Absolute, 6, false),
        0x21 => entry(Operation::And, AdressingMode::IndirectX, 6, false),
        0x22 => entry(Operation::Jam, AdressingMode::Implicit, 2, false),
        0x23 => entry(Operation::Rla, AdressingMode::IndirectX, 8, false),
        0x24 => entry(Operation::Bit, AdressingMode::ZeroPage, 3, false),
        0x25 => entry(Operation::And, AdressingMode::ZeroPage, 3, false),
        0x26 => entry(Operation::Rol, AdressingMode::ZeroPage, 5, false),
        0x27 => entry(Operation::Rla, AdressingMode::ZeroPage, 5, false),
        0x28 => entry(Operation::Plp, AdressingMode::Implicit, 4, false),
        0x29 => entry(Operation::And, AdressingMode::Immediate, 2, false),
        0x2A => entry(Operation::Rol, AdressingMode::Accumulator, 2, false),
        0x2B => entry(Operation::Anc, AdressingMode::Immediate, 2, false),
        0x2C => entry(Operation::Bit, AdressingMode::Absolute, 4, false),
        0x2D => entry(Operation::And, AdressingMode::Absolute, 4, false),
        0x2E => entry(Operation::Rol, AdressingMode::Absolute, 6, false),
        0x2F => entry(Operation::Rla, AdressingMode::Absolute, 6, false),
        0x30 => entry(Operation::Bmi, AdressingMode::Relative, 2, false),
        0x31 => entry(Operation::And, AdressingMode::IndirectY, 5, true),
        0x32 => entry(Operation::Jam, AdressingMode::Implicit, 2, false),
        0x33 => entry(Operation::Rla, AdressingMode::IndirectY, 8, false),
        0x34 => entry(Operation::Nop, AdressingMode::ZeroPageX, 4, false),
        0x35 => entry(Operation::And, AdressingMode::ZeroPageX, 4, false),
        0x36 => entry(Operation::Rol, AdressingMode::ZeroPageX, 6, false),
        0x37 => entry(Operation::Rla, AdressingMode::ZeroPageX, 6, false),
        0x38 => entry(Operation::Sec, AdressingMode::Implicit, 2, false),
        0x39 => entry(Operation::And, AdressingMode::AbsoluteY, 4, true),
        0x3A => entry(Operation::Nop, AdressingMode::Implicit, 2, false),
        0x3B => entry(Operation::Rla, AdressingMode::AbsoluteY, 7, false),
        0x3C => entry(Operation::Nop, AdressingMode::AbsoluteX, 4, true),
        0x3D => entry(Operation::And, AdressingMode::AbsoluteX, 4, true),
        0x3E => entry(Operation::Rol, AdressingMode::AbsoluteX, 7, false),
        _ => entry(Operation::Rla, AdressingMode::AbsoluteX, 7, false),
    }
}

pub open spec fn instruction_quarter_1(opcode: u8) -> CpuInstruction {
    match opcode {
        0x40 => entry(Operation::Rti, AdressingMode::Implicit, 6, false),
        0x41 => entry(Operation::Eor, AdressingMode::IndirectX, 6, false),
        0x42 => entry(Operation::Jam, AdressingMode::Implicit, 2, false),
        0x43 => entry(Operation::Sre, AdressingMode::IndirectX, 8, false),
        0x44 => entry(Operation::Nop, AdressingMode::ZeroPage, 3, false),
        0x45 => entry(Operation::Eor, AdressingMode::ZeroPage, 3, false),
        0x46 => entry(Operation::Lsr, AdressingMode::ZeroPage, 5, false),
        0x47 => entry(Operation::Sre, AdressingMode::ZeroPage, 5, false),
        0x48 => entry(Operation::Pha, AdressingMode::Implicit, 3, false),
        0x49 => entry(Operation::Eor, AdressingMode::Immediate, 2, false),
        0x4A => entry(Operation::Lsr, AdressingMode::Accumulator, 2, false),
        0x4B => entry(Operation::Asr, AdressingMode::Immediate, 2, false),
        0x4C => entry(Operation::Jmp, AdressingMode::Absolute, 3, false),
        0x4D => entry(Operation::Eor, AdressingMode::Absolute, 4, false),
        0x4E => entry(Operation::Lsr, AdressingMode::Absolute, 6, false),
        0x4F => entry(Operation::Sre, AdressingMode::Absolute, 6, false),
        0x50 => entry(Operation::Bvc, AdressingMode::Relative, 2, false),
        0x51 => entry(Operation::Eor, AdressingMode::IndirectY, 5, true),
        0x52 => entry(Operation::Jam, AdressingMode::Implicit, 2, false),
        0x53 => entry(Operation::Sre, AdressingMode::IndirectY, 8, false),
        0x54 => entry(Operation::Nop, AdressingMode::ZeroPageX, 4, false),
        0x55 => entry(Operation::Eor, AdressingMode::ZeroPageX, 4, false),
        0x56 => entry(Operation::Lsr, AdressingMode::ZeroPageX, 6, false),
        0x57 => entry(Operation::Sre, AdressingMode::ZeroPageX, 6, false),
        0x58 => entry(Operation::Cli, AdressingMode::Implicit, 2, false),
        0x59 => entry(Operation::Eor, AdressingMode::AbsoluteY, 4, true),
        0x5A => entry(Operation::Nop, AdressingMode::Implicit, 2, false),
        0x5B => entry(Operation::Sre, AdressingMode::AbsoluteY, 7, false),
        0x5C => entry(Operation::Nop, AdressingMode::AbsoluteX, 4, true),
        0x5D => entry(Operation::Eor, AdressingMode::AbsoluteX, 4, true),
        0x5E => entry(Operation::Lsr, AdressingMode::AbsoluteX, 7, false),
        0x5F => entry(Operation::Sre, AdressingMode::AbsoluteX, 7, false),
        0x60 => entry(Operation::Rts, AdressingMode::Implicit, 6, false),
        0x61 => entry(Operation::Adc, AdressingMode::IndirectX, 6, false),
        0x62 => entry(Operation::Jam, AdressingMode::Implicit, 2, false),
        0x63 => entry(Operation::Rra, AdressingMode::IndirectX, 8, false),
        0x64 => entry(Operation::Nop, AdressingMode::ZeroPage, 3, false),
        0x65 => entry(Operation::Adc, AdressingMode::ZeroPage, 3, false),
        0x66 => entry(Operation::Ror, AdressingMode::ZeroPage, 5, false),
        0x67 => entry(Operation::Rra, AdressingMode::ZeroPage, 5, false),
        0x68 => entry(Operation::Pla, AdressingMode::Implicit, 4, false),
        0x69 => entry(Operation::Adc, AdressingMode::Immediate, 2, false),
        0x6A => entry(Operation::Ror, AdressingMode::Accumulator, 2, false),
        0x6B => entry(Operation::Arr, AdressingMode::Immediate, 2, false),
        0x6C => entry(Operation::Jmp, AdressingMode::Indirect, 5, false),
        0x6D => entry(Operation::Adc, AdressingMode::Absolute, 4, false),
        0x6E => entry(Operation::Ror, AdressingMode::Absolute, 6, false),
        0x6F => entry(Operation::Rra, AdressingMode::Absolute, 6, false),
        0x70 => entry(Operation::Bvs, AdressingMode::Relative, 2, false),
        0x71 => entry(Operation::Adc, AdressingMode::IndirectY, 5, true),
        0x72 => entry(Operation::Jam, AdressingMode::Implicit, 2, false),
        0x73 => entry(Operation::Rra, AdressingMode::IndirectY, 8, false),
        0x74 => entry(Operation::Nop, AdressingMode::ZeroPageX, 4, false),
        0x75 => entry(Operation::Adc, AdressingMode::ZeroPageX, 4, false),
        0x76 => entry(Operation::Ror, AdressingMode::ZeroPageX, 6, false),
        0x77 => entry(Operation::Rra, AdressingMode::ZeroPageX, 6, false),
        0x78 => entry(Operation::Sei, AdressingMode::Implicit, 2, false),
        0x79 => entry(Operation::Adc, AdressingMode::AbsoluteY, 4, true),
        0x7A => entry(Operation::Nop, AdressingMode::Implicit, 2, false),
        0x7B => entry(Operation::Rra, AdressingMode::AbsoluteY, 7, false),
        0x7C => entry(Operation::Nop, AdressingMode::AbsoluteX, 4, true),
        0x7D => entry(Operation::Adc, AdressingMode::AbsoluteX, 4, true),
        0x7E => entry(Operation::Ror, AdressingMode::AbsoluteX, 7, false),
        _ => entry(Operation::Rra, AdressingMode::AbsoluteX, 7, false),
    }
}

pub open spec fn instruction_quarter_2(opcode: u8) -> CpuInstruction {
    match opcode {
        0x80 => entry(Operation::Nop, AdressingMode::Immediate, 2, false),
        0x81 => entry(Operation::Sta, AdressingMode::IndirectX, 6, false),
        0x82 => entry(Operation::Nop, AdressingMode::Immediate, 2, false),
        0x83 => entry(Operation::Sax, AdressingMode::IndirectX, 6, false),
        0x84 => entry(Operation::Sty, AdressingMode::ZeroPage, 3, false),
        0x85 => entry(Operation::Sta, AdressingMode::ZeroPage, 3, false),
        0x86 => entry(Operation::Stx, AdressingMode::ZeroPage, 3, false),
        0x87 => entry(Operation::Sax, AdressingMode::ZeroPage, 3, false),
        0x88 => entry(Operation::Dey, AdressingMode::Implicit, 2, false),
        0x89 => entry(Operation::Nop, AdressingMode::Immediate, 2, false),
        0x8A => entry(Operation::Txa, AdressingMode::Accumulator, 2, false),
        0x8B => entry(Operation::Ane, AdressingMode::Immediate, 2, false),
        0x8C => entry(Operation::Sty, AdressingMode::Absolute, 4, false),
        0x8D => entry(Operation::Sta, AdressingMode::Absolute, 4, false),
        0x8E => entry(Operation::Stx, AdressingMode::Absolute, 4, false),
        0x8F => entry(Operation::Sax, AdressingMode::Absolute, 4, false),
        0x90 => entry(Operation::Bcc, AdressingMode::Relative, 2, false),
        0x91 => entry(Operation::Sta, AdressingMode::IndirectY, 6, false),
        0x92 => entry(Operation::Jam, AdressingMode::Implicit, 2, false),
        0x93 => entry(Operation::Sha, AdressingMode::IndirectY, 6, false),
        0x94 => entry(Operation::Sty, AdressingMode::ZeroPageX, 4, false),
        0x95 => entry(Operation::Sta, AdressingMode::ZeroPageX, 4, false),
        0x96 => entry(Operation::Stx, AdressingMode::ZeroPageY, 4, false),
        0x97 => entry(Operation::Sax, AdressingMode::ZeroPageY, 4, false),
        0x98 => entry(Operation::Tya, AdressingMode::Implicit, 2, false),
        0x99 => entry(Operation::Sta, AdressingMode::AbsoluteY, 5, false),
        0x9A => entry(Operation::Txs, AdressingMode::Implicit, 2, false),
        0x9B => entry(Operation::Shs, AdressingMode::AbsoluteY, 5, false),
        0x9C => entry(Operation::Shy, AdressingMode::AbsoluteX, 5, false),
        0x9D => entry(Operation::Sta, AdressingMode::AbsoluteX, 5, false),
        0x9E => entry(Operation::Shx, AdressingMode::AbsoluteY, 5, false),
        0x9F => entry(Operation::Sha, AdressingMode::AbsoluteY, 5, false),
        0xA0 => entry(Operation::Ldy, AdressingMode::Immediate, 2, false),
        0xA1 => entry(Operation::Lda, AdressingMode::IndirectX, 6, false),
        0xA2 => entry(Operation::Ldx, AdressingMode::Immediate, 2, false),
        0xA3 => entry(Operation::Lax, AdressingMode::IndirectX, 6, false),
        0xA4 => entry(Operation::Ldy, AdressingMode::ZeroPage, 3, false),
        0xA5 => entry(Operation::Lda, AdressingMode::ZeroPage, 3, false),
        0xA6 => entry(Operation::Ldx, AdressingMode::ZeroPage, 3, false),
        0xA7 => entry(Operation::Lax, AdressingMode::ZeroPage, 3, false),
        0xA8 => entry(Operation::Tay, AdressingMode::Implicit, 2, false),
        0xA9 => entry(Operation::Lda, AdressingMode::Immediate, 2, false),
        0xAA => entry(Operation::Tax, AdressingMode::Accumulator, 2, false),
        0xAB => entry(Operation::Lxa, AdressingMode::Immediate, 2, false),
        0xAC => entry(Operation::Ldy, AdressingMode::Absolute, 4, false),
        0xAD => entry(Operation::Lda, AdressingMode::Absolute, 4, false),
        0xAE => entry(Operation::Ldx, AdressingMode::Absolute, 4, false),
        0xAF => entry(Operation::Lax, AdressingMode::Absolute, 4, false),
        0xB0 => entry(Operation::Bcs, AdressingMode::Relative, 2, false),
        0xB1 => entry(Operation::Lda, AdressingMode::IndirectY, 5, true),
        0xB2 => entry(Operation::Jam, AdressingMode::Implicit, 2, false),
        0xB3 => entry(Operation::Lax, AdressingMode::IndirectY, 5, true),
        0xB4 => entry(Operation::Ldy, AdressingMode::ZeroPageX, 4, false),
        0xB5 => entry(Operation::Lda, AdressingMode::ZeroPageX, 4, false),
        0xB6 => entry(Operation::Ldx, AdressingMode::ZeroPageY, 4, false),
        0xB7 => entry(Operation::Lax, AdressingMode::ZeroPageY, 4, false),
        0xB8 => entry(Operation::Clv, AdressingMode::Implicit, 2, false),
        0xB9 => entry(Operation::Lda, AdressingMode::AbsoluteY, 4, true),
        0xBA => entry(Operation::Tsx, AdressingMode::Implicit, 2, false),
        0xBB => entry(Operation::Las, AdressingMode::AbsoluteY, 4, true),
        0xBC => entry(Operation::Ldy, AdressingMode::AbsoluteX, 4, true),
        0xBD => entry(Operation::Lda, AdressingMode::AbsoluteX, 4, true),
        0xBE => entry(Operation::Ldx, AdressingMode::AbsoluteY, 4, true),
        _ => entry(Operation::Lax, AdressingMode::AbsoluteY, 4, true),
    }
}

pub open spec fn instruction_quarter_3(opcode: u8) -> CpuInstruction {
    match opcode {
        0xC0 => entry(Operation::Cpy, AdressingMode::Immediate, 2, false),
        0xC1 => entry(Operation::Cmp, AdressingMode::IndirectX, 6, false),
        0xC2 => entry(Operation::Nop, AdressingMode::Immediate, 2, false),
        0xC3 => entry(Operation::Dcp, AdressingMode::IndirectX, 8, false),
        0xC4 => entry(Operation::Cpy, AdressingMode::ZeroPage, 3, false),
        0xC5 => entry(Operation::Cmp, AdressingMode::ZeroPage, 3, false),
        0xC6 => entry(Operation::Dec, AdressingMode::ZeroPage, 5, false),
        0xC7 => entry(Operation::Dcp, AdressingMode::ZeroPage, 5, false),
        0xC8 => entry(Operation::Iny, AdressingMode::Implicit, 2, false),
        0xC9 => entry(Operation::Cmp, AdressingMode::Immediate, 2, false),
        0xCA => entry(Operation::Dex, AdressingMode::Implicit, 2, false),
        0xCB => entry(Operation::Sbx, AdressingMode::Immediate, 2, false),
        0xCC => entry(Operation::Cpy, AdressingMode::Absolute, 4, false),
        0xCD => entry(Operation::Cmp, AdressingMode::Absolute, 4, false),
        0xCE => entry(Operation::Dec, AdressingMode::Absolute, 6, false),
        0xCF => entry(Operation::Dcp, AdressingMode::Absolute, 6, false),
        0xD0 => entry(Operation::Bne, AdressingMode::Relative, 2, false),
        0xD1 => entry(Operation::Cmp, AdressingMode::IndirectY, 5, true),
        0xD2 => entry(Operation::Jam, AdressingMode::Implicit, 2, false),
        0xD3 => entry(Operation::Dcp, AdressingMode::IndirectY, 8, false),
        0xD4 => entry(Operation::Nop, AdressingMode::ZeroPageX, 4, false),
        0xD5 => entry(Operation::Cmp, AdressingMode::ZeroPageX, 4, false),
        0xD6 => entry(Operation::Dec, AdressingMode::ZeroPageX, 6, false),
        0xD7 => entry(Operation::Dcp, AdressingMode::ZeroPageX, 6, false),
        0xD8 => entry(Operation::Cld, AdressingMode::Implicit, 2, false),
        0xD9 => entry(Operation::Cmp, AdressingMode::AbsoluteY, 4, true),
        0xDA => entry(Operation::Nop, AdressingMode::Implicit, 2, false),
        0xDB => entry(Operation::Dcp, AdressingMode::AbsoluteY, 7, false),
        0xDC => entry(Operation::Nop, AdressingMode::AbsoluteX, 4, true),
        0xDD => entry(Operation::Cmp, AdressingMode::AbsoluteX, 4, true),
        0xDE => entry(Operation::Dec, AdressingMode::AbsoluteX, 7, false),
        0xDF => entry(Operation::Dcp, AdressingMode::AbsoluteX, 7, false),
        0xE0 => entry(Operation::Cpx, AdressingMode::Immediate, 2, false),
        0xE1 => entry(Operation::Sbc, AdressingMode::IndirectX, 6, false),
        0xE2 => entry(Operation::Nop, AdressingMode::Immediate, 2, false),
        0xE3 => entry(Operation::Isb, AdressingMode::IndirectX, 8, false),
        0xE4 => entry(Operation::Cpx, AdressingMode::ZeroPage, 3, false),
        0xE5 => entry(Operation::Sbc, AdressingMode::ZeroPage, 3, false),
        0xE6 => entry(Operation::Inc, AdressingMode::ZeroPage, 5, false),
        0xE7 => entry(Operation::Isb, AdressingMode::ZeroPage, 5, false),
        0xE8 => entry(Operation::Inx, AdressingMode::Implicit, 2, false),
        0xE9 => entry(Operation::Sbc, AdressingMode::Immediate, 2, false),
        0xEA => entry(Operation::Nop, AdressingMode::Implicit, 2, false),
        0xEB => entry(Operation::Sbc, AdressingMode::Immediate, 2, false),
        0xEC => entry(Operation::Cpx, AdressingMode::Absolute, 4, false),
        0xED => entry(Operation::Sbc, AdressingMode::Absolute, 4, false),
        0xEE => entry(Operation::Inc, AdressingMode::Absolute, 6, false),
        0xEF => entry(Operation::Isb, AdressingMode::Absolute, 6, false),
        0xF0 => entry(Operation::Beq, AdressingMode::Relative, 2, false),
        0xF1 => entry(Operation::Sbc, AdressingMode::IndirectY, 5, true),
        0xF2 => entry(Operation::Jam, AdressingMode::Implicit, 2, false),
        0xF3 => entry(Operation::Isb, AdressingMode::IndirectY, 8, false),
        0xF4 => entry(Operation::Nop, AdressingMode::ZeroPageX, 4, false),
        0xF5 => entry(Operation::Sbc, AdressingMode::ZeroPageX, 4, false),
        0xF6 => entry(Operation::Inc, AdressingMode::ZeroPageX, 6, false),
        0xF7 => entry(Operation::Isb, AdressingMode::ZeroPageX, 6, false),
        0xF8 => entry(Operation::Sed, AdressingMode::Implicit, 2, false),
        0xF9 => entry(Operation::Sbc, AdressingMode::AbsoluteY, 4, true),
        0xFA => entry(Operation::Nop, AdressingMode::Implicit, 2, false),
        0xFB => entry(Operation::Isb, AdressingMode::AbsoluteY, 7, false),
        0xFC => entry(Operation::Nop, AdressingMode::AbsoluteX, 4, true),
        0xFD => entry(Operation::Sbc, AdressingMode::AbsoluteX, 4, true),
        0xFE => entry(Operation::Inc, AdressingMode::AbsoluteX, 7, false),
        _ => entry(Operation::Isb, AdressingMode::AbsoluteX, 7, false),
    }
}

/// The instruction of each opcode.
pub open spec fn instruction_table(opcode: u8) -> CpuInstruction {
    if opcode < 0x40 {
        instruction_quarter_0(opcode)
    } else if opcode < 0x80 {
        instruction_quarter_1(opcode)
    } else if opcode < 0xC0 {
        instruction_quarter_2(opcode)
    } else {
        instruction_quarter_3(opcode)
    }
}

fn make(operation: Operation, adressing_mode: AdressingMode, cycles: u8, add_cycle: bool) -> (i: CpuInstruction)
    ensures
        i == entry(operation, adressing_mode, cycles, add_cycle),
{
    CpuInstruction { operation, adressing_mode, cycles, add_cycle }
}

fn instruction_in_quarter_0(opcode: u8) -> (i: CpuInstruction)
    requires
        0x00 <= opcode <= 0x3F,
    ensures
        i == instruction_quarter_0(opcode),
        1 <= i.cycles <= 8,
        i.adressing_mode != AdressingMode::NoMode,
{
    match opcode {
        0x00 => make(Operation::Brk, AdressingMode::Implicit, 7, false),
        0x01 => make(Operation::Ora, AdressingMode::IndirectX, 6, false),
        0x02 => make(Operation::Jam, AdressingMode::Implicit, 2, false),
        0x03 => make(Operation::Slo, AdressingMode::IndirectX, 8, false),
        0x04 => make(Operation::Nop, AdressingMode::ZeroPage, 3, false),
        0x05 => make(Operation::Ora, AdressingMode::ZeroPage, 3, false),
        0x06 => make(Operation::Asl, AdressingMode::ZeroPage, 5, false),
        0x07 => make(Operation::Slo, AdressingMode::ZeroPage, 5, false),
        0x08 => make(Operation::Php, AdressingMode::Implicit, 3, false),
        0x09 => make(Operation::Ora, AdressingMode::Immediate, 2, false),
        0x0A => make(Operation::Asl, AdressingMode::Accumulator, 2, false),
        0x0B => make(Operation::Anc, AdressingMode::Immediate, 2, false),
        0x0C => make(Operation::Nop, AdressingMode::Absolute, 4, false),
        0x0D => make(Operation::Ora, AdressingMode::Absolute, 4, false),
        0x0E => make(Operation::Asl, AdressingMode::Absolute, 6, false),
        0x0F => make(Operation::Slo, AdressingMode::Absolute, 6, false),
        0x10 => make(Operation::Bpl, AdressingMode::Relative, 2, false),
        0x11 => make(Operation::Ora, AdressingMode::IndirectY, 5, true),
        0x12 => make(Operation::Jam, AdressingMode::Implicit, 2, false),
        0x13 => make(Operation::Slo, AdressingMode::IndirectY, 8, false),
        0x14 => make(Operation::Nop, AdressingMode::ZeroPageX, 4, false),
        0x15 => make(Operation::Ora, AdressingMode::ZeroPageX, 4, false),
        0x16 => make(Operation::Asl, AdressingMode::ZeroPageX, 6, false),
        0x17 => make(Operation::Slo, AdressingMode::ZeroPageX, 6, false),
        0x18 => make(Operation::Clc, AdressingMode::Implicit, 2, false),
        0x19 => make(Operation::Ora, AdressingMode::AbsoluteY, 4, true),
        0x1A => make(Operation::Nop, AdressingMode::Implicit, 2, false),
        0x1B => make(Operation::Slo, AdressingMode::AbsoluteY, 7, false),
        0x1C => make(Operation::Nop, AdressingMode::AbsoluteX, 4, true),
        0x1D => make(Operation::Ora, AdressingMode::AbsoluteX, 4, true),
        0x1E => make(Operation::Asl, AdressingMode::AbsoluteX, 7, false),
        0x1F => make(Operation::Slo, AdressingMode::AbsoluteX, 7, false),
        0x20 => make(Operation::Jsr, AdressingMode::Absolute, 6, false),
        0x21 => make(Operation::And, AdressingMode::IndirectX, 6, false),
        0x22 => make(Operation::Jam, AdressingMode::Implicit, 2, false),
        0x23 => make(Operation::Rla, AdressingMode::IndirectX, 8, false),
        0x24 => make(Operation::Bit, AdressingMode::ZeroPage, 3, false),
        0x25 => make(Operation::And, AdressingMode::ZeroPage, 3, false),
        0x26 => make(Operation::Rol, AdressingMode::ZeroPage, 5, false),
        0x27 => make(Operation::Rla, AdressingMode::ZeroPage, 5, false),
        0x28 => make(Operation::Plp, AdressingMode::Implicit, 4, false),
        0x29 => make(Operation::And, AdressingMode::Immediate, 2, false),
        0x2A => make(Operation::Rol, AdressingMode::Accumulator, 2, false),
        0x2B => make(Operation::Anc, AdressingMode::Immediate, 2, false),
        0x2C => make(Operation::Bit, AdressingMode::Absolute, 4, false),
        0x2D => make(Operation::And, AdressingMode::Absolute, 4, false),
        0x2E => make(Operation::Rol, AdressingMode::Absolute, 6, false),
        0x2F => make(Operation::Rla, AdressingMode::Absolute, 6, false),
        0x30 => make(Operation::Bmi, AdressingMode::Relative, 2, false),
        0x31 => make(Operation::And, AdressingMode::IndirectY, 5, true),
        0x32 => make(Operation::Jam, AdressingMode::Implicit, 2, false),
        0x33 => make(Operation::Rla, AdressingMode::IndirectY, 8, false),
        0x34 => make(Operation::Nop, AdressingMode::ZeroPageX, 4, false),
        0x35 => make(Operation::And, AdressingMode::ZeroPageX, 4, false),
        0x36 => make(Operation::Rol, AdressingMode::ZeroPageX, 6, false),
        0x37 => make(Operation::Rla, AdressingMode::ZeroPageX, 6, false),
        0x38 => make(Operation::Sec, AdressingMode::Implicit, 2, false),
        0x39 => make(Operation::And, AdressingMode::AbsoluteY, 4, true),
        0x3A => make(Operation::Nop, AdressingMode::Implicit, 2, false),
        0x3B => make(Operation::Rla, AdressingMode::AbsoluteY, 7, false),
        0x3C => make(Operation::Nop, AdressingMode::AbsoluteX, 4, true),
        0x3D => make(Operation::And, AdressingMode::AbsoluteX, 4, true),
        0x3E => make(Operation::Rol, AdressingMode::AbsoluteX, 7, false),
        _ => make(Operation::Rla, AdressingMode::AbsoluteX, 7, false),
    }
}

fn instruction_in_quarter_1(opcode: u8) -> (i: CpuInstruction)
    requires
        0x40 <= opcode <= 0x7F,
    ensures
        i == instruction_quarter_1(opcode),
        1 <= i.cycles <= 8,
        i.adressing_mode != AdressingMode::NoMode,
{
    match opcode {
        0x40 => make(Operation::Rti, AdressingMode::Implicit, 6, false),
        0x41 => make(Operation::Eor, AdressingMode::IndirectX, 6, false),
        0x42 => make(Operation::Jam, AdressingMode::Implicit, 2, false),
        0x43 => make(Operation::Sre, AdressingMode::IndirectX, 8, false),
        0x44 => make(Operation::Nop, AdressingMode::ZeroPage, 3, false),
        0x45 => make(Operation::Eor, AdressingMode::ZeroPage, 3, false),
        0x46 => make(Operation::Lsr, AdressingMode::ZeroPage, 5, false),
        0x47 => make(Operation::Sre, AdressingMode::ZeroPage, 5, false),
        0x48 => make(Operation::Pha, AdressingMode::Implicit, 3, false),
        0x49 => make(Operation::Eor, AdressingMode::Immediate, 2, false),
        0x4A => make(Operation::Lsr, AdressingMode::Accumulator, 2, false),
        0x4B => make(Operation::Asr, AdressingMode::Immediate, 2, false),
        0x4C => make(Operation::Jmp, AdressingMode::Absolute, 3, false),
        0x4D => make(Operation::Eor, AdressingMode::Absolute, 4, false),
        0x4E => make(Operation::Lsr, AdressingMode::Absolute, 6, false),
        0x4F => make(Operation::Sre, AdressingMode::Absolute, 6, false),
        0x50 => make(Operation::Bvc, AdressingMode::Relative, 2, false),
        0x51 => make(Operation::Eor, AdressingMode::IndirectY, 5, true),
        0x52 => make(Operation::Jam, AdressingMode::Implicit, 2, false),
        0x53 => make(Operation::Sre, AdressingMode::IndirectY, 8, false),
        0x54 => make(Operation::Nop, AdressingMode::ZeroPageX, 4, false),
        0x55 => make(Operation::Eor, AdressingMode::ZeroPageX, 4, false),
        0x56 => make(Operation::Lsr, AdressingMode::ZeroPageX, 6, false),
        0x57 => make(Operation::Sre, AdressingMode::ZeroPageX, 6, false),
        0x58 => make(Operation::Cli, AdressingMode::Implicit, 2, false),
        0x59 => make(Operation::Eor, AdressingMode::AbsoluteY, 4, true),
        0x5A => make(Operation::Nop, AdressingMode::Implicit, 2, false),
        0x5B => make(Operation::Sre, AdressingMode::AbsoluteY, 7, false),
        0x5C => make(Operation::Nop, AdressingMode::AbsoluteX, 4, true),
        0x5D => make(Operation::Eor, AdressingMode::AbsoluteX, 4, true),
        0x5E => make(Operation::Lsr, AdressingMode::AbsoluteX, 7, false),
        0x5F => make(Operation::Sre, AdressingMode::AbsoluteX, 7, false),
        0x60 => make(Operation::Rts, AdressingMode::Implicit, 6, false),
        0x61 => make(Operation::Adc, AdressingMode::IndirectX, 6, false),
        0x62 => make(Operation::Jam, AdressingMode::Implicit, 2, false),
        0x63 => make(Operation::Rra, AdressingMode::IndirectX, 8, false),
        0x64 => make(Operation::Nop, AdressingMode::ZeroPage, 3, false),
        0x65 => make(Operation::Adc, AdressingMode::ZeroPage, 3, false),
        0x66 => make(Operation::Ror, AdressingMode::ZeroPage, 5, false),
        0x67 => make(Operation::Rra, AdressingMode::ZeroPage, 5, false),
        0x68 => make(Operation::Pla, AdressingMode::Implicit, 4, false),
        0x69 => make(Operation::Adc, AdressingMode::Immediate, 2, false),
        0x6A => make(Operation::Ror, AdressingMode::Accumulator, 2, false),
        0x6B => make(Operation::Arr, AdressingMode::Immediate, 2, false),
        0x6C => make(Operation::Jmp, AdressingMode::Indirect, 5, false),
        0x6D => make(Operation::Adc, AdressingMode::Absolute, 4, false),
        0x6E => make(Operation::Ror, AdressingMode::Absolute, 6, false),
        0x6F => make(Operation::Rra, AdressingMode::Absolute, 6, false),
        0x70 => make(Operation::Bvs, AdressingMode::Relative, 2, false),
        0x71 => make(Operation::Adc, AdressingMode::IndirectY, 5, true),
        0x72 => make(Operation::Jam, AdressingMode::Implicit, 2, false),
        0x73 => make(Operation::Rra, AdressingMode::IndirectY, 8, false),
        0x74 => make(Operation::Nop, AdressingMode::ZeroPageX, 4, false),
        0x75 => make(Operation::Adc, AdressingMode::ZeroPageX, 4, false),
        0x76 => make(Operation::Ror, AdressingMode::ZeroPageX, 6, false),
        0x77 => make(Operation::Rra, AdressingMode::ZeroPageX, 6, false),
        0x78 => make(Operation::Sei, AdressingMode::Implicit, 2, false),
        0x79 => make(Operation::Adc, AdressingMode::AbsoluteY, 4, true),
        0x7A => make(Operation::Nop, AdressingMode::Implicit, 2, false),
        0x7B => make(Operation::Rra, AdressingMode::AbsoluteY, 7, false),
        0x7C => make(Operation::Nop, AdressingMode::AbsoluteX, 4, true),
        0x7D => make(Operation::Adc, AdressingMode::AbsoluteX, 4, true),
        0x7E => make(Operation::Ror, AdressingMode::AbsoluteX, 7, false),
        _ => make(Operation::Rra, AdressingMode::AbsoluteX, 7, false),
    }
}

fn instruction_in_quarter_2(opcode: u8) -> (i: CpuInstruction)
    requires
        0x80 <= opcode <= 0xBF,
    ensures
        i == instruction_quarter_2(opcode),
        1 <= i.cycles <= 8,
        i.adressing_mode != AdressingMode::NoMode,
{
    match opcode {
        0x80 => make(Operation::Nop, AdressingMode::Immediate, 2, false),
        0x81 => make(Operation::Sta, AdressingMode::IndirectX, 6, false),
        0x82 => make(Operation::Nop, AdressingMode::Immediate, 2, false),
        0x83 => make(Operation::Sax, AdressingMode::IndirectX, 6, false),
        0x84 => make(Operation::Sty, AdressingMode::ZeroPage, 3, false),
        0x85 => make(Operation::Sta, AdressingMode::ZeroPage, 3, false),
        0x86 => make(Operation::Stx, AdressingMode::ZeroPage, 3, false),
        0x87 => make(Operation::Sax, AdressingMode::ZeroPage, 3, false),
        0x88 => make(Operation::Dey, AdressingMode::Implicit, 2, false),
        0x89 => make(Operation::Nop, AdressingMode::Immediate, 2, false),
        0x8A => make(Operation::Txa, AdressingMode::Accumulator, 2, false),
        0x8B => make(Operation::Ane, AdressingMode::Immediate, 2, false),
        0x8C => make(Operation::Sty, AdressingMode::Absolute, 4, false),
        0x8D => make(Operation::Sta, AdressingMode::Absolute, 4, false),
        0x8E => make(Operation::Stx, AdressingMode::Absolute, 4, false),
        0x8F => make(Operation::Sax, AdressingMode::Absolute, 4, false),
        0x90 => make(Operation::Bcc, AdressingMode::Relative, 2, false),
        0x91 => make(Operation::Sta, AdressingMode::IndirectY, 6, false),
        0x92 => make(Operation::Jam, AdressingMode::Implicit, 2, false),
        0x93 => make(Operation::Sha, AdressingMode::IndirectY, 6, false),
        0x94 => make(Operation::Sty, AdressingMode::ZeroPageX, 4, false),
        0x95 => make(Operation::Sta, AdressingMode::ZeroPageX, 4, false),
        0x96 => make(Operation::Stx, AdressingMode::ZeroPageY, 4, false),
        0x97 => make(Operation::Sax, AdressingMode::ZeroPageY, 4, false),
        0x98 => make(Operation::Tya, AdressingMode::Implicit, 2, false),
        0x99 => make(Operation::Sta, AdressingMode::AbsoluteY, 5, false),
        0x9A => make(Operation::Txs, AdressingMode::Implicit, 2, false),
        0x9B => make(Operation::Shs, AdressingMode::AbsoluteY, 5, false),
        0x9C => make(Operation::Shy, AdressingMode::AbsoluteX, 5, false),
        0x9D => make(Operation::Sta, AdressingMode::AbsoluteX, 5, false),
        0x9E => make(Operation::Shx, AdressingMode::AbsoluteY, 5, false),
        0x9F => make(Operation::Sha, AdressingMode::AbsoluteY, 5, false),
        0xA0 => make(Operation::Ldy, AdressingMode::Immediate, 2, false),
        0xA1 => make(Operation::Lda, AdressingMode::IndirectX, 6, false),
        0xA2 => make(Operation::Ldx, AdressingMode::Immediate, 2, false),
        0xA3 => make(Operation::Lax, AdressingMode::IndirectX, 6, false),
        0xA4 => make(Operation::Ldy, AdressingMode::ZeroPage, 3, false),
        0xA5 => make(Operation::Lda, AdressingMode::ZeroPage, 3, false),
        0xA6 => make(Operation::Ldx, AdressingMode::ZeroPage, 3, false),
        0xA7 => make(Operation::Lax, AdressingMode::ZeroPage, 3, false),
        0xA8 => make(Operation::Tay, AdressingMode::Implicit, 2, false),
        0xA9 => make(Operation::Lda, AdressingMode::Immediate, 2, false),
        0xAA => make(Operation::Tax, AdressingMode::Accumulator, 2, false),
        0xAB => make(Operation::Lxa, AdressingMode::Immediate, 2, false),
        0xAC => make(Operation::Ldy, AdressingMode::Absolute, 4, false),
        0xAD => make(Operation::Lda, AdressingMode::Absolute, 4, false),
        0xAE => make(Operation::Ldx, AdressingMode::Absolute, 4, false),
        0xAF => make(Operation::Lax, AdressingMode::Absolute, 4, false),
        0xB0 => make(Operation::Bcs, AdressingMode::Relative, 2, false),
        0xB1 => make(Operation::Lda, AdressingMode::IndirectY, 5, true),
        0xB2 => make(Operation::Jam, AdressingMode::Implicit, 2, false),
        0xB3 => make(Operation::Lax, AdressingMode::IndirectY, 5, true),
        0xB4 => make(Operation::Ldy, AdressingMode::ZeroPageX, 4, false),
        0xB5 => make(Operation::Lda, AdressingMode::ZeroPageX, 4, false),
        0xB6 => make(Operation::Ldx, AdressingMode::ZeroPageY, 4, false),
        0xB7 => make(Operation::Lax, AdressingMode::ZeroPageY, 4, false),
        0xB8 => make(Operation::Clv, AdressingMode::Implicit, 2, false),
        0xB9 => make(Operation::Lda, AdressingMode::AbsoluteY, 4, true),
        0xBA => make(Operation::Tsx, AdressingMode::Implicit, 2, false),
        0xBB => make(Operation::Las, AdressingMode::AbsoluteY, 4, true),
        0xBC => make(Operation::Ldy, AdressingMode::AbsoluteX, 4, true),
        0xBD => make(Operation::Lda, AdressingMode::AbsoluteX, 4, true),
        0xBE => make(Operation::Ldx, AdressingMode::AbsoluteY, 4, true),
        _ => make(Operation::Lax, AdressingMode::AbsoluteY, 4, true),
    }
}

fn instruction_in_quarter_3(opcode: u8) -> (i: CpuInstruction)
    requires
        0xC0 <= opcode <= 0xFF,
    ensures
        i == instruction_quarter_3(opcode),
        1 <= i.cycles <= 8,
        i.adressing_mode != AdressingMode::NoMode,
{
    match opcode {
        0xC0 => make(Operation::Cpy, AdressingMode::Immediate, 2, false),
        0xC1 => make(Operation::Cmp, AdressingMode::IndirectX, 6, false),
        0xC2 => make(Operation::Nop, AdressingMode::Immediate, 2, false),
        0xC3 => make(Operation::Dcp, AdressingMode::IndirectX, 8, false),
        0xC4 => make(Operation::Cpy, AdressingMode::ZeroPage, 3, false),
        0xC5 => make(Operation::Cmp, AdressingMode::ZeroPage, 3, false),
        0xC6 => make(Operation::Dec, AdressingMode::ZeroPage, 5, false),
        0xC7 => make(Operation::Dcp, AdressingMode::ZeroPage, 5, false),
        0xC8 => make(Operation::Iny, AdressingMode::Implicit, 2, false),
        0xC9 => make(Operation::Cmp, AdressingMode::Immediate, 2, false),
        0xCA => make(Operation::Dex, AdressingMode::Implicit, 2, false),
        0xCB => make(Operation::Sbx, AdressingMode::Immediate, 2, false),
        0xCC => make(Operation::Cpy, AdressingMode::Absolute, 4, false),
        0xCD => make(Operation::Cmp, AdressingMode::Absolute, 4, false),
        0xCE => make(Operation::Dec, AdressingMode::Absolute, 6, false),
        0xCF => make(Operation::Dcp, AdressingMode::Absolute, 6, false),
        0xD0 => make(Operation::Bne, AdressingMode::Relative, 2, false),
        0xD1 => make(Operation::Cmp, AdressingMode::IndirectY, 5, true),
        0xD2 => make(Operation::Jam, AdressingMode::Implicit, 2, false),
        0xD3 => make(Operation::Dcp, AdressingMode::IndirectY, 8, false),
        0xD4 => make(Operation::Nop, AdressingMode::ZeroPageX, 4, false),
        0xD5 => make(Operation::Cmp, AdressingMode::ZeroPageX, 4, false),
        0xD6 => make(Operation::Dec, AdressingMode::ZeroPageX, 6, false),
        0xD7 => make(Operation::Dcp, AdressingMode::ZeroPageX, 6, false),
        0xD8 => make(Operation::Cld, AdressingMode::Implicit, 2, false),
        0xD9 => make(Operation::Cmp, AdressingMode::AbsoluteY, 4, true),
        0xDA => make(Operation::Nop, AdressingMode::Implicit, 2, false),
        0xDB => make(Operation::Dcp, AdressingMode::AbsoluteY, 7, false),
        0xDC => make(Operation::Nop, AdressingMode::AbsoluteX, 4, true),
        0xDD => make(Operation::Cmp, AdressingMode::AbsoluteX, 4, true),
        0xDE => make(Operation::Dec, AdressingMode::AbsoluteX, 7, false),
        0xDF => make(Operation::Dcp, AdressingMode::AbsoluteX, 7, false),
        0xE0 => make(Operation::Cpx, AdressingMode::Immediate, 2, false),
        0xE1 => make(Operation::Sbc, AdressingMode::IndirectX, 6, false),
        0xE2 => make(Operation::Nop, AdressingMode::Immediate, 2, false),
        0xE3 => make(Operation::Isb, AdressingMode::IndirectX, 8, false),
        0xE4 => make(Operation::Cpx, AdressingMode::ZeroPage, 3, false),
        0xE5 => make(Operation::Sbc, AdressingMode::ZeroPage, 3, false),
        0xE6 => make(Operation::Inc, AdressingMode::ZeroPage, 5, false),
        0xE7 => make(Operation::Isb, AdressingMode::ZeroPage, 5, false),
        0xE8 => make(Operation::Inx, AdressingMode::Implicit, 2, false),
        0xE9 => make(Operation::Sbc, AdressingMode::Immediate, 2, false),
        0xEA => make(Operation::Nop, AdressingMode::Implicit, 2, false),
        0xEB => make(Operation::Sbc, AdressingMode::Immediate, 2, false),
        0xEC => make(Operation::Cpx, AdressingMode::Absolute, 4, false),
        0xED => make(Operation::Sbc, AdressingMode::Absolute, 4, false),
        0xEE => make(Operation::Inc, AdressingMode::Absolute, 6, false),
        0xEF => make(Operation::Isb, AdressingMode::Absolute, 6, false),
        0xF0 => make(Operation::Beq, AdressingMode::Relative, 2, false),
        0xF1 => make(Operation::Sbc, AdressingMode::IndirectY, 5, true),
        0xF2 => make(Operation::Jam, AdressingMode::Implicit, 2, false),
        0xF3 => make(Operation::Isb, AdressingMode::IndirectY, 8, false),
        0xF4 => make(Operation::Nop, AdressingMode::ZeroPageX, 4, false),
        0xF5 => make(Operation::Sbc, AdressingMode::ZeroPageX, 4, false),
        0xF6 => make(Operation::Inc, AdressingMode::ZeroPageX, 6, false),
        0xF7 => make(Operation::Isb, AdressingMode::ZeroPageX, 6, false),
        0xF8 => make(Operation::Sed, AdressingMode::Implicit, 2, false),
        0xF9 => make(Operation::Sbc, AdressingMode::AbsoluteY, 4, true),
        0xFA => make(Operation::Nop, AdressingMode::Implicit, 2, false),
        0xFB => make(Operation::Isb, AdressingMode::AbsoluteY, 7, false),
        0xFC => make(Operation::Nop, AdressingMode::AbsoluteX, 4, true),
        0xFD => make(Operation::Sbc, AdressingMode::AbsoluteX, 4, true),
        0xFE => make(Operation::Inc, AdressingMode::AbsoluteX, 7, false),
        _ => make(Operation::Isb, AdressingMode::AbsoluteX, 7, false),
    }
}

/// The instruction of an opcode.
pub fn instruction(opcode: u8) -> (i: CpuInstruction)
    ensures
        i == instruction_table(opcode),
        1 <= i.cycles <= 8,
        i.adressing_mode != AdressingMode::NoMode,
{
    if opcode < 0x40 {
        instruction_in_quarter_0(opcode)
    } else if opcode < 0x80 {
        instruction_in_quarter_1(opcode)
    } else if opcode < 0xC0 {
        instruction_in_quarter_2(opcode)
    } else {
        instruction_in_quarter_3(opcode)
    }
}

/// The number of bytes of an instruction with the given addressing mode.
pub open spec fn mode_bytes(mode: AdressingMode) -> u8 {
    match mode {
        AdressingMode::Implicit | AdressingMode::Accumulator | AdressingMode::NoMode => 1,
        AdressingMode::Absolute | AdressingMode::AbsoluteX | AdressingMode::AbsoluteY | AdressingMode::Indirect => 3,
        _ => 2,
    }
}

/// The number of bytes of an instruction with the given addressing mode.
pub fn instruction_bytes(mode: AdressingMode) -> (n: u8)
    ensures
        n == mode_bytes(mode),
{
    match mode {
        AdressingMode::Implicit | AdressingMode::Accumulator | AdressingMode::NoMode => 1,
        AdressingMode::Absolute | AdressingMode::AbsoluteX | AdressingMode::AbsoluteY | AdressingMode::Indirect => 3,
        _ => 2,
    }
}

/// The three letters of an operation's mnemonic, in ASCII.
pub open spec fn mnemonic_letters(op: Operation) -> (u8, u8, u8) {
    match op {
        Operation::Adc => ('A' as u8, 'D' as u8, 'C' as u8),
        Operation::Anc => ('A' as u8, 'N' as u8, 'C' as u8),
        Operation::And => ('A' as u8, 'N' as u8, 'D' as u8),
        Operation::Ane => ('A' as u8, 'N' as u8, 'E' as u8),
        Operation::Arr => ('A' as u8, 'R' as u8, 'R' as u8),
        Operation::Asl => ('A' as u8, 'S' as u8, 'L' as u8),
        Operation::Asr => ('A' as u8, 'S' as u8, 'R' as u8),
        Operation::Bcc => ('B' as u8, 'C' as u8, 'C' as u8),
        Operation::Bcs => ('B' as u8, 'C' as u8, 'S' as u8),
        Operation::Beq => ('B' as u8, 'E' as u8, 'Q' as u8),
        Operation::Bit => ('B' as u8, 'I' as u8, 'T' as u8),
        Operation::Bmi => ('B' as u8, 'M' as u8, 'I' as u8),
        Operation::Bne => ('B' as u8, 'N' as u8, 'E' as u8),
        Operation::Bpl => ('B' as u8, 'P' as u8, 'L' as u8),
        Operation::Brk => ('B' as u8, 'R' as u8, 'K' as u8),
        Operation::Bvc => ('B' as u8, 'V' as u8, 'C' as u8),
        Operation::Bvs => ('B' as u8, 'V' as u8, 'S' as u8),
        Operation::Clc => ('C' as u8, 'L' as u8, 'C' as u8),
        Operation::Cld => ('C' as u8, 'L' as u8, 'D' as u8),
        Operation::Cli => ('C' as u8, 'L' as u8, 'I' as u8),
        Operation::Clv => ('C' as u8, 'L' as u8, 'V' as u8),
        Operation::Cmp => ('C' as u8, 'M' as u8, 'P' as u8),
        Operation::Cpx => ('C' as u8, 'P' as u8, 'X' as u8),
        Operation::Cpy => ('C' as u8, 'P' as u8, 'Y' as u8),
        Operation::Dcp => ('D' as u8, 'C' as u8, 'P' as u8),
        Operation::Dec => ('D' as u8, 'E' as u8, 'C' as u8),
        Operation::Dex => ('D' as u8, 'E' as u8, 'X' as u8),
        Operation::Dey => ('D' as u8, 'E' as u8, 'Y' as u8),
        Operation::Eor => ('E' as u8, 'O' as u8, 'R' as u8),
        Operation::Jam => ('J' as u8, 'A' as u8, 'M' as u8),
        Operation::Inc => ('I' as u8, 'N' as u8, 'C' as u8),
        Operation::Inx => ('I' as u8, 'N' as u8, 'X' as u8),
        Operation::Iny => ('I' as u8, 'N' as u8, 'Y' as u8),
        Operation::Isb => ('I' as u8, 'S' as u8, 'B' as u8),
        Operation::Jmp => ('J' as u8, 'M' as u8, 'P' as u8),
        Operation::Jsr => ('J' as u8, 'S' as u8, 'R' as u8),
        Operation::Las => ('L' as u8, 'A' as u8, 'S' as u8),
        Operation::Lax => ('L' as u8, 'A' as u8, 'X' as u8),
        Operation::Lda => ('L' as u8, 'D' as u8, 'A' as u8),
        Operation::Ldx => ('L' as u8, 'D' as u8, 'X' as u8),
        Operation::Ldy => ('L' as u8, 'D' as u8, 'Y' as u8),
        Operation::Lsr => ('L' as u8, 'S' as u8, 'R' as u8),
        Operation::Lxa => ('L' as u8, 'X' as u8, 'A' as u8),
        Operation::Nop => ('N' as u8, 'O' as u8, 'P' as u8),
        Operation::Ora => ('O' as u8, 'R' as u8, 'A' as u8),
        Operation::Pha => ('P' as u8, 'H' as u8, 'A' as u8),
        Operation::Php => ('P' as u8, 'H' as u8, 'P' as u8),
        Operation::Pla => ('P' as u8, 'L' as u8, 'A' as u8),
        Operation::Plp => ('P' as u8, 'L' as u8, 'P' as u8),
        Operation::Rla => ('R' as u8, 'L' as u8, 'A' as u8),
        Operation::Rol => ('R' as u8, 'O' as u8, 'L' as u8),
        Operation::Ror => ('R' as u8, 'O' as u8, 'R' as u8),
        Operation::Rra => ('R' as u8, 'R' as u8, 'A' as u8),
        Operation::Rti => ('R' as u8, 'T' as u8, 'I' as u8),
        Operation::Rts => ('R' as u8, 'T' as u8, 'S' as u8),
        Operation::Sax => ('S' as u8, 'A' as u8, 'X' as u8),
        Operation::Sbc => ('S' as u8, 'B' as u8, 'C' as u8),
        Operation::Sbx => ('S' as u8, 'B' as u8, 'X' as u8),
        Operation::Sec => ('S' as u8, 'E' as u8, 'C' as u8),
        Operation::Sed => ('S' as u8, 'E' as u8, 'D' as u8),
        Operation::Sei => ('S' as u8, 'E' as u8, 'I' as u8),
        Operation::Sha => ('S' as u8, 'H' as u8, 'A' as u8),
        Operation::Shs => ('S' as u8, 'H' as u8, 'S' as u8),
        Operation::Shx => ('S' as u8, 'H' as u8, 'X' as u8),
        Operation::Shy => ('S' as u8, 'H' as u8, 'Y' as u8),
        Operation::Slo => ('S' as u8, 'L' as u8, 'O' as u8),
        Operation::Sre => ('S' as u8, 'R' as u8, 'E' as u8),
        Operation::Sta => ('S' as u8, 'T' as u8, 'A' as u8),
        Operation::Stx => ('S' as u8, 'T' as u8, 'X' as u8),
        Operation::Sty => ('S' as u8, 'T' as u8, 'Y' as u8),
        Operation::Tax => ('T' as u8, 'A' as u8, 'X' as u8),
        Operation::Tay => ('T' as u8, 'A' as u8, 'Y' as u8),
        Operation::Tsx => ('T' as u8, 'S' as u8, 'X' as u8),
        Operation::Txa => ('T' as u8, 'X' as u8, 'A' as u8),
        Operation::Txs => ('T' as u8, 'X' as u8, 'S' as u8),
        Operation::Tya => ('T' as u8, 'Y' as u8, 'A' as u8),
    }
}

impl Operation {
    /// The three letters of the operation's mnemonic, in ASCII.
    pub fn mnemonic(&self) -> (m: (u8, u8, u8))
        ensures
            m == mnemonic_letters(*self),
    {
        match self {
            Operation::Adc => ('A' as u8, 'D' as u8, 'C' as u8),
            Operation::Anc => ('A' as u8, 'N' as u8, 'C' as u8),
            Operation::And => ('A' as u8, 'N' as u8, 'D' as u8),
            Operation::Ane => ('A' as u8, 'N' as u8, 'E' as u8),
            Operation::Arr => ('A' as u8, 'R' as u8, 'R' as u8),
            Operation::Asl => ('A' as u8, 'S' as u8, 'L' as u8),
            Operation::Asr => ('A' as u8, 'S' as u8, 'R' as u8),
            Operation::Bcc => ('B' as u8, 'C' as u8, 'C' as u8),
            Operation::Bcs => ('B' as u8, 'C' as u8, 'S' as u8),
            Operation::Beq => ('B' as u8, 'E' as u8, 'Q' as u8),
            Operation::Bit => ('B' as u8, 'I' as u8, 'T' as u8),
            Operation::Bmi => ('B' as u8, 'M' as u8, 'I' as u8),
            Operation::Bne => ('B' as u8, 'N' as u8, 'E' as u8),
            Operation::Bpl => ('B' as u8, 'P' as u8, 'L' as u8),
            Operation::Brk => ('B' as u8, 'R' as u8, 'K' as u8),
            Operation::Bvc => ('B' as u8, 'V' as u8, 'C' as u8),
            Operation::Bvs => ('B' as u8, 'V' as u8, 'S' as u8),
            Operation::Clc => ('C' as u8, 'L' as u8, 'C' as u8),
            Operation::Cld => ('C' as u8, 'L' as u8, 'D' as u8),
            Operation::Cli => ('C' as u8, 'L' as u8, 'I' as u8),
            Operation::Clv => ('C' as u8, 'L' as u8, 'V' as u8),
            Operation::Cmp => ('C' as u8, 'M' as u8, 'P' as u8),
            Operation::Cpx => ('C' as u8, 'P' as u8, 'X' as u8),
            Operation::Cpy => ('C' as u8, 'P' as u8, 'Y' as u8),
            Operation::Dcp => ('D' as u8, 'C' as u8, 'P' as u8),
            Operation::Dec => ('D' as u8, 'E' as u8, 'C' as u8),
            Operation::Dex => ('D' as u8, 'E' as u8, 'X' as u8),
            Operation::Dey => ('D' as u8, 'E' as u8, 'Y' as u8),
            Operation::Eor => ('E' as u8, 'O' as u8, 'R' as u8),
            Operation::Jam => ('J' as u8, 'A' as u8, 'M' as u8),
            Operation::Inc => ('I' as u8, 'N' as u8, 'C' as u8),
            Operation::Inx => ('I' as u8, 'N' as u8, 'X' as u8),
            Operation::Iny => ('I' as u8, 'N' as u8, 'Y' as u8),
            Operation::Isb => ('I' as u8, 'S' as u8, 'B' as u8),
            Operation::Jmp => ('J' as u8, 'M' as u8, 'P' as u8),
            Operation::Jsr => ('J' as u8, 'S' as u8, 'R' as u8),
            Operation::Las => ('L' as u8, 'A' as u8, 'S' as u8),
            Operation::Lax => ('L' as u8, 'A' as u8, 'X' as u8),
            Operation::Lda => ('L' as u8, 'D' as u8, 'A' as u8),
            Operation::Ldx => ('L' as u8, 'D' as u8, 'X' as u8),
            Operation::Ldy => ('L' as u8, 'D' as u8, 'Y' as u8),
            Operation::Lsr => ('L' as u8, 'S' as u8, 'R' as u8),
            Operation::Lxa => ('L' as u8, 'X' as u8, 'A' as u8),
            Operation::Nop => ('N' as u8, 'O' as u8, 'P' as u8),
            Operation::Ora => ('O' as u8, 'R' as u8, 'A' as u8),
            Operation::Pha => ('P' as u8, 'H' as u8, 'A' as u8),
            Operation::Php => ('P' as u8, 'H' as u8, 'P' as u8),
            Operation::Pla => ('P' as u8, 'L' as u8, 'A' as u8),
            Operation::Plp => ('P' as u8, 'L' as u8, 'P' as u8),
            Operation::Rla => ('R' as u8, 'L' as u8, 'A' as u8),
            Operation::Rol => ('R' as u8, 'O' as u8, 'L' as u8),
            Operation::Ror => ('R' as u8, 'O' as u8, 'R' as u8),
            Operation::Rra => ('R' as u8, 'R' as u8, 'A' as u8),
            Operation::Rti => ('R' as u8, 'T' as u8, 'I' as u8),
            Operation::Rts => ('R' as u8, 'T' as u8, 'S' as u8),
            Operation::Sax => ('S' as u8, 'A' as u8, 'X' as u8),
            Operation::Sbc => ('S' as u8, 'B' as u8, 'C' as u8),
            Operation::Sbx => ('S' as u8, 'B' as u8, 'X' as u8),
            Operation::Sec => ('S' as u8, 'E' as u8, 'C' as u8),
            Operation::Sed => ('S' as u8, 'E' as u8, 'D' as u8),
            Operation::Sei => ('S' as u8, 'E' as u8, 'I' as u8),
            Operation::Sha => ('S' as u8, 'H' as u8, 'A' as u8),
            Operation::Shs => ('S' as u8, 'H' as u8, 'S' as u8),
            Operation::Shx => ('S' as u8, 'H' as u8, 'X' as u8),
            Operation::Shy => ('S' as u8, 'H' as u8, 'Y' as u8),
            Operation::Slo => ('S' as u8, 'L' as u8, 'O' as u8),
            Operation::Sre => ('S' as u8, 'R' as u8, 'E' as u8),
            Operation::Sta => ('S' as u8, 'T' as u8, 'A' as u8),
            Operation::Stx => ('S' as u8, 'T' as u8, 'X' as u8),
            Operation::Sty => ('S' as u8, 'T' as u8, 'Y' as u8),
            Operation::Tax => ('T' as u8, 'A' as u8, 'X' as u8),
            Operation::Tay => ('T' as u8, 'A' as u8, 'Y' as u8),
            Operation::Tsx => ('T' as u8, 'S' as u8, 'X' as u8),
            Operation::Txa => ('T' as u8, 'X' as u8, 'A' as u8),
            Operation::Txs => ('T' as u8, 'X' as u8, 'S' as u8),
            Operation::Tya => ('T' as u8, 'Y' as u8, 'A' as u8),
        }
    }
}

} // verus!
