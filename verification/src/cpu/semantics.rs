use vstd::prelude::*;
use crate::bus::{BusView, bus_read, bus_written};
use super::Cpu;
use super::enums::{AdressingMode, Flag, flag_bit};
use super::instructions::{Operation, instruction_table};

verus! {

pub open spec fn wadd16(a: u16, b: u16) -> u16 {
    vstd::wrapping::u16_specs::wrapping_add(a, b)
}

pub open spec fn wsub16(a: u16, b: u16) -> u16 {
    vstd::wrapping::u16_specs::wrapping_sub(a, b)
}

pub open spec fn wadd8(a: u8, b: u8) -> u8 {
    vstd::wrapping::u8_specs::wrapping_add(a, b)
}

pub open spec fn wsub8(a: u8, b: u8) -> u8 {
    vstd::wrapping::u8_specs::wrapping_sub(a, b)
}

/// The little-endian word of two bytes.
pub open spec fn word(lo: u8, hi: u8) -> u16 {
    (lo as u16 + hi as u16 * 256) as u16
}

/// Whether a flag is set in a status byte.
pub open spec fn flag_set(p: u8, f: Flag) -> bool {
    p & flag_bit(f) != 0
}

/// A status byte with a flag set or cleared.
pub open spec fn with_flag(p: u8, f: Flag, v: bool) -> u8 {
    if v { p | flag_bit(f) } else { p & !flag_bit(f) }
}

/// The zero and negative flags set from a result.
pub open spec fn zn(p: u8, v: u8) -> u8 {
    with_flag(with_flag(p, Flag::Zero, v == 0), Flag::Negative, v & 0x80 != 0)
}

pub open spec fn carry_in(p: u8) -> u8 {
    if flag_set(p, Flag::Carry) { 1 } else { 0 }
}

/// The byte of a sum (mod 256).
pub open spec fn low_byte(v: int) -> u8 {
    (v % 256) as u8
}

/// The CPU and bus after a push: the byte is written at the stack pointer,
/// which then moves down.
pub open spec fn pushed(c: Cpu, b: BusView, v: u8) -> (Cpu, BusView) {
    (Cpu { sp: wsub8(c.sp, 1), ..c }, bus_written(b, (0x100 + c.sp) as u16, v))
}

/// The CPU and bus after a pull, and the byte pulled: the stack pointer
/// moves up, then the byte under it is read.
pub open spec fn popped(c: Cpu, b: BusView) -> (Cpu, BusView, u8) {
    let sp = wadd8(c.sp, 1);
    let (b1, v) = bus_read(b, (0x100 + sp) as u16);
    (Cpu { sp, ..c }, b1, v)
}

/// A page crossed by indexed addressing: the dummy read of the unfixed
/// address, and a cycle more when the instruction pays for it.
pub open spec fn page_crossing(c: Cpu, b: BusView, base: u16, result: u16) -> (Cpu, BusView) {
    if result & 0xFF00 != base & 0xFF00 {
        let (b1, _) = bus_read(b, (base & 0xFF00) | (result & 0x00FF));
        (Cpu {
            cycles: if c.require_add_cycle { (c.cycles + 1) as u8 } else { c.cycles },
            page_crossed: true,
            ..c
        }, b1)
    } else {
        (c, b)
    }
}

/// The addressing: the CPU (program counter past the operand bytes), the
/// bus after the reads it makes, and the address of the operand.
#[verifier::opaque]
pub open spec fn fetched(c: Cpu, b: BusView, mode: AdressingMode) -> (Cpu, BusView, u16) {
    let c0 = Cpu { page_crossed: false, ..c };
    let pc1 = wadd16(c.pc, 1);
    let pc2 = wadd16(pc1, 1);
    match mode {
        AdressingMode::Implicit => (c0, b, 0),
        AdressingMode::Accumulator => (c0, b, c.a as u16),
        AdressingMode::Immediate => (Cpu { pc: pc1, ..c0 }, b, pc1),
        AdressingMode::Relative => (Cpu { pc: pc1, ..c0 }, b, pc1),
        AdressingMode::ZeroPage => {
            let (b1, z) = bus_read(b, pc1);
            (Cpu { pc: pc1, ..c0 }, b1, z as u16)
        },
        AdressingMode::ZeroPageX => {
            let (b1, z) = bus_read(b, pc1);
            (Cpu { pc: pc1, ..c0 }, b1, ((z as u16 + c.x as u16) % 0x100) as u16)
        },
        AdressingMode::ZeroPageY => {
            let (b1, z) = bus_read(b, pc1);
            let b2 = if (z as u16 + c.y as u16) >= 0x100 {
                bus_read(b1, ((z as u16) & 0xFF00) | (wadd16(z as u16, c.x as u16) & 0x00FF)).0
            } else {
                b1
            };
            (Cpu { pc: pc1, ..c0 }, b2, ((z as u16 + c.y as u16) % 0x100) as u16)
        },
        AdressingMode::Absolute => {
            let (b1, lo) = bus_read(b, pc1);
            let (b2, hi) = bus_read(b1, pc2);
            (Cpu { pc: pc2, ..c0 }, b2, word(lo, hi))
        },
        AdressingMode::AbsoluteX => {
            let (b1, lo) = bus_read(b, pc1);
            let (b2, hi) = bus_read(b1, pc2);
            let base = word(lo, hi);
            let result = wadd16(base, c.x as u16);
            let (c3, b3) = page_crossing(Cpu { pc: pc2, ..c0 }, b2, base, result);
            (c3, b3, result)
        },
        AdressingMode::AbsoluteY => {
            let (b1, lo) = bus_read(b, pc1);
            let (b2, hi) = bus_read(b1, pc2);
            let base = word(lo, hi);
            let result = wadd16(base, c.y as u16);
            let (c3, b3) = page_crossing(Cpu { pc: pc2, ..c0 }, b2, base, result);
            (c3, b3, result)
        },
        AdressingMode::Indirect => {
            let (b1, lo) = bus_read(b, pc1);
            let (b2, hi) = bus_read(b1, pc2);
            let ptr = word(lo, hi);
            let (b3, target_lo) = bus_read(b2, ptr);
            let (b4, target_hi) = bus_read(b3, if lo == 0xFF { ptr & 0xFF00 } else { (ptr + 1) as u16 });
            (Cpu { pc: pc2, ..c0 }, b4, word(target_lo, target_hi))
        },
        AdressingMode::IndirectX => {
            let (b1, z) = bus_read(b, pc1);
            let ptr_lo = ((z as u16 + c.x as u16) % 0x100) as u16;
            let ptr_hi = ((ptr_lo + 1) % 0x100) as u16;
            let (b2, lo) = bus_read(b1, ptr_lo);
            let (b3, hi) = bus_read(b2, ptr_hi);
            (Cpu { pc: pc1, ..c0 }, b3, word(lo, hi))
        },
        AdressingMode::IndirectY => {
            let (b1, z) = bus_read(b, pc1);
            let ptr_lo = z as u16;
            let ptr_hi = ((ptr_lo + 1) % 0x100) as u16;
            let (b2, lo) = bus_read(b1, ptr_lo);
            let (b3, hi) = bus_read(b2, ptr_hi);
            let base = word(lo, hi);
            let result = wadd16(base, c.y as u16);
            let (c4, b4) = page_crossing(Cpu { pc: pc1, ..c0 }, b3, base, result);
            (c4, b4, result)
        },
        AdressingMode::NoMode => (c0, b, 0),
    }
}

/// The addressing, then a read of the operand.
pub open spec fn operand(c: Cpu, b: BusView, mode: AdressingMode) -> (Cpu, BusView, u16, u8) {
    let (c1, b1, address) = fetched(c, b, mode);
    let (b2, data) = bus_read(b1, address);
    (c1, b2, address, data)
}

/// A + M + C: the sum's byte, then the flags C, Z, N and V.
pub open spec fn added(c: Cpu, m: u8, v_operand: u8) -> Cpu {
    let sum = c.a + m + carry_in(c.p);
    let r = low_byte(sum);
    let p = with_flag(zn(with_flag(c.p, Flag::Carry, sum > 255), r), Flag::Overflow,
        (c.a ^ v_operand) & 0x80 == 0 && (c.a ^ r) & 0x80 == 0x80);
    Cpu { a: r, p, ..c }
}

/// A - M - (1 - C), computed as A + !M + C: the flags C, Z, N and V.
pub open spec fn subtracted(c: Cpu, m: u8) -> Cpu {
    let sum = c.a + (m ^ 0xFF) + carry_in(c.p);
    let r = low_byte(sum);
    let p = with_flag(zn(with_flag(c.p, Flag::Carry, sum > 255), r), Flag::Overflow,
        (c.a ^ m) & (c.a ^ r) & 0x80 == 0x80);
    Cpu { a: r, p, ..c }
}

/// A comparison of a register with M: the flags Z, C and N.
pub open spec fn compared(p: u8, reg: u8, m: u8) -> u8 {
    let d = wsub8(reg, m);
    with_flag(with_flag(with_flag(p, Flag::Zero, d == 0), Flag::Carry, reg >= m), Flag::Negative, d & 0x80 != 0)
}

/// The PC after a relative branch of offset `d` (a signed byte).
pub open spec fn branch_target(pc: u16, d: u8) -> u16 {
    if d < 128 { wadd16(pc, d as u16) } else { wadd16(pc, (d as u16 + 0xFF00) as u16) }
}

/// A branch: when taken, the offset is read, a cycle is spent, and one more
/// when the target lands on another page than the next instruction.
#[verifier::opaque]
pub open spec fn branched(c: Cpu, b: BusView, taken: bool) -> (Cpu, BusView) {
    let (c1, b1, address) = fetched(c, b, AdressingMode::Relative);
    if taken {
        let (b2, d) = bus_read(b1, address);
        let target = branch_target(c1.pc, d);
        let reference = wadd16(c1.pc, 1) & 0xFF00;
        let extra: u8 = if wadd16(target, 1) & 0xFF00 != reference { 2 } else { 1 };
        (Cpu { pc: target, cycles: (c1.cycles + extra) as u8, ..c1 }, b2)
    } else {
        (c1, b1)
    }
}

/// An interrupt through the vector at `vector`: PC and status are pushed,
/// interrupts disabled, and the handler's address loaded; it takes 7 cycles.
pub open spec fn interrupted(c: Cpu, b: BusView, vector: u16) -> (Cpu, BusView) {
    let (c1, b1) = pushed(c, b, (c.pc >> 8u16) as u8);
    let (c2, b2) = pushed(c1, b1, (c.pc & 0x00FF) as u8);
    let (c3, b3) = pushed(c2, b2, c.p);
    let p = with_flag(c3.p, Flag::InterruptDisable, true);
    let (b4, lo) = bus_read(b3, vector);
    let (b5, hi) = bus_read(b4, (vector + 1) as u16);
    (Cpu { p, pc: word(lo, hi), cycles: 7, ..c3 }, b5)
}

/// The non-maskable interrupt (vector $FFFA).
#[verifier::opaque]
pub open spec fn nmi_taken(c: Cpu, b: BusView) -> (Cpu, BusView) {
    interrupted(c, b, 0xFFFA)
}

/// The interrupt request (vector $FFFE), ignored while interrupts are
/// disabled.
#[verifier::opaque]
pub open spec fn irq_taken(c: Cpu, b: BusView) -> (Cpu, BusView) {
    if flag_set(c.p, Flag::InterruptDisable) { (c, b) } else { interrupted(c, b, 0xFFFE) }
}

/// The reset: the stack pointer moves down by 3 without writes,
/// interrupts are disabled and the reset vector ($FFFC) loaded.
#[verifier::opaque]
pub open spec fn reset_taken(c: Cpu, b: BusView) -> (Cpu, BusView) {
    let sp = wsub8(c.sp, 3);
    let p = with_flag(c.p, Flag::InterruptDisable, true);
    let (b1, lo) = bus_read(b, 0xFFFC);
    let (b2, hi) = bus_read(b1, 0xFFFD);
    (Cpu { sp, p, pc: word(lo, hi), cycles: 7, ..c }, b2)
}

/// The status register pulled by PLP and RTI: every flag but B from the
/// byte, and the unused bit set.
pub open spec fn pulled_status(p: u8, s: u8) -> u8 {
    let p1 = with_flag(p, Flag::Carry, flag_set(s, Flag::Carry));
    let p2 = with_flag(p1, Flag::Zero, flag_set(s, Flag::Zero));
    let p3 = with_flag(p2, Flag::InterruptDisable, flag_set(s, Flag::InterruptDisable));
    let p4 = with_flag(p3, Flag::Decimal, flag_set(s, Flag::Decimal));
    let p5 = with_flag(p4, Flag::Unused, true);
    let p6 = with_flag(p5, Flag::Overflow, flag_set(s, Flag::Overflow));
    with_flag(p6, Flag::Negative, flag_set(s, Flag::Negative))
}

/// The byte that a shift or rotate acts on: A in accumulator mode, else M.
pub open spec fn shift_source(c: Cpu, mode: AdressingMode, m: u8) -> u8 {
    if mode == AdressingMode::Accumulator { c.a } else { m }
}

/// A shift or rotate stores its result in A (accumulator mode) or back at
/// the operand's address.
pub open spec fn shift_stored(c: Cpu, b: BusView, mode: AdressingMode, address: u16, r: u8, p: u8) -> (Cpu, BusView) {
    if mode == AdressingMode::Accumulator {
        (Cpu { a: r, p, ..c }, b)
    } else {
        (Cpu { p, ..c }, bus_written(b, address, r))
    }
}

/// The high byte of an address, plus one (the SHA, SHS, SHX and SHY mask).
pub open spec fn high_plus_one(address: u16) -> u8 {
    (((address & 0xFF00) >> 8u16) + 1) as u8
}

#[verifier::opaque]
pub open spec fn op_adc(c: Cpu, b: BusView, mode: AdressingMode) -> (Cpu, BusView) {
    let (c1, b1, _, m) = operand(c, b, mode);
    (added(c1, m, m), b1)
}

#[verifier::opaque]
pub open spec fn op_and(c: Cpu, b: BusView, mode: AdressingMode) -> (Cpu, BusView) {
    let (c1, b1, _, m) = operand(c, b, mode);
    (Cpu { a: c1.a & m, p: zn(c1.p, c1.a & m), ..c1 }, b1)
}

#[verifier::opaque]
pub open spec fn op_asl(c: Cpu, b: BusView, mode: AdressingMode) -> (Cpu, BusView) {
    let (c1, b1, address, m) = operand(c, b, mode);
    let s = shift_source(c1, mode, m);
    let r = s << 1u8;
    shift_stored(c1, b1, mode, address, r, zn(with_flag(c1.p, Flag::Carry, s & 0x80 != 0), r))
}

#[verifier::opaque]
pub open spec fn op_bcc(c: Cpu, b: BusView, mode: AdressingMode) -> (Cpu, BusView) {
    branched(c, b, !flag_set(c.p, Flag::Carry))
}

#[verifier::opaque]
pub open spec fn op_bcs(c: Cpu, b: BusView, mode: AdressingMode) -> (Cpu, BusView) {
    branched(c, b, flag_set(c.p, Flag::Carry))
}

#[verifier::opaque]
pub open spec fn op_beq(c: Cpu, b: BusView, mode: AdressingMode) -> (Cpu, BusView) {
    branched(c, b, flag_set(c.p, Flag::Zero))
}

#[verifier::opaque]
pub open spec fn op_bmi(c: Cpu, b: BusView, mode: AdressingMode) -> (Cpu, BusView) {
    branched(c, b, flag_set(c.p, Flag::Negative))
}

#[verifier::opaque]
pub open spec fn op_bne(c: Cpu, b: BusView, mode: AdressingMode) -> (Cpu, BusView) {
    branched(c, b, !flag_set(c.p, Flag::Zero))
}

#[verifier::opaque]
pub open spec fn op_bpl(c: Cpu, b: BusView, mode: AdressingMode) -> (Cpu, BusView) {
    branched(c, b, !flag_set(c.p, Flag::Negative))
}

#[verifier::opaque]
pub open spec fn op_bvc(c: Cpu, b: BusView, mode: AdressingMode) -> (Cpu, BusView) {
    branched(c, b, !flag_set(c.p, Flag::Overflow))
}

#[verifier::opaque]
pub open spec fn op_bvs(c: Cpu, b: BusView, mode: AdressingMode) -> (Cpu, BusView) {
    branched(c, b, flag_set(c.p, Flag::Overflow))
}

#[verifier::opaque]
pub open spec fn op_bit(c: Cpu, b: BusView, mode: AdressingMode) -> (Cpu, BusView) {
    let (c1, b1, _, m) = operand(c, b, mode);
    let p = with_flag(with_flag(with_flag(c1.p, Flag::Zero, c1.a & m == 0), Flag::Negative, m & 0x80 != 0),
        Flag::Overflow, m & 0x40 != 0);
    (Cpu { p, ..c1 }, b1)
}

#[verifier::opaque]
pub open spec fn op_brk(c: Cpu, b: BusView, mode: AdressingMode) -> (Cpu, BusView) {
    let p = with_flag(with_flag(c.p, Flag::Break, true), Flag::Unused, true);
    irq_taken(Cpu { pc: wadd16(c.pc, 1), p, ..c }, b)
}

#[verifier::opaque]
pub open spec fn op_clc(c: Cpu, b: BusView, mode: AdressingMode) -> (Cpu, BusView) {
    (Cpu { p: with_flag(c.p, Flag::Carry, false), ..c }, b)
}

#[verifier::opaque]
pub open spec fn op_cld(c: Cpu, b: BusView, mode: AdressingMode) -> (Cpu, BusView) {
    (Cpu { p: with_flag(c.p, Flag::Decimal, false), ..c }, b)
}

#[verifier::opaque]
pub open spec fn op_cli(c: Cpu, b: BusView, mode: AdressingMode) -> (Cpu, BusView) {
    (Cpu { p: with_flag(c.p, Flag::InterruptDisable, false), ..c }, b)
}

#[verifier::opaque]
pub open spec fn op_clv(c: Cpu, b: BusView, mode: AdressingMode) -> (Cpu, BusView) {
    (Cpu { p: with_flag(c.p, Flag::Overflow, false), ..c }, b)
}

#[verifier::opaque]
pub open spec fn op_sec(c: Cpu, b: BusView, mode: AdressingMode) -> (Cpu, BusView) {
    (Cpu { p: with_flag(c.p, Flag::Carry, true), ..c }, b)
}

#[verifier::opaque]
pub open spec fn op_sed(c: Cpu, b: BusView, mode: AdressingMode) -> (Cpu, BusView) {
    (Cpu { p: with_flag(c.p, Flag::Decimal, true), ..c }, b)
}

#[verifier::opaque]
pub open spec fn op_sei(c: Cpu, b: BusView, mode: AdressingMode) -> (Cpu, BusView) {
    (Cpu { p: with_flag(c.p, Flag::InterruptDisable, true), ..c }, b)
}

#[verifier::opaque]
pub open spec fn op_cmp(c: Cpu, b: BusView, mode: AdressingMode) -> (Cpu, BusView) {
    let (c1, b1, _, m) = operand(c, b, mode);
    (Cpu { p: compared(c1.p, c1.a, m), ..c1 }, b1)
}

#[verifier::opaque]
pub open spec fn op_cpx(c: Cpu, b: BusView, mode: AdressingMode) -> (Cpu, BusView) {
    let (c1, b1, _, m) = operand(c, b, mode);
    (Cpu { p: compared(c1.p, c1.x, m), ..c1 }, b1)
}

#[verifier::opaque]
pub open spec fn op_cpy(c: Cpu, b: BusView, mode: AdressingMode) -> (Cpu, BusView) {
    let (c1, b1, _, m) = operand(c, b, mode);
    (Cpu { p: compared(c1.p, c1.y, m), ..c1 }, b1)
}

#[verifier::opaque]
pub open spec fn op_dec(c: Cpu, b: BusView, mode: AdressingMode) -> (Cpu, BusView) {
    let (c1, b1, address, m) = operand(c, b, mode);
    let r = wsub8(m, 1);
    (Cpu { p: zn(c1.p, r), ..c1 }, bus_written(b1, address, r))
}

#[verifier::opaque]
pub open spec fn op_inc(c: Cpu, b: BusView, mode: AdressingMode) -> (Cpu, BusView) {
    let (c1, b1, address, m) = operand(c, b, mode);
    let r = wadd8(m, 1);
    (Cpu { p: zn(c1.p, r), ..c1 }, bus_written(b1, address, r))
}

#[verifier::opaque]
pub open spec fn op_dex(c: Cpu, b: BusView, mode: AdressingMode) -> (Cpu, BusView) {
    (Cpu { x: wsub8(c.x, 1), p: zn(c.p, wsub8(c.x, 1)), ..c }, b)
}

#[verifier::opaque]
pub open spec fn op_dey(c: Cpu, b: BusView, mode: AdressingMode) -> (Cpu, BusView) {
    (Cpu { y: wsub8(c.y, 1), p: zn(c.p, wsub8(c.y, 1)), ..c }, b)
}

#[verifier::opaque]
pub open spec fn op_inx(c: Cpu, b: BusView, mode: AdressingMode) -> (Cpu, BusView) {
    (Cpu { x: wadd8(c.x, 1), p: zn(c.p, wadd8(c.x, 1)), ..c }, b)
}

#[verifier::opaque]
pub open spec fn op_iny(c: Cpu, b: BusView, mode: AdressingMode) -> (Cpu, BusView) {
    (Cpu { y: wadd8(c.y, 1), p: zn(c.p, wadd8(c.y, 1)), ..c }, b)
}

#[verifier::opaque]
pub open spec fn op_eor(c: Cpu, b: BusView, mode: AdressingMode) -> (Cpu, BusView) {
    let (c1, b1, _, m) = operand(c, b, mode);
    (Cpu { a: c1.a ^ m, p: zn(c1.p, c1.a ^ m), ..c1 }, b1)
}

#[verifier::opaque]
pub open spec fn op_ora(c: Cpu, b: BusView, mode: AdressingMode) -> (Cpu, BusView) {
    let (c1, b1, _, m) = operand(c, b, mode);
    (Cpu { a: c1.a | m, p: zn(c1.p, c1.a | m), ..c1 }, b1)
}

#[verifier::opaque]
pub open spec fn op_jmp(c: Cpu, b: BusView, mode: AdressingMode) -> (Cpu, BusView) {
    let (c1, b1, address) = fetched(c, b, mode);
    (Cpu { pc: wsub16(address, 1), ..c1 }, b1)
}

#[verifier::opaque]
pub open spec fn op_jsr(c: Cpu, b: BusView, mode: AdressingMode) -> (Cpu, BusView) {
    let (c1, b1, address) = fetched(c, b, mode);
    let (c2, b2) = pushed(c1, b1, (c1.pc >> 8u16) as u8);
    let (c3, b3) = pushed(c2, b2, (c1.pc % 256) as u8);
    (Cpu { pc: wsub16(address, 1), ..c3 }, b3)
}

#[verifier::opaque]
pub open spec fn op_lda(c: Cpu, b: BusView, mode: AdressingMode) -> (Cpu, BusView) {
    let (c1, b1, _, m) = operand(c, b, mode);
    (Cpu { a: m, p: zn(c1.p, m), ..c1 }, b1)
}

#[verifier::opaque]
pub open spec fn op_ldx(c: Cpu, b: BusView, mode: AdressingMode) -> (Cpu, BusView) {
    let (c1, b1, _, m) = operand(c, b, mode);
    (Cpu { x: m, p: zn(c1.p, m), ..c1 }, b1)
}

#[verifier::opaque]
pub open spec fn op_ldy(c: Cpu, b: BusView, mode: AdressingMode) -> (Cpu, BusView) {
    let (c1, b1, _, m) = operand(c, b, mode);
    (Cpu { y: m, p: zn(c1.p, m), ..c1 }, b1)
}

#[verifier::opaque]
pub open spec fn op_lsr(c: Cpu, b: BusView, mode: AdressingMode) -> (Cpu, BusView) {
    let (c1, b1, address, m) = operand(c, b, mode);
    let s = shift_source(c1, mode, m);
    let r = s >> 1u8;
    shift_stored(c1, b1, mode, address, r, zn(with_flag(c1.p, Flag::Carry, s & 0x01 != 0), r))
}

#[verifier::opaque]
pub open spec fn op_nop(c: Cpu, b: BusView, mode: AdressingMode) -> (Cpu, BusView) {
    let (c1, b1, _) = fetched(c, b, mode);
    (c1, b1)
}

#[verifier::opaque]
pub open spec fn op_pha(c: Cpu, b: BusView, mode: AdressingMode) -> (Cpu, BusView) {
    pushed(c, b, c.a)
}

#[verifier::opaque]
pub open spec fn op_php(c: Cpu, b: BusView, mode: AdressingMode) -> (Cpu, BusView) {
    pushed(c, b, c.p | flag_bit(Flag::Break) | flag_bit(Flag::Unused))
}

#[verifier::opaque]
pub open spec fn op_pla(c: Cpu, b: BusView, mode: AdressingMode) -> (Cpu, BusView) {
    let (c1, b1, v) = popped(c, b);
    (Cpu { a: v, p: zn(c1.p, v), ..c1 }, b1)
}

#[verifier::opaque]
pub open spec fn op_plp(c: Cpu, b: BusView, mode: AdressingMode) -> (Cpu, BusView) {
    let (c1, b1, s) = popped(c, b);
    (Cpu { p: pulled_status(c1.p, s), ..c1 }, b1)
}

#[verifier::opaque]
pub open spec fn op_rol(c: Cpu, b: BusView, mode: AdressingMode) -> (Cpu, BusView) {
    let (c1, b1, address, m) = operand(c, b, mode);
    let s = shift_source(c1, mode, m);
    let r = ((s << 1u8) + carry_in(c1.p)) as u8;
    shift_stored(c1, b1, mode, address, r, zn(with_flag(c1.p, Flag::Carry, s & 0x80 != 0), r))
}

#[verifier::opaque]
pub open spec fn op_ror(c: Cpu, b: BusView, mode: AdressingMode) -> (Cpu, BusView) {
    let (c1, b1, address, m) = operand(c, b, mode);
    let s = shift_source(c1, mode, m);
    let r = ((s >> 1u8) + carry_in(c1.p) * 0x80) as u8;
    shift_stored(c1, b1, mode, address, r, zn(with_flag(c1.p, Flag::Carry, s & 0x01 != 0), r))
}

#[verifier::opaque]
pub open spec fn op_rti(c: Cpu, b: BusView, mode: AdressingMode) -> (Cpu, BusView) {
    let (c1, b1, s) = popped(c, b);
    let c2 = Cpu { p: pulled_status(c1.p, s), ..c1 };
    let (c3, b3, lo) = popped(c2, b1);
    let (c4, b4, hi) = popped(c3, b3);
    (Cpu { pc: wsub16(word(lo, hi), 1), ..c4 }, b4)
}

#[verifier::opaque]
pub open spec fn op_rts(c: Cpu, b: BusView, mode: AdressingMode) -> (Cpu, BusView) {
    let (c1, b1, lo) = popped(c, b);
    let (c2, b2, hi) = popped(c1, b1);
    (Cpu { pc: word(lo, hi), ..c2 }, b2)
}

#[verifier::opaque]
pub open spec fn op_sbc(c: Cpu, b: BusView, mode: AdressingMode) -> (Cpu, BusView) {
    let (c1, b1, _, m) = operand(c, b, mode);
    (subtracted(c1, m), b1)
}

#[verifier::opaque]
pub open spec fn op_sta(c: Cpu, b: BusView, mode: AdressingMode) -> (Cpu, BusView) {
    let (c1, b1, address) = fetched(c, b, mode);
    (c1, bus_written(b1, address, c1.a))
}

#[verifier::opaque]
pub open spec fn op_stx(c: Cpu, b: BusView, mode: AdressingMode) -> (Cpu, BusView) {
    let (c1, b1, address) = fetched(c, b, mode);
    (c1, bus_written(b1, address, c1.x))
}

#[verifier::opaque]
pub open spec fn op_sty(c: Cpu, b: BusView, mode: AdressingMode) -> (Cpu, BusView) {
    let (c1, b1, address) = fetched(c, b, mode);
    (c1, bus_written(b1, address, c1.y))
}

#[verifier::opaque]
pub open spec fn op_tax(c: Cpu, b: BusView, mode: AdressingMode) -> (Cpu, BusView) {
    (Cpu { x: c.a, p: zn(c.p, c.a), ..c }, b)
}

#[verifier::opaque]
pub open spec fn op_tay(c: Cpu, b: BusView, mode: AdressingMode) -> (Cpu, BusView) {
    (Cpu { y: c.a, p: zn(c.p, c.a), ..c }, b)
}

#[verifier::opaque]
pub open spec fn op_tsx(c: Cpu, b: BusView, mode: AdressingMode) -> (Cpu, BusView) {
    (Cpu { x: c.sp, p: zn(c.p, c.sp), ..c }, b)
}

#[verifier::opaque]
pub open spec fn op_txa(c: Cpu, b: BusView, mode: AdressingMode) -> (Cpu, BusView) {
    (Cpu { a: c.x, p: zn(c.p, c.x), ..c }, b)
}

#[verifier::opaque]
pub open spec fn op_txs(c: Cpu, b: BusView, mode: AdressingMode) -> (Cpu, BusView) {
    (Cpu { sp: c.x, ..c }, b)
}

#[verifier::opaque]
pub open spec fn op_tya(c: Cpu, b: BusView, mode: AdressingMode) -> (Cpu, BusView) {
    (Cpu { a: c.y, p: zn(c.p, c.y), ..c }, b)
}

#[verifier::opaque]
pub open spec fn op_anc(c: Cpu, b: BusView, mode: AdressingMode) -> (Cpu, BusView) {
    let (c1, b1, _, m) = operand(c, b, mode);
    let a = c1.a & m;
    (Cpu { a, p: with_flag(zn(c1.p, a), Flag::Carry, a & 0x80 != 0), ..c1 }, b1)
}

#[verifier::opaque]
pub open spec fn op_ane(c: Cpu, b: BusView, mode: AdressingMode) -> (Cpu, BusView) {
    let (c1, b1, _, m) = operand(Cpu { a: c.x, ..c }, b, mode);
    let a = c1.a & m;
    (Cpu { a, p: zn(c1.p, a), ..c1 }, b1)
}

#[verifier::opaque]
pub open spec fn op_arr(c: Cpu, b: BusView, mode: AdressingMode) -> (Cpu, BusView) {
    let (c1, b1, _, m) = operand(c, b, mode);
    let a = (((c1.a & m) >> 1u8) + (carry_in(c1.p) << 7u8)) as u8;
    let p = with_flag(with_flag(zn(c1.p, a), Flag::Carry, a & 0x40 != 0), Flag::Overflow,
        (a & 0x20 != 0) != (a & 0x40 != 0));
    (Cpu { a, p, ..c1 }, b1)
}

#[verifier::opaque]
pub open spec fn op_asr(c: Cpu, b: BusView, mode: AdressingMode) -> (Cpu, BusView) {
    let (c1, b1, _, m) = operand(c, b, mode);
    let t = c1.a & m;
    let a = t >> 1u8;
    (Cpu { a, p: zn(with_flag(c1.p, Flag::Carry, t & 0x01 != 0), a), ..c1 }, b1)
}

#[verifier::opaque]
pub open spec fn op_dcp(c: Cpu, b: BusView, mode: AdressingMode) -> (Cpu, BusView) {
    let (c1, b1, address, m) = operand(c, b, mode);
    let r = wsub8(m, 1);
    (Cpu { p: compared(c1.p, c1.a, r), ..c1 }, bus_written(b1, address, r))
}

#[verifier::opaque]
pub open spec fn op_isb(c: Cpu, b: BusView, mode: AdressingMode) -> (Cpu, BusView) {
    let (c1, b1, address, m) = operand(c, b, mode);
    let r = wadd8(m, 1);
    (subtracted(c1, r), bus_written(b1, address, r))
}

#[verifier::opaque]
pub open spec fn op_las(c: Cpu, b: BusView, mode: AdressingMode) -> (Cpu, BusView) {
    let (c1, b1, _, m) = operand(c, b, mode);
    let t = c1.sp & m;
    (Cpu { sp: t, a: t, x: t, p: zn(c1.p, t), ..c1 }, b1)
}

#[verifier::opaque]
pub open spec fn op_lax(c: Cpu, b: BusView, mode: AdressingMode) -> (Cpu, BusView) {
    let (c1, b1, _, m) = operand(c, b, mode);
    (Cpu { a: m, x: m, p: zn(c1.p, m), ..c1 }, b1)
}

#[verifier::opaque]
pub open spec fn op_lxa(c: Cpu, b: BusView, mode: AdressingMode) -> (Cpu, BusView) {
    let (c1, b1, _, m) = operand(c, b, mode);
    let v = (c1.a | 0xEE) & m;
    (Cpu { a: v, x: v, p: zn(c1.p, v), ..c1 }, b1)
}

#[verifier::opaque]
pub open spec fn op_rla(c: Cpu, b: BusView, mode: AdressingMode) -> (Cpu, BusView) {
    let (c1, b1, address, m) = operand(c, b, mode);
    let r = ((m << 1u8) + carry_in(c1.p)) as u8;
    let a = c1.a & r;
    (Cpu { a, p: zn(with_flag(c1.p, Flag::Carry, m & 0x80 != 0), a), ..c1 }, bus_written(b1, address, r))
}

#[verifier::opaque]
pub open spec fn op_rra(c: Cpu, b: BusView, mode: AdressingMode) -> (Cpu, BusView) {
    let (c1, b1, address, m) = operand(c, b, mode);
    let r = ((m >> 1u8) + (carry_in(c1.p) << 7u8)) as u8;
    let c2 = Cpu { p: with_flag(c1.p, Flag::Carry, m & 0x01 != 0), ..c1 };
    (added(c2, r, r), bus_written(b1, address, r))
}

#[verifier::opaque]
pub open spec fn op_sax(c: Cpu, b: BusView, mode: AdressingMode) -> (Cpu, BusView) {
    let (c1, b1, address) = fetched(c, b, mode);
    (c1, bus_written(b1, address, c1.a & c1.x))
}

#[verifier::opaque]
pub open spec fn op_sbx(c: Cpu, b: BusView, mode: AdressingMode) -> (Cpu, BusView) {
    let (c1, b1, _, m) = operand(c, b, mode);
    let t = c1.x & c1.a;
    let x = wsub8(t, m);
    (Cpu { x, p: compared(c1.p, t, m), ..c1 }, b1)
}

#[verifier::opaque]
pub open spec fn op_sha(c: Cpu, b: BusView, mode: AdressingMode) -> (Cpu, BusView) {
    let (c1, b1, address) = fetched(c, b, mode);
    (c1, bus_written(b1, address, c1.a & c1.x & high_plus_one(address)))
}

#[verifier::opaque]
pub open spec fn op_shs(c: Cpu, b: BusView, mode: AdressingMode) -> (Cpu, BusView) {
    let (c1, b1, address) = fetched(c, b, mode);
    (Cpu { sp: c1.a & c1.x, ..c1 }, bus_written(b1, address, c1.a & c1.x & high_plus_one(address)))
}

#[verifier::opaque]
pub open spec fn op_shx(c: Cpu, b: BusView, mode: AdressingMode) -> (Cpu, BusView) {
    let (c1, b1, address) = fetched(c, b, mode);
    let r = c1.x & high_plus_one(address);
    let target = if c1.page_crossed { ((address & 0x00FF) + (r as u16) * 256) as u16 } else { address };
    (c1, bus_written(b1, target, r))
}

#[verifier::opaque]
pub open spec fn op_shy(c: Cpu, b: BusView, mode: AdressingMode) -> (Cpu, BusView) {
    let (c1, b1, address) = fetched(c, b, mode);
    let r = c1.y & high_plus_one(address);
    let target = if c1.page_crossed { ((address & 0x00FF) + (r as u16) * 256) as u16 } else { address };
    (c1, bus_written(b1, target, r))
}

#[verifier::opaque]
pub open spec fn op_slo(c: Cpu, b: BusView, mode: AdressingMode) -> (Cpu, BusView) {
    let (c1, b1, address, m) = operand(c, b, mode);
    let r = m << 1u8;
    let a = c1.a | r;
    (Cpu { a, p: zn(with_flag(c1.p, Flag::Carry, m & 0x80 != 0), a), ..c1 }, bus_written(b1, address, r))
}

#[verifier::opaque]
pub open spec fn op_sre(c: Cpu, b: BusView, mode: AdressingMode) -> (Cpu, BusView) {
    let (c1, b1, address, m) = operand(c, b, mode);
    let r = m >> 1u8;
    let a = c1.a ^ r;
    (Cpu { a, p: zn(with_flag(c1.p, Flag::Carry, m & 0x01 != 0), a), ..c1 }, bus_written(b1, address, r))
}

/// A JAM opcode stops the processor: PC stays on it. `Cpu::clock` is never
/// asked to run one; its callers test for it first.
#[verifier::opaque]
pub open spec fn op_jam(c: Cpu, b: BusView, mode: AdressingMode) -> (Cpu, BusView) {
    (Cpu { pc: wsub16(c.pc, 1), ..c }, b)
}

/// What an operation does to the CPU and the bus.
pub open spec fn executed(c: Cpu, b: BusView, op: Operation, mode: AdressingMode) -> (Cpu, BusView) {
    match op {
        Operation::Adc => op_adc(c, b, mode),
        Operation::And => op_and(c, b, mode),
        Operation::Asl => op_asl(c, b, mode),
        Operation::Bcc => op_bcc(c, b, mode),
        Operation::Bcs => op_bcs(c, b, mode),
        Operation::Beq => op_beq(c, b, mode),
        Operation::Bmi => op_bmi(c, b, mode),
        Operation::Bne => op_bne(c, b, mode),
        Operation::Bpl => op_bpl(c, b, mode),
        Operation::Bvc => op_bvc(c, b, mode),
        Operation::Bvs => op_bvs(c, b, mode),
        Operation::Bit => op_bit(c, b, mode),
        Operation::Brk => op_brk(c, b, mode),
        Operation::Clc => op_clc(c, b, mode),
        Operation::Cld => op_cld(c, b, mode),
        Operation::Cli => op_cli(c, b, mode),
        Operation::Clv => op_clv(c, b, mode),
        Operation::Sec => op_sec(c, b, mode),
        Operation::Sed => op_sed(c, b, mode),
        Operation::Sei => op_sei(c, b, mode),
        Operation::Cmp => op_cmp(c, b, mode),
        Operation::Cpx => op_cpx(c, b, mode),
        Operation::Cpy => op_cpy(c, b, mode),
        Operation::Dec => op_dec(c, b, mode),
        Operation::Inc => op_inc(c, b, mode),
        Operation::Dex => op_dex(c, b, mode),
        Operation::Dey => op_dey(c, b, mode),
        Operation::Inx => op_inx(c, b, mode),
        Operation::Iny => op_iny(c, b, mode),
        Operation::Eor => op_eor(c, b, mode),
        Operation::Ora => op_ora(c, b, mode),
        Operation::Jmp => op_jmp(c, b, mode),
        Operation::Jsr => op_jsr(c, b, mode),
        Operation::Lda => op_lda(c, b, mode),
        Operation::Ldx => op_ldx(c, b, mode),
        Operation::Ldy => op_ldy(c, b, mode),
        Operation::Lsr => op_lsr(c, b, mode),
        Operation::Nop => op_nop(c, b, mode),
        Operation::Pha => op_pha(c, b, mode),
        Operation::Php => op_php(c, b, mode),
        Operation::Pla => op_pla(c, b, mode),
        Operation::Plp => op_plp(c, b, mode),
        Operation::Rol => op_rol(c, b, mode),
        Operation::Ror => op_ror(c, b, mode),
        Operation::Rti => op_rti(c, b, mode),
        Operation::Rts => op_rts(c, b, mode),
        Operation::Sbc => op_sbc(c, b, mode),
        Operation::Sta => op_sta(c, b, mode),
        Operation::Stx => op_stx(c, b, mode),
        Operation::Sty => op_sty(c, b, mode),
        Operation::Tax => op_tax(c, b, mode),
        Operation::Tay => op_tay(c, b, mode),
        Operation::Tsx => op_tsx(c, b, mode),
        Operation::Txa => op_txa(c, b, mode),
        Operation::Txs => op_txs(c, b, mode),
        Operation::Tya => op_tya(c, b, mode),
        Operation::Anc => op_anc(c, b, mode),
        Operation::Ane => op_ane(c, b, mode),
        Operation::Arr => op_arr(c, b, mode),
        Operation::Asr => op_asr(c, b, mode),
        Operation::Dcp => op_dcp(c, b, mode),
        Operation::Isb => op_isb(c, b, mode),
        Operation::Las => op_las(c, b, mode),
        Operation::Lax => op_lax(c, b, mode),
        Operation::Lxa => op_lxa(c, b, mode),
        Operation::Rla => op_rla(c, b, mode),
        Operation::Rra => op_rra(c, b, mode),
        Operation::Sax => op_sax(c, b, mode),
        Operation::Sbx => op_sbx(c, b, mode),
        Operation::Sha => op_sha(c, b, mode),
        Operation::Shs => op_shs(c, b, mode),
        Operation::Shx => op_shx(c, b, mode),
        Operation::Shy => op_shy(c, b, mode),
        Operation::Slo => op_slo(c, b, mode),
        Operation::Sre => op_sre(c, b, mode),
        Operation::Jam => op_jam(c, b, mode),
    }
}

/// One CPU clock: with no cycle left to wait, the opcode at PC is read and
/// its instruction executed, PC moves past it and the instruction's cycles
/// (less this one) are left to wait; otherwise one cycle of waiting passes.
#[verifier::opaque]
pub open spec fn cpu_clocked(c: Cpu, b: BusView) -> (Cpu, BusView) {
    let total = vstd::wrapping::u64_specs::wrapping_add(c.total_clock, 1);
    if c.cycles == 0 {
        let (b1, opcode) = bus_read(b, c.pc);
        let i = instruction_table(opcode);
        let (c2, b2) = executed(Cpu { require_add_cycle: i.add_cycle, ..c }, b1, i.operation, i.adressing_mode);
        (Cpu {
            pc: wadd16(c2.pc, 1),
            cycles: (c2.cycles + i.cycles - 1) as u8,
            total_clock: vstd::wrapping::u64_specs::wrapping_add(c2.total_clock, 1),
            ..c2
        }, b2)
    } else {
        (Cpu { cycles: (c.cycles - 1) as u8, total_clock: total, ..c }, b)
    }
}

} // verus!
