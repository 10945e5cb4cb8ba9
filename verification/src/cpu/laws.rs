//! What single instructions do to the registers, the flags and memory,
//! stated over the bits of the status byte: C is bit 0, Z bit 1, I bit 2,
//! D bit 3, B bit 4, V bit 6 and N bit 7.

use vstd::prelude::*;
use crate::bus::BusView;
use super::Cpu;
use super::enums::{AdressingMode, Flag};
use super::semantics::{
    added, fetched, operand, op_adc, op_and, op_asl, op_eor, op_lda, op_ldx, op_ldy, op_lsr, op_ora, op_rol,
    op_ror, op_sbc, op_tax, op_tay, op_tsx, op_txa, op_txs, op_tya, op_inx, op_iny, op_dex, op_dey,
    page_crossing, subtracted, with_flag, zn, op_bcc, op_bcs, op_beq, op_bmi, op_bne, op_bpl, op_bvc, op_bvs,
    branched, op_cmp, op_cpx, op_cpy, op_inc, op_dec, compared, pushed, popped, nmi_taken, irq_taken, reset_taken,
    op_pha, op_php, op_pla, op_plp, op_jsr, op_rts, pulled_status,
};
use crate::bus::{bus_read, bus_written};
use crate::cartridge::cartridge::{CartridgeView, cart_prg_read};
use crate::bits::{bitset, lemma_bitset, lemma_byte_values, lemma_word_values};

verus! {

/// Z and N of a status byte `p` tell whether `r` is zero and negative.
pub open spec fn zn_of(p: u8, r: u8) -> bool {
    &&& (p & 0x02 == 0x02) == (r == 0)
    &&& (p & 0x80 == 0x80) == (r & 0x80 == 0x80)
}

/// The Z and N flags set from a result, the other bits kept.
proof fn lemma_zn(p: u8, r: u8)
    ensures
        zn_of(zn(p, r), r),
        zn(p, r) & 0x7D == p & 0x7D,
        zn(p, r) & 0x7C == p & 0x7C,
        zn(p, r) & 0x3C == p & 0x3C,
        zn(p, r) & 0x01 == p & 0x01,
        zn(p, r) & 0x40 == p & 0x40,
{
    lemma_bitset();
    lemma_byte_values();
    let p1 = bitset(p, 0x02, r == 0);
    let p2 = bitset(p1, 0x80, r & 0x80 != 0);
    assert(zn(p, r) == p2);
    assert(p2 & 0x02 == p1 & 0x02);
    assert(p1 & 0x02 == 0x02 <==> r == 0);
    assert(p2 & 0x80 == 0x80 <==> r & 0x80 != 0);
    assert(r & 0x80 != 0 <==> r & 0x80 == 0x80);
    assert(p2 & 0x7D == p1 & 0x7D && p1 & 0x7D == p & 0x7D);
    assert(p2 & 0x7C == p1 & 0x7C && p1 & 0x7C == p & 0x7C);
    assert(p2 & 0x3C == p1 & 0x3C && p1 & 0x3C == p & 0x3C);
    assert(p2 & 0x01 == p1 & 0x01 && p1 & 0x01 == p & 0x01);
    assert(p2 & 0x40 == p1 & 0x40 && p1 & 0x40 == p & 0x40);
}

/// The carry set, then Z and N from a result.
proof fn lemma_carry_zn(p: u8, carry: bool, r: u8)
    ensures
        zn_of(zn(with_flag(p, Flag::Carry, carry), r), r),
        (zn(with_flag(p, Flag::Carry, carry), r) & 0x01 == 0x01) == carry,
        zn(with_flag(p, Flag::Carry, carry), r) & 0x7C == p & 0x7C,
{
    lemma_bitset();
    let p1 = bitset(p, 0x01, carry);
    assert(with_flag(p, Flag::Carry, carry) == p1);
    lemma_zn(p1, r);
    assert(p1 & 0x01 == 0x01 <==> carry);
    assert(p1 & 0x7C == p & 0x7C);
}

/// The addressing changes no register but PC, and the cycles and the
/// page-crossing mark.
proof fn lemma_fetched_keeps_registers(c: Cpu, b: BusView, mode: AdressingMode)
    ensures
        ({
            let c1 = fetched(c, b, mode).0;
            c1.a == c.a && c1.x == c.x && c1.y == c.y && c1.sp == c.sp && c1.p == c.p
        }),
{
    reveal(fetched);
}

/// Loads and the logic operations: LDA, LDX and LDY load the operand; AND,
/// ORA and EOR combine it with A bit by bit; each sets Z and N from the
/// result and keeps the other flags and registers.
pub proof fn law_loads_and_logic(c: Cpu, b: BusView, mode: AdressingMode)
    ensures
        ({
            let m = operand(c, b, mode).3;
            let lda = op_lda(c, b, mode).0;
            let ldx = op_ldx(c, b, mode).0;
            let ldy = op_ldy(c, b, mode).0;
            let and = op_and(c, b, mode).0;
            let ora = op_ora(c, b, mode).0;
            let eor = op_eor(c, b, mode).0;
            &&& lda.a == m && zn_of(lda.p, m) && lda.p & 0x7D == c.p & 0x7D && lda.x == c.x && lda.y == c.y
            &&& ldx.x == m && zn_of(ldx.p, m) && ldx.p & 0x7D == c.p & 0x7D && ldx.a == c.a && ldx.y == c.y
            &&& ldy.y == m && zn_of(ldy.p, m) && ldy.p & 0x7D == c.p & 0x7D && ldy.a == c.a && ldy.x == c.x
            &&& and.a == c.a & m && zn_of(and.p, c.a & m) && and.p & 0x7D == c.p & 0x7D
            &&& ora.a == c.a | m && zn_of(ora.p, c.a | m) && ora.p & 0x7D == c.p & 0x7D
            &&& eor.a == c.a ^ m && zn_of(eor.p, c.a ^ m) && eor.p & 0x7D == c.p & 0x7D
        }),
{
    reveal(op_lda);
    reveal(op_ldx);
    reveal(op_ldy);
    reveal(op_and);
    reveal(op_ora);
    reveal(op_eor);
    lemma_fetched_keeps_registers(c, b, mode);
    let m = operand(c, b, mode).3;
    lemma_zn(c.p, m);
    lemma_zn(c.p, c.a & m);
    lemma_zn(c.p, c.a | m);
    lemma_zn(c.p, c.a ^ m);
}

/// ADC adds the operand and the carry to A: A takes the sum's low byte, C
/// tells whether the sum passed 255, V whether A and the operand had the
/// same sign and the result another; SBC subtracts the operand and the borrow
/// (1 - C): C tells whether no borrow was needed, V whether A and the
/// operand had different signs and the result the operand's. Both set Z
/// and N from A and keep I, D, B and the unused bit.
pub proof fn law_add_and_subtract(c: Cpu, b: BusView, mode: AdressingMode)
    ensures
        ({
            let m = operand(c, b, mode).3;
            let carry = if c.p % 2 == 1 { 1int } else { 0int };
            let sum = c.a + m + carry;
            let adc = op_adc(c, b, mode).0;
            let difference = c.a - m - (1 - carry);
            let sbc = op_sbc(c, b, mode).0;
            &&& adc.a == sum % 256
            &&& (adc.p & 0x01 == 0x01) == (sum > 255)
            &&& (adc.p & 0x40 == 0x40) == ((c.a ^ m) & 0x80 == 0 && (c.a ^ adc.a) & 0x80 == 0x80)
            &&& zn_of(adc.p, adc.a)
            &&& adc.p & 0x3C == c.p & 0x3C
            &&& sbc.a == (difference + 256) % 256
            &&& (sbc.p & 0x01 == 0x01) == (difference >= 0)
            &&& (sbc.p & 0x40 == 0x40) == ((c.a ^ m) & (c.a ^ sbc.a) & 0x80 == 0x80)
            &&& zn_of(sbc.p, sbc.a)
            &&& sbc.p & 0x3C == c.p & 0x3C
        }),
{
    reveal(op_adc);
    reveal(op_sbc);
    lemma_fetched_keeps_registers(c, b, mode);
    let m = operand(c, b, mode).3;
    let c1 = operand(c, b, mode).0;
    lemma_added(c1, m);
    lemma_subtracted(c1, m);
}

proof fn lemma_added(c: Cpu, m: u8)
    ensures
        ({
            let carry = if c.p % 2 == 1 { 1int } else { 0int };
            let sum = c.a + m + carry;
            let r = added(c, m, m);
            &&& r.a == sum % 256
            &&& (r.p & 0x01 == 0x01) == (sum > 255)
            &&& (r.p & 0x40 == 0x40) == ((c.a ^ m) & 0x80 == 0 && (c.a ^ r.a) & 0x80 == 0x80)
            &&& zn_of(r.p, r.a)
            &&& r.p & 0x3C == c.p & 0x3C
        }),
{
    lemma_bitset();
    lemma_byte_values();
    let p = c.p;
    assert(p & 0x01 != 0 <==> p % 2 == 1);
    let sum = c.a + m + crate::cpu::semantics::carry_in(p);
    let r = added(c, m, m);
    let hi = sum > 255;
    let p1 = bitset(p, 0x01, hi);
    assert(with_flag(p, Flag::Carry, hi) == p1);
    lemma_zn(p1, r.a);
    let q = zn(p1, r.a);
    let v = (c.a ^ m) & 0x80 == 0 && (c.a ^ r.a) & 0x80 == 0x80;
    assert(r.p == bitset(q, 0x40, v));
    assert(r.p & 0x40 == 0x40 <==> v);
    assert(r.p & 0x01 == q & 0x01 && q & 0x01 == p1 & 0x01);
    assert(p1 & 0x01 == 0x01 <==> hi);
    assert(r.p & 0x02 == q & 0x02 && r.p & 0x80 == q & 0x80);
    assert(r.p & 0x3C == q & 0x3C);
    assert(p1 & 0x3C == p & 0x3C);
}

proof fn lemma_subtracted(c: Cpu, m: u8)
    ensures
        ({
            let carry = if c.p % 2 == 1 { 1int } else { 0int };
            let difference = c.a - m - (1 - carry);
            let r = subtracted(c, m);
            &&& r.a == (difference + 256) % 256
            &&& (r.p & 0x01 == 0x01) == (difference >= 0)
            &&& (r.p & 0x40 == 0x40) == ((c.a ^ m) & (c.a ^ r.a) & 0x80 == 0x80)
            &&& zn_of(r.p, r.a)
            &&& r.p & 0x3C == c.p & 0x3C
        }),
{
    lemma_bitset();
    lemma_byte_values();
    let p = c.p;
    assert(p & 0x01 != 0 <==> p % 2 == 1);
    assert((m ^ 0xFF) as int == 255 - m);
    let sum = c.a + (m ^ 0xFF) + crate::cpu::semantics::carry_in(p);
    let r = subtracted(c, m);
    let hi = sum > 255;
    let p1 = bitset(p, 0x01, hi);
    assert(with_flag(p, Flag::Carry, hi) == p1);
    lemma_zn(p1, r.a);
    let q = zn(p1, r.a);
    let v = (c.a ^ m) & (c.a ^ r.a) & 0x80 == 0x80;
    assert(r.p == bitset(q, 0x40, v));
    assert(r.p & 0x40 == 0x40 <==> v);
    assert(r.p & 0x01 == q & 0x01 && q & 0x01 == p1 & 0x01);
    assert(p1 & 0x01 == 0x01 <==> hi);
    assert(r.p & 0x02 == q & 0x02 && r.p & 0x80 == q & 0x80);
    assert(r.p & 0x3C == q & 0x3C);
    assert(p1 & 0x3C == p & 0x3C);
}

/// The result of a shift or rotate of `s`, and the carry it leaves: ASL
/// doubles, LSR halves, ROL doubles and brings the carry into bit 0, ROR
/// halves and brings it into bit 7; the bit shifted out becomes the carry.
pub open spec fn shift_result(which: int, s: u8, carry: bool) -> (int, bool) {
    let c: int = if carry { 1 } else { 0 };
    if which == 0 {
        ((s * 2) % 256, s >= 128)
    } else if which == 1 {
        ((s / 2) as int, s % 2 == 1)
    } else if which == 2 {
        ((s * 2 + c) % 256, s >= 128)
    } else {
        ((s / 2) as int + 128 * c, s % 2 == 1)
    }
}

/// ASL, LSR, ROL and ROR, numbered 0 to 3.
pub open spec fn shift_op(which: int, c: Cpu, b: BusView, mode: AdressingMode) -> (Cpu, BusView) {
    if which == 0 {
        op_asl(c, b, mode)
    } else if which == 1 {
        op_lsr(c, b, mode)
    } else if which == 2 {
        op_rol(c, b, mode)
    } else {
        op_ror(c, b, mode)
    }
}

proof fn lemma_shift_bits(s: u8, p: u8)
    ensures
        (s << 1u8) as int == (s * 2) % 256,
        (s >> 1u8) as int == s / 2,
        (s & 0x80 != 0) == (s >= 128),
        (s & 0x01 != 0) == (s % 2 == 1),
        (p & 0x01 != 0) == (p & 0x01 == 0x01),
{
    lemma_bitset();
    lemma_byte_values();
    assert((s << 1u8) as int == (s * 2) % 256 && (s >> 1u8) as int == s / 2);
    assert((s & 0x80 != 0) == (s & 0x80 == 0x80));
    assert((s & 0x01 != 0) == (s & 0x01 == 0x01));
    assert((p & 0x01 != 0) == (p & 0x01 == 0x01));
}

/// ASL, LSR, ROL and ROR act on A in accumulator mode and on the operand
/// otherwise, which they write back: the result and the carry are those of
/// `shift_result`; Z and N follow the result, the other flags stay.
pub proof fn law_shifts(c: Cpu, b: BusView, mode: AdressingMode)
    ensures
        ({
            let (c1, b1, address, m) = operand(c, b, mode);
            let s = if mode == AdressingMode::Accumulator { c.a } else { m };
            let carry = c.p & 0x01 == 0x01;
            forall|which: int| 0 <= which < 4 ==> {
                let r = #[trigger] shift_op(which, c, b, mode);
                let (value, carry_out) = shift_result(which, s, carry);
                &&& (r.0.p & 0x01 == 0x01) == carry_out
                &&& r.0.p & 0x7C == c.p & 0x7C
                &&& 0 <= value < 256
                &&& zn_of(r.0.p, value as u8)
                &&& mode == AdressingMode::Accumulator ==> r.0.a == value && r.1 == b1
                &&& mode != AdressingMode::Accumulator ==> r.0.a == c.a
                    && r.1 == crate::bus::bus_written(b1, address, value as u8)
            }
        }),
{
    reveal(op_asl);
    reveal(op_lsr);
    reveal(op_rol);
    reveal(op_ror);
    lemma_fetched_keeps_registers(c, b, mode);
    let (c1, b1, address, m) = operand(c, b, mode);
    let s = if mode == AdressingMode::Accumulator { c.a } else { m };
    lemma_shift_bits(s, c.p);
    let ci = crate::cpu::semantics::carry_in(c.p);
    lemma_carry_zn(c.p, s & 0x80 != 0, s << 1u8);
    lemma_carry_zn(c.p, s & 0x01 != 0, s >> 1u8);
    lemma_carry_zn(c.p, s & 0x80 != 0, ((s << 1u8) + ci) as u8);
    lemma_carry_zn(c.p, s & 0x01 != 0, ((s >> 1u8) + ci * 0x80) as u8);
}

/// INX, INY, DEX and DEY add or subtract one (mod 256) and set Z and N
/// from the result; TAX, TAY, TXA, TYA and TSX copy a register and set Z
/// and N from it; TXS copies X to the stack pointer and leaves the flags.
pub proof fn law_counts_and_transfers(c: Cpu, b: BusView, mode: AdressingMode)
    ensures
        op_inx(c, b, mode).0.x == (c.x + 1) % 256 && zn_of(op_inx(c, b, mode).0.p, op_inx(c, b, mode).0.x),
        op_iny(c, b, mode).0.y == (c.y + 1) % 256 && zn_of(op_iny(c, b, mode).0.p, op_iny(c, b, mode).0.y),
        op_dex(c, b, mode).0.x == (c.x + 255) % 256 && zn_of(op_dex(c, b, mode).0.p, op_dex(c, b, mode).0.x),
        op_dey(c, b, mode).0.y == (c.y + 255) % 256 && zn_of(op_dey(c, b, mode).0.p, op_dey(c, b, mode).0.y),
        op_inx(c, b, mode).0.p & 0x7D == c.p & 0x7D && op_dex(c, b, mode).0.p & 0x7D == c.p & 0x7D,
        op_iny(c, b, mode).0.p & 0x7D == c.p & 0x7D && op_dey(c, b, mode).0.p & 0x7D == c.p & 0x7D,
        op_tax(c, b, mode).0.x == c.a && zn_of(op_tax(c, b, mode).0.p, c.a),
        op_tay(c, b, mode).0.y == c.a && zn_of(op_tay(c, b, mode).0.p, c.a),
        op_txa(c, b, mode).0.a == c.x && zn_of(op_txa(c, b, mode).0.p, c.x),
        op_tya(c, b, mode).0.a == c.y && zn_of(op_tya(c, b, mode).0.p, c.y),
        op_tsx(c, b, mode).0.x == c.sp && zn_of(op_tsx(c, b, mode).0.p, c.sp),
        op_txs(c, b, mode).0.sp == c.x && op_txs(c, b, mode).0.p == c.p,
        op_tax(c, b, mode).1 == b && op_txs(c, b, mode).1 == b && op_inx(c, b, mode).1 == b,
{
    reveal(op_inx);
    reveal(op_iny);
    reveal(op_dex);
    reveal(op_dey);
    reveal(op_tax);
    reveal(op_tay);
    reveal(op_txa);
    reveal(op_tya);
    reveal(op_tsx);
    reveal(op_txs);
    let x1 = crate::cpu::semantics::wadd8(c.x, 1);
    let y1 = crate::cpu::semantics::wadd8(c.y, 1);
    let x2 = crate::cpu::semantics::wsub8(c.x, 1);
    let y2 = crate::cpu::semantics::wsub8(c.y, 1);
    lemma_zn(c.p, x1);
    lemma_zn(c.p, y1);
    lemma_zn(c.p, x2);
    lemma_zn(c.p, y2);
    lemma_zn(c.p, c.a);
    lemma_zn(c.p, c.x);
    lemma_zn(c.p, c.y);
    lemma_zn(c.p, c.sp);
}

/// Each branch tests one flag: BCC and BCS the carry (bit 0) clear or
/// set, BNE and BEQ the zero flag (bit 1), BPL and BMI the negative flag
/// (bit 7), BVC and BVS the overflow flag (bit 6).
pub proof fn law_branch_conditions(c: Cpu, b: BusView, mode: AdressingMode)
    ensures
        op_bcc(c, b, mode) == branched(c, b, c.p & 0x01 == 0),
        op_bcs(c, b, mode) == branched(c, b, c.p & 0x01 != 0),
        op_bne(c, b, mode) == branched(c, b, c.p & 0x02 == 0),
        op_beq(c, b, mode) == branched(c, b, c.p & 0x02 != 0),
        op_bpl(c, b, mode) == branched(c, b, c.p & 0x80 == 0),
        op_bmi(c, b, mode) == branched(c, b, c.p & 0x80 != 0),
        op_bvc(c, b, mode) == branched(c, b, c.p & 0x40 == 0),
        op_bvs(c, b, mode) == branched(c, b, c.p & 0x40 != 0),
{
    reveal(op_bcc);
    reveal(op_bcs);
    reveal(op_bne);
    reveal(op_beq);
    reveal(op_bpl);
    reveal(op_bmi);
    reveal(op_bvc);
    reveal(op_bvs);
}

/// A branch reads its offset byte `d` after the opcode. Not taken, it only
/// moves PC onto that byte. Taken, PC moves by `d` as a signed byte from
/// there, and it costs one cycle, or two when the instruction that follows
/// the target lies on another page than the one that follows the branch.
pub proof fn law_branch_target(c: Cpu, b: BusView, taken: bool)
    requires
        c.cycles <= 253,
    ensures
        ({
            let pc1 = (c.pc + 1) % 0x10000;
            let (b1, d) = bus_read(b, pc1 as u16);
            let (c2, b2) = branched(c, b, taken);
            let offset: int = if d < 128 { d as int } else { d - 256 };
            let target = (pc1 + offset + 0x10000) % 0x10000;
            let crossed = ((target + 1) % 0x10000) / 256 != ((pc1 + 1) % 0x10000) / 256;
            &&& !taken ==> c2.pc == pc1 && c2.cycles == c.cycles && b2 == b
            &&& taken ==> c2.pc == target && b2 == b1
                && c2.cycles == c.cycles + (if crossed { 2int } else { 1int })
            &&& c2.a == c.a && c2.x == c.x && c2.y == c.y && c2.p == c.p && c2.sp == c.sp
        }),
{
    let pc1 = crate::cpu::semantics::wadd16(c.pc, 1);
    assert(fetched(c, b, AdressingMode::Relative) == (Cpu { pc: pc1, page_crossed: false, ..c }, b, pc1)) by {
        reveal(fetched);
    }
    assert(pc1 as int == (c.pc + 1) % 0x10000);
    let d = bus_read(b, pc1).1;
    let t = crate::cpu::semantics::branch_target(pc1, d);
    let t1 = crate::cpu::semantics::wadd16(t, 1);
    let n1 = crate::cpu::semantics::wadd16(pc1, 1);
    lemma_word_values();
    assert((t1 & 0xFF00 != n1 & 0xFF00) == (t1 / 256 != n1 / 256));
    let offset: int = if d < 128 { d as int } else { d - 256 };
    assert(t as int == (pc1 + offset + 0x10000) % 0x10000);
    assert(t1 as int == (t + 1) % 0x10000);
    assert(n1 as int == (pc1 + 1) % 0x10000);
    reveal(branched);
    let (c2, b2) = branched(c, b, taken);
    assert(((c.pc + 1) % 0x10000) as u16 == pc1);
    if taken {
        assert(c2.pc == t);
        let extra: u8 = if t1 & 0xFF00 != n1 & 0xFF00 { 2 } else { 1 };
        assert(c2.cycles == (c.cycles + extra) as u8);

    }
}

/// CMP, CPX and CPY compare A, X or Y with the operand: C is set when the
/// register is at least the operand, Z when they are equal, N from bit 7 of
/// their difference (mod 256); the registers and the other flags stay.
pub proof fn law_compares(c: Cpu, b: BusView, mode: AdressingMode)
    ensures
        ({
            let m = operand(c, b, mode).3;
            forall|reg: u8, p: u8| #![trigger compared(p, reg, m)] {
                let q = compared(p, reg, m);
                &&& (q & 0x01 == 0x01) == (reg >= m)
                &&& (q & 0x02 == 0x02) == (reg == m)
                &&& (q & 0x80 == 0x80) == ((reg - m + 256) % 256 >= 128)
                &&& q & 0x7C == p & 0x7C
            }
        }),
        op_cmp(c, b, mode).0.p == compared(c.p, c.a, operand(c, b, mode).3),
        op_cpx(c, b, mode).0.p == compared(c.p, c.x, operand(c, b, mode).3),
        op_cpy(c, b, mode).0.p == compared(c.p, c.y, operand(c, b, mode).3),
        op_cmp(c, b, mode).0.a == c.a && op_cpx(c, b, mode).0.x == c.x && op_cpy(c, b, mode).0.y == c.y,
{
    reveal(op_cmp);
    reveal(op_cpx);
    reveal(op_cpy);
    lemma_fetched_keeps_registers(c, b, mode);
    let m = operand(c, b, mode).3;
    assert forall|reg: u8, p: u8| #![trigger compared(p, reg, m)] {
        let q = compared(p, reg, m);
        &&& (q & 0x01 == 0x01) == (reg >= m)
        &&& (q & 0x02 == 0x02) == (reg == m)
        &&& (q & 0x80 == 0x80) == ((reg - m + 256) % 256 >= 128)
        &&& q & 0x7C == p & 0x7C
    } by {
        lemma_compared(p, reg, m);
    }
}

proof fn lemma_compared(p: u8, reg: u8, m: u8)
    ensures
        ({
            let q = compared(p, reg, m);
            &&& (q & 0x01 == 0x01) == (reg >= m)
            &&& (q & 0x02 == 0x02) == (reg == m)
            &&& (q & 0x80 == 0x80) == ((reg - m + 256) % 256 >= 128)
            &&& q & 0x7C == p & 0x7C
        }),
{
    lemma_bitset();
    lemma_byte_values();
    let d = crate::cpu::semantics::wsub8(reg, m);
    let p1 = bitset(p, 0x02, d == 0);
    let p2 = bitset(p1, 0x01, reg >= m);
    let p3 = bitset(p2, 0x80, d & 0x80 != 0);
    assert(compared(p, reg, m) == p3);
    assert(d as int == (reg - m + 256) % 256);
    assert(p3 & 0x01 == p2 & 0x01 && (p2 & 0x01 == 0x01 <==> reg >= m));
    assert(p3 & 0x02 == p2 & 0x02 && p2 & 0x02 == p1 & 0x02 && (p1 & 0x02 == 0x02 <==> d == 0));
    assert(p3 & 0x80 == 0x80 <==> d & 0x80 != 0);
    assert(d & 0x80 != 0 <==> d >= 128);
    assert(p3 & 0x7C == p2 & 0x7C && p2 & 0x7C == p1 & 0x7C && p1 & 0x7C == p & 0x7C);
}

/// INC and DEC write the operand plus or minus one (mod 256) back at its
/// address and set Z and N from it.
pub proof fn law_memory_increment(c: Cpu, b: BusView, mode: AdressingMode)
    ensures
        ({
            let (c1, b1, address, m) = operand(c, b, mode);
            let up = ((m + 1) % 256) as u8;
            let down = ((m + 255) % 256) as u8;
            &&& op_inc(c, b, mode).1 == bus_written(b1, address, up)
            &&& zn_of(op_inc(c, b, mode).0.p, up) && op_inc(c, b, mode).0.p & 0x7D == c.p & 0x7D
            &&& op_dec(c, b, mode).1 == bus_written(b1, address, down)
            &&& zn_of(op_dec(c, b, mode).0.p, down) && op_dec(c, b, mode).0.p & 0x7D == c.p & 0x7D
        }),
{
    reveal(op_inc);
    reveal(op_dec);
    lemma_fetched_keeps_registers(c, b, mode);
    let m = operand(c, b, mode).3;
    lemma_zn(c.p, ((m + 1) % 256) as u8);
    lemma_zn(c.p, ((m + 255) % 256) as u8);
}

/// The stack is page 1 of RAM: a push writes at $0100 + S and moves S down
/// by one; a pull moves S up by one and reads at $0100 + S.
pub proof fn law_stack(c: Cpu, b: BusView, v: u8)
    requires
        b.ram.len() == 0x800,
    ensures
        pushed(c, b, v).1 == (BusView { ram: b.ram.update(0x100 + c.sp, v), ..b }),
        pushed(c, b, v).0 == (Cpu { sp: ((c.sp + 255) % 256) as u8, ..c }),
        popped(c, b).0 == (Cpu { sp: ((c.sp + 1) % 256) as u8, ..c }),
        popped(c, b).1 == b,
        popped(c, b).2 == b.ram[0x100 + (c.sp + 1) % 256],
{
    reveal(bus_read);
    reveal(bus_written);
    lemma_word_values();
    let sp = c.sp;
    let a = (0x100 + sp) as u16;
    assert(a & 0x07FF == a);
    let sp1 = crate::cpu::semantics::wadd8(sp, 1);
    let a1 = (0x100 + sp1) as u16;
    assert(a1 & 0x07FF == a1);
}

/// The value a cartridge gives at a vector address (0 when refused).
pub open spec fn vector_byte(cv: CartridgeView, address: u16) -> int {
    match cart_prg_read(cv, address) {
        Ok(v) => v as int,
        Err(_) => 0,
    }
}

/// Interrupts: an NMI pushes PC (high byte first) and the status at
/// $0100 + S, S - 1 and S - 2, sets I and jumps through the vector at
/// $FFFA; an IRQ does the same through $FFFE, unless I is set, when it
/// changes nothing; a reset moves S down by three without writing, sets I
/// and jumps through $FFFC. Each takes 7 cycles.
#[verifier::rlimit(100)]
#[verifier::spinoff_prover]
pub proof fn law_interrupts(c: Cpu, b: BusView, cv: CartridgeView)
    requires
        b.ram.len() == 0x800,
        b.cartridge == Some(cv),
    ensures
        ({
            let sp = c.sp as int;
            let ram = b.ram.update(0x100 + sp, (c.pc / 256) as u8)
                .update(0x100 + (sp + 255) % 256, (c.pc % 256) as u8)
                .update(0x100 + (sp + 254) % 256, c.p);
            let (n, nb) = nmi_taken(c, b);
            let (r, rb) = reset_taken(c, b);
            &&& nb.ram == ram && nb.cartridge == b.cartridge
            &&& n.sp == (sp + 253) % 256 && n.p == c.p | 0x04 && n.cycles == 7
            &&& n.pc == vector_byte(cv, 0xFFFA) + 256 * vector_byte(cv, 0xFFFB)
            &&& c.p & 0x04 != 0 ==> irq_taken(c, b) == (c, b)
            &&& c.p & 0x04 == 0 ==> {
                let (i, ib) = irq_taken(c, b);
                &&& ib.ram == ram && i.sp == (sp + 253) % 256 && i.p == c.p | 0x04 && i.cycles == 7
                &&& i.pc == vector_byte(cv, 0xFFFE) + 256 * vector_byte(cv, 0xFFFF)
            }
            &&& rb.ram == b.ram && r.sp == (sp + 253) % 256 && r.p == c.p | 0x04 && r.cycles == 7
            &&& r.pc == vector_byte(cv, 0xFFFC) + 256 * vector_byte(cv, 0xFFFD)
        }),
{
    reveal(nmi_taken);
    reveal(irq_taken);
    reveal(reset_taken);
    reveal(bus_read);
    reveal(bus_written);
    let sp = c.sp;
    let pc = c.pc;
    let a0 = (0x100 + sp) as u16;
    let s1 = crate::cpu::semantics::wsub8(sp, 1);
    let a1 = (0x100 + s1) as u16;
    let s2 = crate::cpu::semantics::wsub8(s1, 1);
    let a2 = (0x100 + s2) as u16;
    lemma_word_values();
    assert(a0 & 0x07FF == a0 && a1 & 0x07FF == a1 && a2 & 0x07FF == a2);
    assert((pc >> 8u16) as int == pc / 256 && (pc & 0x00FF) as int == pc % 256);
}

/// The direct addressing modes, with `z` the byte after the opcode and `h`
/// the byte after it: immediate addresses that byte itself; zero page
/// addresses `z`, indexed by X or Y within page 0; absolute addresses
/// `z + 256 * h`, indexed by X or Y wrapping at $FFFF, where crossing a page
/// sets the page-crossing mark and costs a cycle when the instruction pays
/// for it. PC ends on the last operand byte.
#[verifier::rlimit(100)]
#[verifier::spinoff_prover]
pub proof fn law_direct_addressing(c: Cpu, b: BusView, mode: AdressingMode)
    ensures
        ({
            let pc1 = (c.pc + 1) % 0x10000;
            let pc2 = (c.pc + 2) % 0x10000;
            let (b1, z) = bus_read(b, pc1 as u16);
            let (b2, h) = bus_read(b1, pc2 as u16);
            let (c1, b3, address) = fetched(c, b, mode);
            let base = z + 256 * h;
            let indexed = if mode == AdressingMode::AbsoluteX { (base + c.x) % 0x10000 } else { (base + c.y) % 0x10000 };
            let crossed = indexed / 256 != base / 256;
            &&& mode == AdressingMode::Immediate ==> address == pc1 && c1.pc == pc1 && b3 == b
            &&& mode == AdressingMode::ZeroPage ==> address == z && c1.pc == pc1 && b3 == b1
            &&& mode == AdressingMode::ZeroPageX ==> address == (z + c.x) % 256 && c1.pc == pc1 && b3 == b1
            &&& mode == AdressingMode::ZeroPageY ==> address == (z + c.y) % 256 && c1.pc == pc1
            &&& mode == AdressingMode::Absolute ==> address == base && c1.pc == pc2 && b3 == b2 && !c1.page_crossed
            &&& (mode == AdressingMode::AbsoluteX || mode == AdressingMode::AbsoluteY) ==> {
                &&& address == indexed && c1.pc == pc2
                &&& c1.page_crossed == crossed
                &&& c.cycles < 255 ==> c1.cycles == c.cycles + (if crossed && c.require_add_cycle { 1int } else { 0int })
                &&& !crossed ==> b3 == b2
            }
        }),
{
    reveal(fetched);
    lemma_word_values();
    let pc1 = crate::cpu::semantics::wadd16(c.pc, 1);
    let pc2 = crate::cpu::semantics::wadd16(pc1, 1);
    assert(pc1 as int == (c.pc + 1) % 0x10000 && pc2 as int == (c.pc + 2) % 0x10000);
    let (b1, z) = bus_read(b, pc1);
    let (b2, h) = bus_read(b1, pc2);
    let base = crate::cpu::semantics::word(z, h);
    assert(base as int == z + 256 * h);
    let rx = crate::cpu::semantics::wadd16(base, c.x as u16);
    let ry = crate::cpu::semantics::wadd16(base, c.y as u16);
    assert((rx & 0xFF00 != base & 0xFF00) == (rx / 256 != base / 256));
    assert((ry & 0xFF00 != base & 0xFF00) == (ry / 256 != base / 256));
}

/// The indirect addressing modes, with `z` the byte after the opcode:
/// (zp,X) reads the address from `z + X` and the next byte, both within
/// page 0; (zp),Y reads it from `z` and `z + 1` within page 0 and adds Y
/// (wrapping at $FFFF); JMP (abs) reads it from the pointer `z + 256 * h`
/// and the byte after it within the same page.
#[verifier::rlimit(100)]
#[verifier::spinoff_prover]
pub proof fn law_indirect_addressing(c: Cpu, b: BusView, mode: AdressingMode)
    ensures
        ({
            let pc1 = (c.pc + 1) % 0x10000;
            let pc2 = (c.pc + 2) % 0x10000;
            let (b1, z) = bus_read(b, pc1 as u16);
            let (c1, b3, address) = fetched(c, b, mode);
            &&& mode == AdressingMode::IndirectX ==> {
                let p = (z + c.x) % 256;
                let (bx, lo) = bus_read(b1, p as u16);
                let (by, hi) = bus_read(bx, ((p + 1) % 256) as u16);
                address == lo + 256 * hi && c1.pc == pc1 && b3 == by
            }
            &&& mode == AdressingMode::IndirectY ==> {
                let (bx, lo) = bus_read(b1, z as u16);
                let (by, hi) = bus_read(bx, ((z + 1) % 256) as u16);
                &&& address == (lo + 256 * hi + c.y) % 0x10000 && c1.pc == pc1
                &&& c1.page_crossed == (address / 256 != (lo + 256 * hi) / 256)
            }
            &&& mode == AdressingMode::Indirect ==> {
                let (b2, h) = bus_read(b1, pc2 as u16);
                let pointer = z + 256 * h;
                let (bx, lo) = bus_read(b2, pointer as u16);
                let (by, hi) = bus_read(bx, ((pointer / 256) * 256 + (pointer + 1) % 256) as u16);
                address == lo + 256 * hi && c1.pc == pc2 && b3 == by
            }
        }),
{
    reveal(fetched);
    lemma_word_values();
    let pc1 = crate::cpu::semantics::wadd16(c.pc, 1);
    let pc2 = crate::cpu::semantics::wadd16(pc1, 1);
    assert(pc1 as int == (c.pc + 1) % 0x10000 && pc2 as int == (c.pc + 2) % 0x10000);
    let (b1, z) = bus_read(b, pc1);
    let (b2, h) = bus_read(b1, pc2);
    let pointer = crate::cpu::semantics::word(z, h);
    assert(pointer as int == z + 256 * h);
    assert((pointer & 0xFF00) as int == (pointer / 256) * 256);
    let (bx, lo) = bus_read(b1, z as u16);
    let (by, hi) = bus_read(bx, ((z as u16 + 1) % 0x100) as u16);
    let base = crate::cpu::semantics::word(lo, hi);
    let r = crate::cpu::semantics::wadd16(base, c.y as u16);
    assert((r & 0xFF00 != base & 0xFF00) == (r / 256 != base / 256));
}

/// Whether status `q` holds the flags C, Z, I, D, V and N of the byte `s`.
pub open spec fn flags_from(q: u8, s: u8) -> bool {
    &&& (q & 0x01 == 0x01) == (s & 0x01 == 0x01)
    &&& (q & 0x02 == 0x02) == (s & 0x02 == 0x02)
    &&& (q & 0x04 == 0x04) == (s & 0x04 == 0x04)
    &&& (q & 0x08 == 0x08) == (s & 0x08 == 0x08)
    &&& (q & 0x40 == 0x40) == (s & 0x40 == 0x40)
    &&& (q & 0x80 == 0x80) == (s & 0x80 == 0x80)
}

/// PLP and RTI take C, Z, I, D, V and N from the pulled byte, set the
/// unused bit and keep B.
proof fn lemma_pulled_status(p: u8, s: u8)
    ensures
        flags_from(pulled_status(p, s), s),
        pulled_status(p, s) & 0x20 == 0x20,
        pulled_status(p, s) & 0x10 == p & 0x10,
{
    lemma_bitset();
    lemma_byte_values();
    let p1 = bitset(p, 0x01, s & 0x01 != 0);
    let p2 = bitset(p1, 0x02, s & 0x02 != 0);
    let p3 = bitset(p2, 0x04, s & 0x04 != 0);
    let p4 = bitset(p3, 0x08, s & 0x08 != 0);
    let p5 = bitset(p4, 0x20, true);
    let p6 = bitset(p5, 0x40, s & 0x40 != 0);
    let p7 = bitset(p6, 0x80, s & 0x80 != 0);
    assert(pulled_status(p, s) == p7);
    assert(p7 & 0x01 == p6 & 0x01 && p6 & 0x01 == p5 & 0x01 && p5 & 0x01 == p4 & 0x01 && p4 & 0x01 == p3 & 0x01
        && p3 & 0x01 == p2 & 0x01 && p2 & 0x01 == p1 & 0x01);
    assert(p7 & 0x02 == p6 & 0x02 && p6 & 0x02 == p5 & 0x02 && p5 & 0x02 == p4 & 0x02 && p4 & 0x02 == p3 & 0x02
        && p3 & 0x02 == p2 & 0x02);
    assert(p7 & 0x04 == p6 & 0x04 && p6 & 0x04 == p5 & 0x04 && p5 & 0x04 == p4 & 0x04 && p4 & 0x04 == p3 & 0x04);
    assert(p7 & 0x08 == p6 & 0x08 && p6 & 0x08 == p5 & 0x08 && p5 & 0x08 == p4 & 0x08);
    assert(p7 & 0x20 == p6 & 0x20 && p6 & 0x20 == p5 & 0x20);
    assert(p7 & 0x40 == p6 & 0x40);
    assert(p7 & 0x10 == p6 & 0x10 && p6 & 0x10 == p5 & 0x10 && p5 & 0x10 == p4 & 0x10 && p4 & 0x10 == p3 & 0x10
        && p3 & 0x10 == p2 & 0x10 && p2 & 0x10 == p1 & 0x10 && p1 & 0x10 == p & 0x10);
    assert((s & 0x01 != 0) == (s & 0x01 == 0x01) && (s & 0x02 != 0) == (s & 0x02 == 0x02)
        && (s & 0x04 != 0) == (s & 0x04 == 0x04) && (s & 0x08 != 0) == (s & 0x08 == 0x08)
        && (s & 0x40 != 0) == (s & 0x40 == 0x40) && (s & 0x80 != 0) == (s & 0x80 == 0x80));
}

/// The stack instructions: PHA pushes A and PHP the status with B and the
/// unused bit set, each at $0100 + S with S then one lower; PLA and PLP
/// raise S by one and read $0100 + S, PLA into A (setting Z and N), PLP into
/// the flags C, Z, I, D, V and N (setting the unused bit, keeping B).
pub proof fn law_stack_instructions(c: Cpu, b: BusView, mode: AdressingMode)
    requires
        b.ram.len() == 0x800,
    ensures
        ({
            let down = ((c.sp + 255) % 256) as u8;
            let up = ((c.sp + 1) % 256) as u8;
            let top = b.ram[0x100 + up];
            &&& op_pha(c, b, mode) == (Cpu { sp: down, ..c }, BusView { ram: b.ram.update(0x100 + c.sp, c.a), ..b })
            &&& op_php(c, b, mode) == (Cpu { sp: down, ..c }, BusView { ram: b.ram.update(0x100 + c.sp, c.p | 0x10 | 0x20), ..b })
            &&& op_pla(c, b, mode).0.a == top && op_pla(c, b, mode).0.sp == up && zn_of(op_pla(c, b, mode).0.p, top)
            &&& op_pla(c, b, mode).0.p & 0x7D == c.p & 0x7D && op_pla(c, b, mode).1 == b
            &&& op_plp(c, b, mode).0.sp == up && flags_from(op_plp(c, b, mode).0.p, top)
            &&& op_plp(c, b, mode).0.p & 0x20 == 0x20 && op_plp(c, b, mode).0.p & 0x10 == c.p & 0x10
            &&& op_plp(c, b, mode).1 == b
        }),
{
    reveal(op_pha);
    reveal(op_php);
    reveal(op_pla);
    reveal(op_plp);
    law_stack(c, b, c.a);
    law_stack(c, b, c.p | 0x10 | 0x20);
    let top = popped(c, b).2;
    lemma_zn(c.p, top);
    lemma_pulled_status(c.p, top);
}

/// JSR pushes the address of its last byte (PC + 2), high byte first, and
/// jumps: PC becomes the target less one, which the clock then moves onto
/// the target.
#[verifier::rlimit(80)]
#[verifier::spinoff_prover]
pub proof fn law_jsr(c: Cpu, b: BusView)
    requires
        b.ram.len() == 0x800,
    ensures
        ({
            let (c1, b1, target) = fetched(c, b, AdressingMode::Absolute);
            let ret = ((c.pc + 2) % 0x10000) as int;
            let (c2, b2) = op_jsr(c, b, AdressingMode::Absolute);
            &&& b1.ram == b.ram
            &&& b2 == (BusView {
                ram: b1.ram.update(0x100 + c.sp, (ret / 256) as u8).update(0x100 + (c.sp + 255) % 256, (ret % 256) as u8),
                ..b1
            })
            &&& c2.sp == (c.sp + 254) % 256
            &&& c2.pc == (target + 0xFFFF) % 0x10000
        }),
{
    reveal(op_jsr);
    let pc1 = crate::cpu::semantics::wadd16(c.pc, 1);
    let pc2 = crate::cpu::semantics::wadd16(pc1, 1);
    let (r1, lo) = bus_read(b, pc1);
    let (r2, hi) = bus_read(r1, pc2);
    assert(r1.ram == b.ram && r2.ram == r1.ram) by {
        reveal(bus_read);
    }
    assert(fetched(c, b, AdressingMode::Absolute)
        == (Cpu { pc: pc2, page_crossed: false, ..c }, r2, crate::cpu::semantics::word(lo, hi))) by {
        reveal(fetched);
    }
    let c1 = Cpu { pc: pc2, page_crossed: false, ..c };
    assert(pc2 as int == (c.pc + 2) % 0x10000);
    assert((pc2 >> 8u16) as int == pc2 / 256) by {
        lemma_word_values();
    }
    law_stack(c1, r2, (pc2 >> 8u16) as u8);
    let (cp, bp) = pushed(c1, r2, (pc2 >> 8u16) as u8);
    law_stack(cp, bp, (pc2 % 256) as u8);
}

/// RTS pulls the low then the high byte of the return address.
pub proof fn law_rts(c: Cpu, b: BusView)
    requires
        b.ram.len() == 0x800,
    ensures
        ({
            let lo = b.ram[0x100 + (c.sp + 1) % 256];
            let hi = b.ram[0x100 + (c.sp + 2) % 256];
            let (c2, b2) = op_rts(c, b, AdressingMode::Implicit);
            c2.pc == lo + 256 * hi && c2.sp == (c.sp + 2) % 256 && b2 == b
        }),
{
    reveal(op_rts);
    let (d1, e1, lo) = popped(c, b);
    law_stack(c, b, 0);
    law_stack(d1, e1, 0);
}

} // verus!
