//! The text of a CPU trace line, in the layout of the well-known "nestest"
//! log: address, instruction bytes, disassembly, registers, PPU position and
//! cycle count. The text is ASCII, held as bytes.
use vstd::prelude::*;
use crate::cpu::{CpuLog, Disassembly};
use crate::cpu::enums::AdressingMode;
use crate::cpu::instructions::{Operation, mnemonic_letters};

verus! {

/// The ASCII character of a hexadecimal digit (upper case).
pub open spec fn hex_digit(d: u8) -> u8 {
    if d < 10 { (48 + d) as u8 } else { (55 + d) as u8 }
}

/// A byte as two hexadecimal digits.
pub open spec fn hex8(v: u8) -> Seq<u8> {
    seq![hex_digit(v / 16), hex_digit(v % 16)]
}

/// A word as four hexadecimal digits.
pub open spec fn hex16(v: u16) -> Seq<u8> {
    hex8((v / 256) as u8) + hex8((v % 256) as u8)
}

/// A number in decimal, without leading zeros.
pub open spec fn decimal(n: nat) -> Seq<u8>
    decreases n,
{
    if n < 10 {
        seq![(48 + n) as u8]
    } else {
        decimal(n / 10).push((48 + n % 10) as u8)
    }
}

/// `n` spaces (none when `n` is not positive).
pub open spec fn spaces(n: int) -> Seq<u8> {
    Seq::new(if n > 0 { n as nat } else { 0nat }, |i: int| ' ' as u8)
}

/// A text with spaces added on its left up to `width` characters.
pub open spec fn left_padded(s: Seq<u8>, width: int) -> Seq<u8> {
    spaces(width - s.len()) + s
}

/// A text with spaces added on its right up to `width` characters.
pub open spec fn right_padded(s: Seq<u8>, width: int) -> Seq<u8> {
    s + spaces(width - s.len())
}

/// Bytes as hexadecimal pairs, each followed by a space.
pub open spec fn bytes_text(s: Seq<u8>) -> Seq<u8>
    decreases s.len(),
{
    if s.len() == 0 {
        seq![]
    } else {
        hex8(s[0]) + seq![' ' as u8] + bytes_text(s.drop_first())
    }
}

/// " = " and a byte.
pub open spec fn equals8(v: u8) -> Seq<u8> {
    seq![' ' as u8, '=' as u8, ' ' as u8] + hex8(v)
}

/// " = " and a word.
pub open spec fn equals16(v: u16) -> Seq<u8> {
    seq![' ' as u8, '=' as u8, ' ' as u8] + hex16(v)
}

/// The text " @ ".
pub open spec fn at_text() -> Seq<u8> {
    seq![' ' as u8, '@' as u8, ' ' as u8]
}

/// The operand of an instruction as the trace shows it, by addressing mode:
/// the operand bytes, the effective address and the value found there.
/// JMP and JSR to an absolute address show no value; TAX and TXA show no
/// accumulator operand.
pub open spec fn operand_text(opcode: u8, d: Disassembly, p0: u8, p1: u8) -> Seq<u8> {
    match d.mode {
        AdressingMode::Implicit => seq![],
        AdressingMode::NoMode => seq![],
        AdressingMode::Accumulator => if opcode != 0xAA && opcode != 0x8A { seq!['A' as u8] } else { seq![] },
        AdressingMode::Immediate => seq!['#' as u8, '$' as u8] + hex8(p0),
        AdressingMode::ZeroPage => seq!['$' as u8] + hex8(p0) + equals8(d.value),
        AdressingMode::ZeroPageX => seq!['$' as u8] + hex8(p0) + seq![',' as u8, 'X' as u8] + at_text() + hex8(d.address as u8)
            + equals8(d.value),
        AdressingMode::ZeroPageY => seq!['$' as u8] + hex8(p0) + seq![',' as u8, 'Y' as u8] + at_text() + hex8(d.address as u8)
            + equals8(d.value),
        AdressingMode::Relative => seq!['$' as u8] + hex16(d.address),
        AdressingMode::Absolute => seq!['$' as u8] + hex8(p1) + hex8(p0)
            + if opcode == 0x4C || opcode == 0x20 { seq![] } else { equals8(d.value) },
        AdressingMode::AbsoluteX => seq!['$' as u8] + hex8(p1) + hex8(p0) + seq![',' as u8, 'X' as u8] + at_text() + hex16(d.address)
            + equals8(d.value),
        AdressingMode::AbsoluteY => seq!['$' as u8] + hex8(p1) + hex8(p0) + seq![',' as u8, 'Y' as u8] + at_text() + hex16(d.address)
            + equals8(d.value),
        AdressingMode::Indirect => seq!['(' as u8, '$' as u8] + hex8(p1) + hex8(p0) + seq![')' as u8] + equals16(d.address),
        AdressingMode::IndirectX => seq!['(' as u8, '$' as u8] + hex8(p0) + seq![',' as u8, 'X' as u8, ')' as u8] + at_text() + hex8(d.base as u8)
            + equals16(d.address) + equals8(d.value),
        AdressingMode::IndirectY => seq!['(' as u8, '$' as u8] + hex8(p0) + seq![')' as u8, ',' as u8, 'Y' as u8] + equals16(d.base) + at_text()
            + hex16(d.address) + equals8(d.value),
    }
}

/// The mnemonic, a space and the operand.
pub open spec fn disassembly_text(opcode: u8, d: Disassembly, p0: u8, p1: u8) -> Seq<u8> {
    let (m0, m1, m2) = mnemonic_letters(d.operation);
    seq![m0, m1, m2, ' ' as u8] + operand_text(opcode, d, p0, p1)
}

/// The trace line of an instruction: address, the instruction's bytes
/// (9 columns), its disassembly (32 columns), the registers, the PPU's
/// scanline and cycle (3 columns each) and the CPU's cycle count.
pub open spec fn trace_text(log: CpuLog) -> Seq<u8> {
    let params = log.parameters@;
    let p0: u8 = if params.len() > 0 { params[0] } else { 0 };
    let p1: u8 = if params.len() > 1 { params[1] } else { 0 };
    hex16(log.pc) + spaces(2)
        + right_padded(bytes_text(seq![log.opcode] + params), 9) + spaces(1)
        + right_padded(disassembly_text(log.opcode, log.disassembly, p0, p1), 32)
        + seq!['A' as u8, ':' as u8] + hex8(log.a)
        + seq![' ' as u8, 'X' as u8, ':' as u8] + hex8(log.x)
        + seq![' ' as u8, 'Y' as u8, ':' as u8] + hex8(log.y)
        + seq![' ' as u8, 'P' as u8, ':' as u8] + hex8(log.p)
        + seq![' ' as u8, 'S' as u8, 'P' as u8, ':' as u8] + hex8(log.sp)
        + seq![' ' as u8, 'P' as u8, 'P' as u8, 'U' as u8, ':' as u8] + left_padded(decimal(log.scanline as nat), 3)
        + seq![',' as u8] + left_padded(decimal(log.ppu_cycles as nat), 3)
        + seq![' ' as u8, 'C' as u8, 'Y' as u8, 'C' as u8, ':' as u8] + decimal(log.total_clock as nat)
}

fn hex_char(d: u8) -> (c: u8)
    requires
        d < 16,
    ensures
        c == hex_digit(d),
{
    if d < 10 { 48 + d } else { 55 + d }
}

fn push_hex8(out: &mut Vec<u8>, v: u8)
    ensures
        final(out)@ == old(out)@ + hex8(v),
{
    out.push(hex_char(v / 16));
    out.push(hex_char(v % 16));
}

fn push_hex16(out: &mut Vec<u8>, v: u16)
    ensures
        final(out)@ == old(out)@ + hex16(v),
{
    push_hex8(out, (v / 256) as u8);
    push_hex8(out, (v % 256) as u8);
}

fn push_all(out: &mut Vec<u8>, text: &[u8])
    ensures
        final(out)@ == old(out)@ + text@,
{
    let ghost start = out@;
    let mut i: usize = 0;
    while i < text.len()
        invariant
            i <= text@.len(),
            out@ == start + text@.subrange(0, i as int),
        decreases text@.len() - i,
    {
        out.push(text[i]);
        i = i + 1;
        assert(out@ =~= start + text@.subrange(0, i as int));
    }
    assert(text@.subrange(0, text@.len() as int) =~= text@);
}

fn push_spaces(out: &mut Vec<u8>, n: usize)
    ensures
        final(out)@ == old(out)@ + spaces(n as int),
{
    let ghost start = out@;
    let mut i: usize = 0;
    while i < n
        invariant
            i <= n,
            out@ == start + spaces(i as int),
        decreases n - i,
    {
        out.push(' ' as u8);
        i = i + 1;
        assert(out@ =~= start + spaces(i as int));
    }
}

fn push_decimal(out: &mut Vec<u8>, n: u64)
    ensures
        final(out)@ == old(out)@ + decimal(n as nat),
    decreases n,
{
    let ghost start = out@;
    if n >= 10 {
        push_decimal(out, n / 10);
    }
    out.push((48 + n % 10) as u8);
    assert(out@ =~= start + decimal(n as nat));
}

/// Appends `text` after the mark `start`, then spaces up to `width` columns
/// counted from the mark.
fn pad_right_from(out: &mut Vec<u8>, start: usize, width: usize)
    requires
        start <= old(out)@.len(),
    ensures
        final(out)@ == old(out)@.subrange(0, start as int)
            + right_padded(old(out)@.subrange(start as int, old(out)@.len() as int), width as int),
{
    let ghost before = out@;
    let written = out.len() - start;
    if written < width {
        push_spaces(out, width - written);
    } else {
        assert(spaces(width - written) =~= Seq::<u8>::empty());
    }
    assert(out@ =~= before.subrange(0, start as int)
        + right_padded(before.subrange(start as int, before.len() as int), width as int));
}

fn push_left_padded_decimal(out: &mut Vec<u8>, n: u64, width: usize)
    ensures
        final(out)@ == old(out)@ + left_padded(decimal(n as nat), width as int),
{
    let mut digits: Vec<u8> = Vec::new();
    push_decimal(&mut digits, n);
    assert(digits@ =~= decimal(n as nat));
    if digits.len() < width {
        push_spaces(out, width - digits.len());
    } else {
        assert(spaces(width - digits@.len()) =~= Seq::<u8>::empty());
    }
    push_all(out, digits.as_slice());
    assert(out@ =~= old(out)@ + left_padded(decimal(n as nat), width as int));
}

fn push_equals8(out: &mut Vec<u8>, v: u8)
    ensures
        final(out)@ == old(out)@ + equals8(v),
{
    push_all(out, &[' ' as u8, '=' as u8, ' ' as u8]);
    push_hex8(out, v);
    assert(out@ =~= old(out)@ + equals8(v));
}

fn push_equals16(out: &mut Vec<u8>, v: u16)
    ensures
        final(out)@ == old(out)@ + equals16(v),
{
    push_all(out, &[' ' as u8, '=' as u8, ' ' as u8]);
    push_hex16(out, v);
    assert(out@ =~= old(out)@ + equals16(v));
}

fn push_operand(out: &mut Vec<u8>, opcode: u8, d: &Disassembly, p0: u8, p1: u8)
    ensures
        final(out)@ == old(out)@ + operand_text(opcode, *d, p0, p1),
{
    let ghost start = out@;
    match d.mode {
        AdressingMode::Implicit | AdressingMode::NoMode => {},
        AdressingMode::Accumulator => {
            if opcode != 0xAA && opcode != 0x8A {
                out.push('A' as u8);
            }
        },
        AdressingMode::Immediate => {
            push_all(out, &['#' as u8, '$' as u8]);
            push_hex8(out, p0);
        },
        AdressingMode::ZeroPage => {
            push_all(out, &['$' as u8]);
            push_hex8(out, p0);
            push_equals8(out, d.value);
        },
        AdressingMode::ZeroPageX | AdressingMode::ZeroPageY => {
            push_all(out, &['$' as u8]);
            push_hex8(out, p0);
            if d.mode == AdressingMode::ZeroPageX {
                push_all(out, &[',' as u8, 'X' as u8, ' ' as u8, '@' as u8, ' ' as u8]);
            } else {
                push_all(out, &[',' as u8, 'Y' as u8, ' ' as u8, '@' as u8, ' ' as u8]);
            }
            push_hex8(out, d.address as u8);
            push_equals8(out, d.value);
        },
        AdressingMode::Relative => {
            push_all(out, &['$' as u8]);
            push_hex16(out, d.address);
        },
        AdressingMode::Absolute => {
            push_all(out, &['$' as u8]);
            push_hex8(out, p1);
            push_hex8(out, p0);
            if !(opcode == 0x4C || opcode == 0x20) {
                push_equals8(out, d.value);
            }
        },
        AdressingMode::AbsoluteX | AdressingMode::AbsoluteY => {
            push_all(out, &['$' as u8]);
            push_hex8(out, p1);
            push_hex8(out, p0);
            if d.mode == AdressingMode::AbsoluteX {
                push_all(out, &[',' as u8, 'X' as u8, ' ' as u8, '@' as u8, ' ' as u8]);
            } else {
                push_all(out, &[',' as u8, 'Y' as u8, ' ' as u8, '@' as u8, ' ' as u8]);
            }
            push_hex16(out, d.address);
            push_equals8(out, d.value);
        },
        AdressingMode::Indirect => {
            push_all(out, &['(' as u8, '$' as u8]);
            push_hex8(out, p1);
            push_hex8(out, p0);
            push_all(out, &[')' as u8]);
            push_equals16(out, d.address);
        },
        AdressingMode::IndirectX => {
            push_all(out, &['(' as u8, '$' as u8]);
            push_hex8(out, p0);
            push_all(out, &[',' as u8, 'X' as u8, ')' as u8, ' ' as u8, '@' as u8, ' ' as u8]);
            push_hex8(out, d.base as u8);
            push_equals16(out, d.address);
            push_equals8(out, d.value);
        },
        AdressingMode::IndirectY => {
            push_all(out, &['(' as u8, '$' as u8]);
            push_hex8(out, p0);
            push_all(out, &[')' as u8, ',' as u8, 'Y' as u8]);
            push_equals16(out, d.base);
            push_all(out, &[' ' as u8, '@' as u8, ' ' as u8]);
            push_hex16(out, d.address);
            push_equals8(out, d.value);
        },
    }
    assert(out@ =~= start + operand_text(opcode, *d, p0, p1));
}

impl CpuLog {
    /// The trace line, as ASCII bytes.
    pub fn trace_line(&self) -> (line: Vec<u8>)
        ensures
            line@ == trace_text(*self),
    {
        let mut out: Vec<u8> = Vec::new();
        let n = self.parameters.len();
        let p0: u8 = if n > 0 { self.parameters[0] } else { 0 };
        let p1: u8 = if n > 1 { self.parameters[1] } else { 0 };
        push_hex16(&mut out, self.pc);
        push_spaces(&mut out, 2);
        let ghost head = out@;
        let start = out.len();
        push_hex8(&mut out, self.opcode);
        push_all(&mut out, &[' ' as u8]);
        proof { lemma_bytes_text_prefix(seq![self.opcode] + self.parameters@, 0); }
        let mut i: usize = 0;
        while i < n
            invariant
                n == self.parameters@.len(),
                i <= n,
                start == head.len(),
                out@ == head + bytes_text(seq![self.opcode] + self.parameters@)
                    .subrange(0, 3 * (i + 1)),
            decreases n - i,
        {
            proof { lemma_bytes_text_prefix(seq![self.opcode] + self.parameters@, i as int + 1); }
            push_hex8(&mut out, self.parameters[i]);
            push_all(&mut out, &[' ' as u8]);
            i = i + 1;
        }
        proof { lemma_bytes_text_prefix(seq![self.opcode] + self.parameters@, n as int + 1); }
        assert(bytes_text(seq![self.opcode] + self.parameters@).subrange(0, 3 * (n + 1))
            =~= bytes_text(seq![self.opcode] + self.parameters@));
        assert(out@.subrange(0, start as int) =~= head);
        assert(out@.subrange(start as int, out@.len() as int)
            =~= bytes_text(seq![self.opcode] + self.parameters@));
        pad_right_from(&mut out, start, 9);
        push_spaces(&mut out, 1);
        let ghost head2 = out@;
        let start2 = out.len();
        let (m0, m1, m2) = self.disassembly.operation.mnemonic();
        out.push(m0);
        out.push(m1);
        out.push(m2);
        out.push(' ' as u8);
        push_operand(&mut out, self.opcode, &self.disassembly, p0, p1);
        assert(out@.subrange(0, start2 as int) =~= head2);
        assert(out@.subrange(start2 as int, out@.len() as int)
            =~= disassembly_text(self.opcode, self.disassembly, p0, p1));
        pad_right_from(&mut out, start2, 32);
        push_all(&mut out, &['A' as u8, ':' as u8]);
        push_hex8(&mut out, self.a);
        push_all(&mut out, &[' ' as u8, 'X' as u8, ':' as u8]);
        push_hex8(&mut out, self.x);
        push_all(&mut out, &[' ' as u8, 'Y' as u8, ':' as u8]);
        push_hex8(&mut out, self.y);
        push_all(&mut out, &[' ' as u8, 'P' as u8, ':' as u8]);
        push_hex8(&mut out, self.p);
        push_all(&mut out, &[' ' as u8, 'S' as u8, 'P' as u8, ':' as u8]);
        push_hex8(&mut out, self.sp);
        push_all(&mut out, &[' ' as u8, 'P' as u8, 'P' as u8, 'U' as u8, ':' as u8]);
        push_left_padded_decimal(&mut out, self.scanline as u64, 3);
        push_all(&mut out, &[',' as u8]);
        push_left_padded_decimal(&mut out, self.ppu_cycles as u64, 3);
        push_all(&mut out, &[' ' as u8, 'C' as u8, 'Y' as u8, 'C' as u8, ':' as u8]);
        push_decimal(&mut out, self.total_clock);
        assert(out@ =~= trace_text(*self));
        out
    }
}

/// The text of the first `k` bytes: three characters each.
proof fn lemma_bytes_text_prefix(s: Seq<u8>, k: int)
    requires
        0 <= k <= s.len(),
    ensures
        bytes_text(s).len() == 3 * s.len(),
        bytes_text(s).subrange(0, 3 * k) == bytes_text(s.subrange(0, k)),
        k < s.len() ==> bytes_text(s).subrange(0, 3 * (k + 1))
            == bytes_text(s).subrange(0, 3 * k) + hex8(s[k]) + seq![' ' as u8],
    decreases s.len(),
{
    if s.len() == 0 {
        assert(s.subrange(0, k) =~= s);
    } else {
        let t = s.drop_first();
        if k == 0 {
            lemma_bytes_text_prefix(t, 0);
            assert(bytes_text(s.subrange(0, 0)) =~= Seq::<u8>::empty());
            assert(bytes_text(s).subrange(0, 0) =~= Seq::<u8>::empty());
            assert(s.subrange(0, 1).drop_first() =~= Seq::<u8>::empty());
            assert(bytes_text(s).subrange(0, 3) =~= hex8(s[0]) + seq![' ' as u8]);
        } else {
            lemma_bytes_text_prefix(t, k - 1);
            assert(s.subrange(0, k).drop_first() =~= t.subrange(0, k - 1));
            assert(bytes_text(s).subrange(0, 3 * k) =~= hex8(s[0]) + seq![' ' as u8] + bytes_text(t).subrange(0, 3 * (k - 1)));
            if k < s.len() {
                assert(bytes_text(s).subrange(0, 3 * (k + 1)) =~= hex8(s[0]) + seq![' ' as u8]
                    + bytes_text(t).subrange(0, 3 * k));
                assert(t[k - 1] == s[k]);
            }
        }
    }
}

} // verus!
