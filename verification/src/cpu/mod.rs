pub mod enums;
pub mod instructions;
pub mod semantics;
pub mod state;
pub mod trace;
pub mod laws;

use vstd::prelude::*;
use crate::bus::{Bus, BusView, bus_peek, bus_read, bus_written, group_cartridge_tracking};
use enums::{AdressingMode, Flag, Interrupt, flag_bit};
use instructions::{Operation, instruction, instruction_table, mode_bytes, instruction_bytes};
use semantics::{
    op_adc, op_and, op_asl, op_bcc, op_bcs, op_beq, op_bmi, op_bne, op_bpl, op_bvc, op_bvs, op_bit, op_brk, op_clc, op_cld, op_cli, op_clv, op_sec, op_sed, op_sei, op_cmp, op_cpx, op_cpy, op_dec, op_inc, op_dex, op_dey, op_inx, op_iny, op_eor, op_ora, op_jmp, op_jsr, op_lda, op_ldx, op_ldy, op_lsr, op_nop, op_pha, op_php, op_pla, op_plp, op_rol, op_ror, op_rti, op_rts, op_sbc, op_sta, op_stx, op_sty, op_tax, op_tay, op_tsx, op_txa, op_txs, op_tya, op_anc, op_ane, op_arr, op_asr, op_dcp, op_isb, op_las, op_lax, op_lxa, op_rla, op_rra, op_sax, op_sbx, op_sha, op_shs, op_shx, op_shy, op_slo, op_sre, op_jam,
    added, branched, compared, executed, fetched, flag_set, interrupted, irq_taken, nmi_taken, operand, page_crossing,
    popped, pulled_status, pushed, reset_taken, shift_stored, subtracted, with_flag, word, zn, cpu_clocked,
};

verus! {

broadcast use group_cartridge_tracking;

/// The 2A03's 6502 core: its registers and the cycles left before the next
/// instruction.
#[derive(Debug, Clone, Copy, PartialEq, Eq, Structural)]
pub struct Cpu {
    /// Accumulator.
    pub a: u8,
    /// X index.
    pub x: u8,
    /// Y index.
    pub y: u8,
    /// Program counter.
    pub pc: u16,
    /// Stack pointer.
    pub sp: u8,
    /// Status flags.
    pub p: u8,
    /// Cycles left before the next instruction.
    pub cycles: u8,
    /// Whether the instruction being run pays a cycle for a crossed page.
    pub require_add_cycle: bool,
    /// Whether the last indexed addressing crossed a page.
    pub page_crossed: bool,
    pub total_clock: u64,
    pub display_logs: bool,
}

/// What an instruction needs: a well-formed bus, room in the cycle counter,
/// and an addressing mode.
pub open spec fn ready(c: Cpu, b: Bus, mode: AdressingMode) -> bool {
    &&& b.wf()
    &&& c.wf()
    &&& mode != AdressingMode::NoMode
}

/// Whether the bus `b` serves the accesses of a step that leaves it as
/// `after`: a cartridge is inserted, or none of the step's reads and writes
/// reached an address that needs one (RAM, the PPU registers but $2007, the
/// APU and the controllers need none).
pub open spec fn serves(b: Bus, after: BusView) -> bool {
    b.has_cartridge() || !after.cartridge_missed
}

/// What an instruction keeps: the bus well formed, the cartridge inserted
/// or not as before, and at most 7 cycles more to wait.
pub open spec fn done(c: Cpu, c2: Cpu, b: Bus, b2: Bus) -> bool {
    &&& b2.wf()
    &&& b2.has_cartridge() == b.has_cartridge()
    &&& c2.cycles <= c.cycles + 7
}

/// What an interrupt does.
pub open spec fn interrupt_taken(c: Cpu, b: BusView, kind: Interrupt) -> (Cpu, BusView) {
    match kind {
        Interrupt::Nmi => nmi_taken(c, b),
        Interrupt::Irq => irq_taken(c, b),
        Interrupt::Reset => reset_taken(c, b),
    }
}

/// The place of an operation in the order in which `execute` tries them.
spec fn operation_rank(op: Operation) -> int {
    match op {
        Operation::Adc => 0,
        Operation::And => 1,
        Operation::Asl => 2,
        Operation::Bcc => 3,
        Operation::Bcs => 4,
        Operation::Beq => 5,
        Operation::Bmi => 6,
        Operation::Bne => 7,
        Operation::Bpl => 8,
        Operation::Bvc => 9,
        Operation::Bvs => 10,
        Operation::Bit => 11,
        Operation::Brk => 12,
        Operation::Clc => 13,
        Operation::Cld => 14,
        Operation::Cli => 15,
        Operation::Clv => 16,
        Operation::Sec => 17,
        Operation::Sed => 18,
        Operation::Sei => 19,
        Operation::Cmp => 20,
        Operation::Cpx => 21,
        Operation::Cpy => 22,
        Operation::Dec => 23,
        Operation::Inc => 24,
        Operation::Dex => 25,
        Operation::Dey => 26,
        Operation::Inx => 27,
        Operation::Iny => 28,
        Operation::Eor => 29,
        Operation::Ora => 30,
        Operation::Jmp => 31,
        Operation::Jsr => 32,
        Operation::Lda => 33,
        Operation::Ldx => 34,
        Operation::Ldy => 35,
        Operation::Lsr => 36,
        Operation::Nop => 37,
        Operation::Pha => 38,
        Operation::Php => 39,
        Operation::Pla => 40,
        Operation::Plp => 41,
        Operation::Rol => 42,
        Operation::Ror => 43,
        Operation::Rti => 44,
        Operation::Rts => 45,
        Operation::Sbc => 46,
        Operation::Sta => 47,
        Operation::Stx => 48,
        Operation::Sty => 49,
        Operation::Tax => 50,
        Operation::Tay => 51,
        Operation::Tsx => 52,
        Operation::Txa => 53,
        Operation::Txs => 54,
        Operation::Tya => 55,
        Operation::Anc => 56,
        Operation::Ane => 57,
        Operation::Arr => 58,
        Operation::Asr => 59,
        Operation::Dcp => 60,
        Operation::Isb => 61,
        Operation::Las => 62,
        Operation::Lax => 63,
        Operation::Lxa => 64,
        Operation::Rla => 65,
        Operation::Rra => 66,
        Operation::Sax => 67,
        Operation::Sbx => 68,
        Operation::Sha => 69,
        Operation::Shs => 70,
        Operation::Shx => 71,
        Operation::Shy => 72,
        Operation::Slo => 73,
        Operation::Sre => 74,
        Operation::Jam => 75,
    }
}

fn make_word(lo: u8, hi: u8) -> (w: u16)
    ensures
        w == word(lo, hi),
{
    lo as u16 + hi as u16 * 256
}

fn high_plus_one(address: u16) -> (h: u8)
    ensures
        h == semantics::high_plus_one(address),
{
    let high = (address & 0xFF00) >> 8u16;
    proof { crate::bits::lemma_word_masks(); }
    assert((address & 0xFF00) >> 8u16 <= 255);
    (high + 1) as u8
}

fn page_replaced(address: u16, r: u8) -> (a: u16)
    ensures
        a == ((address & 0x00FF) + (r as u16) * 256) as u16,
{
    proof { crate::bits::lemma_word_masks(); }
    assert(address & 0x00FF <= 255);
    (address & 0x00FF) + (r as u16) * 256
}

/// The addressing keeps a note of a cartridge access made without one.
proof fn lemma_fetched_keeps_missed(c: Cpu, b: BusView, mode: AdressingMode)
    requires
        b.cartridge_missed,
    ensures
        fetched(c, b, mode).1.cartridge_missed,
{
    reveal(fetched);
}

/// An operation keeps a note of a cartridge access made without one.
proof fn lemma_executed_keeps_missed(c: Cpu, b: BusView, op: Operation, mode: AdressingMode)
    requires
        b.cartridge_missed,
    ensures
        executed(c, b, op, mode).1.cartridge_missed,
{
    lemma_fetched_keeps_missed(c, b, mode);
    lemma_fetched_keeps_missed(c, b, AdressingMode::Relative);
    reveal(branched);
    match op {
        Operation::Adc => {
            reveal(op_adc);
            assert(executed(c, b, op, mode).1.cartridge_missed);
        },
        Operation::And => {
            reveal(op_and);
            assert(executed(c, b, op, mode).1.cartridge_missed);
        },
        Operation::Asl => {
            reveal(op_asl);
            assert(executed(c, b, op, mode).1.cartridge_missed);
        },
        Operation::Bcc => {
            reveal(op_bcc);
            assert(executed(c, b, op, mode).1.cartridge_missed);
        },
        Operation::Bcs => {
            reveal(op_bcs);
            assert(executed(c, b, op, mode).1.cartridge_missed);
        },
        Operation::Beq => {
            reveal(op_beq);
            assert(executed(c, b, op, mode).1.cartridge_missed);
        },
        Operation::Bmi => {
            reveal(op_bmi);
            assert(executed(c, b, op, mode).1.cartridge_missed);
        },
        Operation::Bne => {
            reveal(op_bne);
            assert(executed(c, b, op, mode).1.cartridge_missed);
        },
        Operation::Bpl => {
            reveal(op_bpl);
            assert(executed(c, b, op, mode).1.cartridge_missed);
        },
        Operation::Bvc => {
            reveal(op_bvc);
            assert(executed(c, b, op, mode).1.cartridge_missed);
        },
        Operation::Bvs => {
            reveal(op_bvs);
            assert(executed(c, b, op, mode).1.cartridge_missed);
        },
        Operation::Bit => {
            reveal(op_bit);
            assert(executed(c, b, op, mode).1.cartridge_missed);
        },
        Operation::Brk => {
            reveal(op_brk);
            reveal(irq_taken);
            assert(executed(c, b, op, mode).1.cartridge_missed);
        },
        Operation::Clc => {
            reveal(op_clc);
            assert(executed(c, b, op, mode).1.cartridge_missed);
        },
        Operation::Cld => {
            reveal(op_cld);
            assert(executed(c, b, op, mode).1.cartridge_missed);
        },
        Operation::Cli => {
            reveal(op_cli);
            assert(executed(c, b, op, mode).1.cartridge_missed);
        },
        Operation::Clv => {
            reveal(op_clv);
            assert(executed(c, b, op, mode).1.cartridge_missed);
        },
        Operation::Sec => {
            reveal(op_sec);
            assert(executed(c, b, op, mode).1.cartridge_missed);
        },
        Operation::Sed => {
            reveal(op_sed);
            assert(executed(c, b, op, mode).1.cartridge_missed);
        },
        Operation::Sei => {
            reveal(op_sei);
            assert(executed(c, b, op, mode).1.cartridge_missed);
        },
        Operation::Cmp => {
            reveal(op_cmp);
            assert(executed(c, b, op, mode).1.cartridge_missed);
        },
        Operation::Cpx => {
            reveal(op_cpx);
            assert(executed(c, b, op, mode).1.cartridge_missed);
        },
        Operation::Cpy => {
            reveal(op_cpy);
            assert(executed(c, b, op, mode).1.cartridge_missed);
        },
        Operation::Dec => {
            reveal(op_dec);
            assert(executed(c, b, op, mode).1.cartridge_missed);
        },
        Operation::Inc => {
            reveal(op_inc);
            assert(executed(c, b, op, mode).1.cartridge_missed);
        },
        Operation::Dex => {
            reveal(op_dex);
            assert(executed(c, b, op, mode).1.cartridge_missed);
        },
        Operation::Dey => {
            reveal(op_dey);
            assert(executed(c, b, op, mode).1.cartridge_missed);
        },
        Operation::Inx => {
            reveal(op_inx);
            assert(executed(c, b, op, mode).1.cartridge_missed);
        },
        Operation::Iny => {
            reveal(op_iny);
            assert(executed(c, b, op, mode).1.cartridge_missed);
        },
        Operation::Eor => {
            reveal(op_eor);
            assert(executed(c, b, op, mode).1.cartridge_missed);
        },
        Operation::Ora => {
            reveal(op_ora);
            assert(executed(c, b, op, mode).1.cartridge_missed);
        },
        Operation::Jmp => {
            reveal(op_jmp);
            assert(executed(c, b, op, mode).1.cartridge_missed);
        },
        Operation::Jsr => {
            reveal(op_jsr);
            assert(executed(c, b, op, mode).1.cartridge_missed);
        },
        Operation::Lda => {
            reveal(op_lda);
            assert(executed(c, b, op, mode).1.cartridge_missed);
        },
        Operation::Ldx => {
            reveal(op_ldx);
            assert(executed(c, b, op, mode).1.cartridge_missed);
        },
        Operation::Ldy => {
            reveal(op_ldy);
            assert(executed(c, b, op, mode).1.cartridge_missed);
        },
        Operation::Lsr => {
            reveal(op_lsr);
            assert(executed(c, b, op, mode).1.cartridge_missed);
        },
        Operation::Nop => {
            reveal(op_nop);
            assert(executed(c, b, op, mode).1.cartridge_missed);
        },
        Operation::Pha => {
            reveal(op_pha);
            assert(executed(c, b, op, mode).1.cartridge_missed);
        },
        Operation::Php => {
            reveal(op_php);
            assert(executed(c, b, op, mode).1.cartridge_missed);
        },
        Operation::Pla => {
            reveal(op_pla);
            assert(executed(c, b, op, mode).1.cartridge_missed);
        },
        Operation::Plp => {
            reveal(op_plp);
            assert(executed(c, b, op, mode).1.cartridge_missed);
        },
        Operation::Rol => {
            reveal(op_rol);
            assert(executed(c, b, op, mode).1.cartridge_missed);
        },
        Operation::Ror => {
            reveal(op_ror);
            assert(executed(c, b, op, mode).1.cartridge_missed);
        },
        Operation::Rti => {
            reveal(op_rti);
            assert(executed(c, b, op, mode).1.cartridge_missed);
        },
        Operation::Rts => {
            reveal(op_rts);
            assert(executed(c, b, op, mode).1.cartridge_missed);
        },
        Operation::Sbc => {
            reveal(op_sbc);
            assert(executed(c, b, op, mode).1.cartridge_missed);
        },
        Operation::Sta => {
            reveal(op_sta);
            assert(executed(c, b, op, mode).1.cartridge_missed);
        },
        Operation::Stx => {
            reveal(op_stx);
            assert(executed(c, b, op, mode).1.cartridge_missed);
        },
        Operation::Sty => {
            reveal(op_sty);
            assert(executed(c, b, op, mode).1.cartridge_missed);
        },
        Operation::Tax => {
            reveal(op_tax);
            assert(executed(c, b, op, mode).1.cartridge_missed);
        },
        Operation::Tay => {
            reveal(op_tay);
            assert(executed(c, b, op, mode).1.cartridge_missed);
        },
        Operation::Tsx => {
            reveal(op_tsx);
            assert(executed(c, b, op, mode).1.cartridge_missed);
        },
        Operation::Txa => {
            reveal(op_txa);
            assert(executed(c, b, op, mode).1.cartridge_missed);
        },
        Operation::Txs => {
            reveal(op_txs);
            assert(executed(c, b, op, mode).1.cartridge_missed);
        },
        Operation::Tya => {
            reveal(op_tya);
            assert(executed(c, b, op, mode).1.cartridge_missed);
        },
        Operation::Anc => {
            reveal(op_anc);
            assert(executed(c, b, op, mode).1.cartridge_missed);
        },
        Operation::Ane => {
            reveal(op_ane);
            lemma_fetched_keeps_missed(Cpu { a: c.x, ..c }, b, mode);
            assert(executed(c, b, op, mode).1.cartridge_missed);
        },
        Operation::Arr => {
            reveal(op_arr);
            assert(executed(c, b, op, mode).1.cartridge_missed);
        },
        Operation::Asr => {
            reveal(op_asr);
            assert(executed(c, b, op, mode).1.cartridge_missed);
        },
        Operation::Dcp => {
            reveal(op_dcp);
            assert(executed(c, b, op, mode).1.cartridge_missed);
        },
        Operation::Isb => {
            reveal(op_isb);
            assert(executed(c, b, op, mode).1.cartridge_missed);
        },
        Operation::Las => {
            reveal(op_las);
            assert(executed(c, b, op, mode).1.cartridge_missed);
        },
        Operation::Lax => {
            reveal(op_lax);
            assert(executed(c, b, op, mode).1.cartridge_missed);
        },
        Operation::Lxa => {
            reveal(op_lxa);
            assert(executed(c, b, op, mode).1.cartridge_missed);
        },
        Operation::Rla => {
            reveal(op_rla);
            assert(executed(c, b, op, mode).1.cartridge_missed);
        },
        Operation::Rra => {
            reveal(op_rra);
            assert(executed(c, b, op, mode).1.cartridge_missed);
        },
        Operation::Sax => {
            reveal(op_sax);
            assert(executed(c, b, op, mode).1.cartridge_missed);
        },
        Operation::Sbx => {
            reveal(op_sbx);
            assert(executed(c, b, op, mode).1.cartridge_missed);
        },
        Operation::Sha => {
            reveal(op_sha);
            assert(executed(c, b, op, mode).1.cartridge_missed);
        },
        Operation::Shs => {
            reveal(op_shs);
            assert(executed(c, b, op, mode).1.cartridge_missed);
        },
        Operation::Shx => {
            reveal(op_shx);
            assert(executed(c, b, op, mode).1.cartridge_missed);
        },
        Operation::Shy => {
            reveal(op_shy);
            assert(executed(c, b, op, mode).1.cartridge_missed);
        },
        Operation::Slo => {
            reveal(op_slo);
            assert(executed(c, b, op, mode).1.cartridge_missed);
        },
        Operation::Sre => {
            reveal(op_sre);
            assert(executed(c, b, op, mode).1.cartridge_missed);
        },
        Operation::Jam => {
            reveal(op_jam);
            assert(executed(c, b, op, mode).1.cartridge_missed);
        },
    }
}

impl Cpu {
    /// Room in the cycle counter for the cycles of an instruction, which the
    /// instruction functions add to it (`clock` starts an instruction only
    /// when the counter is at zero).
    pub open spec fn wf(&self) -> bool {
        self.cycles <= 200
    }

    /// The CPU at power-up: registers cleared, status $34.
    pub open spec fn new_spec(display_logs: bool) -> Cpu {
        Cpu {
            a: 0,
            x: 0,
            y: 0,
            pc: 0,
            sp: 0,
            p: 0x34,
            cycles: 0,
            require_add_cycle: false,
            page_crossed: false,
            total_clock: 0,
            display_logs,
        }
    }

    /// A CPU at power-up: registers cleared, status $34.
    pub fn new(display_logs: bool) -> (c: Self)
        ensures
            c == Cpu::new_spec(display_logs),
            c == (Cpu {
                a: 0,
                x: 0,
                y: 0,
                pc: 0,
                sp: 0,
                p: 0x34,
                cycles: 0,
                require_add_cycle: false,
                page_crossed: false,
                total_clock: 0,
                display_logs,
            }),
    {
        Cpu {
            a: 0,
            x: 0,
            y: 0,
            pc: 0,
            sp: 0,
            p: 0x34,
            cycles: 0,
            require_add_cycle: false,
            page_crossed: false,
            total_clock: 0,
            display_logs,
        }
    }

    /// The CPU that a saved state restores, with a given logging choice.
    pub open spec fn from_state_spec(state: &state::CpuState, display_logs: bool) -> Cpu {
        Cpu {
            a: state.a,
            x: state.x,
            y: state.y,
            pc: state.pc,
            sp: state.sp,
            p: state.p,
            cycles: state.cycles,
            require_add_cycle: state.require_add_cycle,
            page_crossed: state.page_crossed,
            total_clock: state.total_clock,
            display_logs,
        }
    }

    /// A CPU restored from a saved state; the logging choice is the given one.
    pub fn from_state(state: &state::CpuState, display_logs: bool) -> (c: Self)
        ensures
            c == Cpu::from_state_spec(state, display_logs),
            c == (Cpu {
                a: state.a,
                x: state.x,
                y: state.y,
                pc: state.pc,
                sp: state.sp,
                p: state.p,
                cycles: state.cycles,
                require_add_cycle: state.require_add_cycle,
                page_crossed: state.page_crossed,
                total_clock: state.total_clock,
                display_logs,
            }),
    {
        Cpu {
            a: state.a,
            x: state.x,
            y: state.y,
            pc: state.pc,
            sp: state.sp,
            p: state.p,
            cycles: state.cycles,
            require_add_cycle: state.require_add_cycle,
            page_crossed: state.page_crossed,
            total_clock: state.total_clock,
            display_logs,
        }
    }

    fn read_bus(&self, bus: &mut Bus, address: u16) -> (v: u8)
        requires
            old(bus).wf(),
            serves(*old(bus), bus_read(old(bus)@, address).0),
        ensures
            final(bus).wf(),
            final(bus).has_cartridge() == old(bus).has_cartridge(),
            (final(bus)@, v) == bus_read(old(bus)@, address),
    {
        bus.read(address)
    }

    fn write_bus(&self, bus: &mut Bus, address: u16, data: u8)
        requires
            old(bus).wf(),
            serves(*old(bus), bus_written(old(bus)@, address, data)),
        ensures
            final(bus).wf(),
            final(bus).has_cartridge() == old(bus).has_cartridge(),
            final(bus)@ == bus_written(old(bus)@, address, data),
    {
        bus.write(address, data)
    }

    fn push_to_stack(&mut self, bus: &mut Bus, data: u8)
        requires
            old(bus).wf(),
        ensures
            final(bus).wf(),
            final(bus).has_cartridge() == old(bus).has_cartridge(),
            (*final(self), final(bus)@) == pushed(*old(self), old(bus)@, data),
    {
        let address: u16 = 0x100 + self.sp as u16;
        self.write_bus(bus, address, data);
        self.sp = self.sp.wrapping_sub(1);
    }

    fn pop_from_stack(&mut self, bus: &mut Bus) -> (v: u8)
        requires
            old(bus).wf(),
        ensures
            final(bus).wf(),
            final(bus).has_cartridge() == old(bus).has_cartridge(),
            (*final(self), final(bus)@, v) == popped(*old(self), old(bus)@),
    {
        self.sp = self.sp.wrapping_add(1);
        let address: u16 = 0x100 + self.sp as u16;
        self.read_bus(bus, address)
    }

    fn get_flag(&self, flag: Flag) -> (b: bool)
        ensures
            b == flag_set(self.p, flag),
    {
        self.p & flag.bit() != 0
    }

    fn set_flag(&mut self, flag: Flag, value: bool)
        ensures
            *final(self) == (Cpu { p: with_flag(old(self).p, flag, value), ..*old(self) }),
    {
        if value {
            self.p = self.p | flag.bit();
        } else {
            self.p = self.p & !flag.bit();
        }
    }

    fn set_zn(&mut self, v: u8)
        ensures
            *final(self) == (Cpu { p: zn(old(self).p, v), ..*old(self) }),
    {
        self.set_flag(Flag::Zero, v == 0);
        self.set_flag(Flag::Negative, v & 0x80 != 0);
    }

    fn compare(&mut self, reg: u8, m: u8)
        ensures
            *final(self) == (Cpu { p: compared(old(self).p, reg, m), ..*old(self) }),
    {
        let d = reg.wrapping_sub(m);
        self.set_flag(Flag::Zero, d == 0);
        self.set_flag(Flag::Carry, reg >= m);
        self.set_flag(Flag::Negative, d & 0x80 != 0);
    }

    fn pull_status(&mut self, s: u8)
        ensures
            *final(self) == (Cpu { p: pulled_status(old(self).p, s), ..*old(self) }),
    {
        self.set_flag(Flag::Carry, s & Flag::Carry.bit() != 0);
        self.set_flag(Flag::Zero, s & Flag::Zero.bit() != 0);
        self.set_flag(Flag::InterruptDisable, s & Flag::InterruptDisable.bit() != 0);
        self.set_flag(Flag::Decimal, s & Flag::Decimal.bit() != 0);
        self.set_flag(Flag::Unused, true);
        self.set_flag(Flag::Overflow, s & Flag::Overflow.bit() != 0);
        self.set_flag(Flag::Negative, s & Flag::Negative.bit() != 0);
    }

    fn add_to_accumulator(&mut self, m: u8, v_operand: u8)
        ensures
            *final(self) == added(*old(self), m, v_operand),
    {
        let carry: u16 = if self.get_flag(Flag::Carry) { 1 } else { 0 };
        let sum: u16 = self.a as u16 + m as u16 + carry;
        let previous = self.a;
        let r = (sum % 256) as u8;
        self.a = r;
        self.set_flag(Flag::Carry, sum > 255);
        self.set_zn(r);
        self.set_flag(Flag::Overflow, (previous ^ v_operand) & 0x80 == 0 && (previous ^ r) & 0x80 == 0x80);
    }

    fn subtract_from_accumulator(&mut self, m: u8)
        ensures
            *final(self) == subtracted(*old(self), m),
    {
        let carry: u16 = if self.get_flag(Flag::Carry) { 1 } else { 0 };
        let sum: u16 = self.a as u16 + (m ^ 0xFF) as u16 + carry;
        let previous = self.a;
        let r = (sum % 256) as u8;
        self.a = r;
        self.set_flag(Flag::Carry, sum > 255);
        self.set_zn(r);
        self.set_flag(Flag::Overflow, (previous ^ m) & (previous ^ r) & 0x80 == 0x80);
    }

    fn store_shifted(&mut self, bus: &mut Bus, mode: AdressingMode, address: u16, r: u8)
        requires
            old(bus).wf(),
            serves(*old(bus), shift_stored(*old(self), old(bus)@, mode, address, r, old(self).p).1),
        ensures
            final(bus).wf(),
            final(bus).has_cartridge() == old(bus).has_cartridge(),
            (*final(self), final(bus)@) == shift_stored(*old(self), old(bus)@, mode, address, r, old(self).p),
    {
        if mode == AdressingMode::Accumulator {
            self.a = r;
        } else {
            self.write_bus(bus, address, r);
        }
    }

    fn cross_page(&mut self, bus: &mut Bus, base: u16, result: u16)
        requires
            old(bus).wf(),
            serves(*old(bus), page_crossing(*old(self), old(bus)@, base, result).1),
            old(self).cycles < 255,
        ensures
            final(bus).wf(),
            final(bus).has_cartridge() == old(bus).has_cartridge(),
            (*final(self), final(bus)@) == page_crossing(*old(self), old(bus)@, base, result),
    {
        if result & 0xFF00 != base & 0xFF00 {
            if self.require_add_cycle {
                self.cycles = self.cycles + 1;
            }
            self.read_bus(bus, (base & 0xFF00) | (result & 0x00FF));
            self.page_crossed = true;
        }
    }

    /// Addresses the operand of the instruction at PC in the given mode:
    /// moves PC past the operand bytes and returns the operand's address
    /// (the accumulator's value in accumulator mode).
    fn fetch_address(&mut self, bus: &mut Bus, mode: AdressingMode) -> (address: u16)
        requires
            old(bus).wf(),
            serves(*old(bus), fetched(*old(self), old(bus)@, mode).1),
            old(self).cycles < 255,
            mode != AdressingMode::NoMode,
        ensures
            final(bus).wf(),
            final(bus).has_cartridge() == old(bus).has_cartridge(),
            (*final(self), final(bus)@, address) == fetched(*old(self), old(bus)@, mode),
            final(self).cycles <= old(self).cycles + 1,
            mode != AdressingMode::AbsoluteX && mode != AdressingMode::AbsoluteY && mode != AdressingMode::IndirectY
                ==> final(self).cycles == old(self).cycles,
    {
        proof { reveal(fetched); }
        if mode == AdressingMode::ZeroPage || mode == AdressingMode::ZeroPageX || mode == AdressingMode::ZeroPageY {
            self.fetch_zero_page(bus, mode)
        } else if mode == AdressingMode::Absolute || mode == AdressingMode::AbsoluteX || mode == AdressingMode::AbsoluteY {
            self.fetch_absolute(bus, mode)
        } else if mode == AdressingMode::Indirect || mode == AdressingMode::IndirectX || mode == AdressingMode::IndirectY {
            self.fetch_indirect(bus, mode)
        } else {
            self.page_crossed = false;
            if mode == AdressingMode::Accumulator {
                self.a as u16
            } else if mode == AdressingMode::Implicit {
                0
            } else {
                self.pc = self.pc.wrapping_add(1);
                self.pc
            }
        }
    }

    fn fetch_zero_page(&mut self, bus: &mut Bus, mode: AdressingMode) -> (address: u16)
        requires
            old(bus).wf(),
            serves(*old(bus), fetched(*old(self), old(bus)@, mode).1),
            old(self).cycles < 255,
            mode == AdressingMode::ZeroPage || mode == AdressingMode::ZeroPageX || mode == AdressingMode::ZeroPageY,
        ensures
            final(bus).wf(),
            final(bus).has_cartridge() == old(bus).has_cartridge(),
            (*final(self), final(bus)@, address) == fetched(*old(self), old(bus)@, mode),
            final(self).cycles == old(self).cycles,
    {
        proof { reveal(fetched); }
        self.page_crossed = false;
        self.pc = self.pc.wrapping_add(1);
        let z = self.read_bus(bus, self.pc);
        if mode == AdressingMode::ZeroPage {
            z as u16
        } else if mode == AdressingMode::ZeroPageX {
            (z as u16 + self.x as u16) % 0x100
        } else {
            if z as u16 + self.y as u16 >= 0x100 {
                self.read_bus(bus, ((z as u16) & 0xFF00) | ((z as u16).wrapping_add(self.x as u16) & 0x00FF));
            }
            (z as u16 + self.y as u16) % 0x100
        }
    }

    fn fetch_absolute(&mut self, bus: &mut Bus, mode: AdressingMode) -> (address: u16)
        requires
            old(bus).wf(),
            serves(*old(bus), fetched(*old(self), old(bus)@, mode).1),
            old(self).cycles < 255,
            mode == AdressingMode::Absolute || mode == AdressingMode::AbsoluteX || mode == AdressingMode::AbsoluteY,
        ensures
            final(bus).wf(),
            final(bus).has_cartridge() == old(bus).has_cartridge(),
            (*final(self), final(bus)@, address) == fetched(*old(self), old(bus)@, mode),
            final(self).cycles <= old(self).cycles + 1,
            mode == AdressingMode::Absolute ==> final(self).cycles == old(self).cycles,
    {
        proof { reveal(fetched); }
        self.page_crossed = false;
        self.pc = self.pc.wrapping_add(1);
        let lo = self.read_bus(bus, self.pc);
        self.pc = self.pc.wrapping_add(1);
        let hi = self.read_bus(bus, self.pc);
        let base = make_word(lo, hi);
        if mode == AdressingMode::Absolute {
            base
        } else {
            let index = if mode == AdressingMode::AbsoluteX { self.x } else { self.y };
            let result = base.wrapping_add(index as u16);
            self.cross_page(bus, base, result);
            result
        }
    }

    fn fetch_indirect(&mut self, bus: &mut Bus, mode: AdressingMode) -> (address: u16)
        requires
            old(bus).wf(),
            serves(*old(bus), fetched(*old(self), old(bus)@, mode).1),
            old(self).cycles < 255,
            mode == AdressingMode::Indirect || mode == AdressingMode::IndirectX || mode == AdressingMode::IndirectY,
        ensures
            final(bus).wf(),
            final(bus).has_cartridge() == old(bus).has_cartridge(),
            (*final(self), final(bus)@, address) == fetched(*old(self), old(bus)@, mode),
            final(self).cycles <= old(self).cycles + 1,
            mode != AdressingMode::IndirectY ==> final(self).cycles == old(self).cycles,
    {
        proof { reveal(fetched); }
        self.page_crossed = false;
        self.pc = self.pc.wrapping_add(1);
        if mode == AdressingMode::Indirect {
            let lo = self.read_bus(bus, self.pc);
            self.pc = self.pc.wrapping_add(1);
            let hi = self.read_bus(bus, self.pc);
            let ptr = make_word(lo, hi);
            let target_lo = self.read_bus(bus, ptr);
            let next: u16 = if lo == 0xFF { ptr & 0xFF00 } else { ptr + 1 };
            let target_hi = self.read_bus(bus, next);
            make_word(target_lo, target_hi)
        } else if mode == AdressingMode::IndirectX {
            let z = self.read_bus(bus, self.pc);
            let ptr_lo: u16 = (z as u16 + self.x as u16) % 0x100;
            let ptr_hi: u16 = (ptr_lo + 1) % 0x100;
            let lo = self.read_bus(bus, ptr_lo);
            let hi = self.read_bus(bus, ptr_hi);
            make_word(lo, hi)
        } else {
            let z = self.read_bus(bus, self.pc);
            let ptr_lo: u16 = z as u16;
            let ptr_hi: u16 = (ptr_lo + 1) % 0x100;
            let lo = self.read_bus(bus, ptr_lo);
            let hi = self.read_bus(bus, ptr_hi);
            let base = make_word(lo, hi);
            let result = base.wrapping_add(self.y as u16);
            self.cross_page(bus, base, result);
            result
        }
    }

    fn fetch_operand(&mut self, bus: &mut Bus, mode: AdressingMode) -> (r: (u16, u8))
        requires
            old(bus).wf(),
            serves(*old(bus), operand(*old(self), old(bus)@, mode).1),
            old(self).cycles < 255,
            mode != AdressingMode::NoMode,
        ensures
            final(bus).wf(),
            final(bus).has_cartridge() == old(bus).has_cartridge(),
            (*final(self), final(bus)@, r.0, r.1) == operand(*old(self), old(bus)@, mode),
            final(self).cycles <= old(self).cycles + 1,
    {
        let address = self.fetch_address(bus, mode);
        let data = self.read_bus(bus, address);
        (address, data)
    }

    fn branch(&mut self, bus: &mut Bus, taken: bool)
        requires
            old(bus).wf(),
            serves(*old(bus), branched(*old(self), old(bus)@, taken).1),
            old(self).cycles <= 200,
        ensures
            final(bus).wf(),
            final(bus).has_cartridge() == old(bus).has_cartridge(),
            (*final(self), final(bus)@) == branched(*old(self), old(bus)@, taken),
            final(self).cycles <= old(self).cycles + 2,
    {
        proof { reveal(branched); }
        let address = self.fetch_address(bus, AdressingMode::Relative);
        if taken {
            let d = self.read_bus(bus, address);
            let offset: u16 = if d < 128 { d as u16 } else { d as u16 + 0xFF00 };
            let target = self.pc.wrapping_add(offset);
            let reference = self.pc.wrapping_add(1) & 0xFF00;
            let extra: u8 = if target.wrapping_add(1) & 0xFF00 != reference { 2 } else { 1 };
            self.cycles = self.cycles + extra;
            self.pc = target;
        }
    }

    fn vectored_interrupt(&mut self, bus: &mut Bus, vector: u16)
        requires
            old(bus).wf(),
            serves(*old(bus), interrupted(*old(self), old(bus)@, vector).1),
            vector <= 0xFFFE,
        ensures
            final(bus).wf(),
            final(bus).has_cartridge() == old(bus).has_cartridge(),
            (*final(self), final(bus)@) == interrupted(*old(self), old(bus)@, vector),
    {
        let pc = self.pc;
        let p = self.p;
        self.push_to_stack(bus, (pc >> 8u16) as u8);
        self.push_to_stack(bus, (pc & 0x00FF) as u8);
        self.push_to_stack(bus, p);
        self.set_flag(Flag::InterruptDisable, true);
        let lo = self.read_bus(bus, vector);
        let hi = self.read_bus(bus, vector + 1);
        self.pc = make_word(lo, hi);
        self.cycles = 7;
    }

    /// Takes an interrupt: an NMI or an IRQ (ignored while interrupts are
    /// disabled) push PC and status and jump through their vector; a reset
    /// moves the stack pointer down by 3 and jumps through the reset vector.
    pub fn interrupt(&mut self, bus: &mut Bus, interrupt_type: Interrupt)
        requires
            old(bus).wf(),
            serves(*old(bus), interrupt_taken(*old(self), old(bus)@, interrupt_type).1),
        ensures
            final(bus).wf(),
            final(bus).has_cartridge() == old(bus).has_cartridge(),
            (*final(self), final(bus)@) == interrupt_taken(*old(self), old(bus)@, interrupt_type),
            final(self).cycles == 7 || *final(self) == *old(self),
    {
        proof {
            reveal(nmi_taken);
            reveal(irq_taken);
            reveal(reset_taken);
        }
        match interrupt_type {
            Interrupt::Nmi => self.vectored_interrupt(bus, 0xFFFA),
            Interrupt::Irq => {
                if !self.get_flag(Flag::InterruptDisable) {
                    self.vectored_interrupt(bus, 0xFFFE);
                }
            },
            Interrupt::Reset => {
                self.sp = self.sp.wrapping_sub(3);
                self.set_flag(Flag::InterruptDisable, true);
                let lo = self.read_bus(bus, 0xFFFC);
                let hi = self.read_bus(bus, 0xFFFD);
                self.pc = make_word(lo, hi);
                self.cycles = 7;
            },
        }
    }

    /// The reset button: a reset interrupt.
    pub fn reset(&mut self, bus: &mut Bus)
        requires
            old(bus).wf(),
            old(bus).has_cartridge(),
        ensures
            final(bus).wf(),
            final(bus).has_cartridge() == old(bus).has_cartridge(),
            (*final(self), final(bus)@) == reset_taken(*old(self), old(bus)@),
            final(self).cycles == 7,
    {
        proof { reveal(reset_taken); }
        self.interrupt(bus, Interrupt::Reset);
    }

    /// Moves the program counter.
    pub fn set_program_counter_at(&mut self, address: u16)
        ensures
            *final(self) == (Cpu { pc: address, ..*old(self) }),
    {
        self.pc = address;
    }

    fn execute(&mut self, bus: &mut Bus, op: Operation, mode: AdressingMode)
        requires
            ready(*old(self), *old(bus), mode),
            serves(*old(bus), executed(*old(self), old(bus)@, op, mode).1),
        ensures
            done(*old(self), *final(self), *old(bus), *final(bus)),
            (*final(self), final(bus)@) == executed(*old(self), old(bus)@, op, mode),
    {
        match op {
            Operation::Adc => self.adc(bus, mode),
            Operation::And => self.and(bus, mode),
            Operation::Asl => self.asl(bus, mode),
            Operation::Bcc => self.bcc(bus, mode),
            Operation::Bcs => self.bcs(bus, mode),
            Operation::Beq => self.beq(bus, mode),
            _ => self.execute_from_1(bus, op, mode),
        }
    }

    fn execute_from_1(&mut self, bus: &mut Bus, op: Operation, mode: AdressingMode)
        requires
            ready(*old(self), *old(bus), mode),
            serves(*old(bus), executed(*old(self), old(bus)@, op, mode).1),
            operation_rank(op) >= 6,
        ensures
            done(*old(self), *final(self), *old(bus), *final(bus)),
            (*final(self), final(bus)@) == executed(*old(self), old(bus)@, op, mode),
    {
        match op {
            Operation::Bmi => self.bmi(bus, mode),
            Operation::Bne => self.bne(bus, mode),
            Operation::Bpl => self.bpl(bus, mode),
            Operation::Bvc => self.bvc(bus, mode),
            Operation::Bvs => self.bvs(bus, mode),
            Operation::Bit => self.bit(bus, mode),
            _ => self.execute_from_2(bus, op, mode),
        }
    }

    fn execute_from_2(&mut self, bus: &mut Bus, op: Operation, mode: AdressingMode)
        requires
            ready(*old(self), *old(bus), mode),
            serves(*old(bus), executed(*old(self), old(bus)@, op, mode).1),
            operation_rank(op) >= 12,
        ensures
            done(*old(self), *final(self), *old(bus), *final(bus)),
            (*final(self), final(bus)@) == executed(*old(self), old(bus)@, op, mode),
    {
        match op {
            Operation::Brk => self.brk(bus, mode),
            Operation::Clc => self.clc(bus, mode),
            Operation::Cld => self.cld(bus, mode),
            Operation::Cli => self.cli(bus, mode),
            Operation::Clv => self.clv(bus, mode),
            Operation::Sec => self.sec(bus, mode),
            _ => self.execute_from_3(bus, op, mode),
        }
    }

    fn execute_from_3(&mut self, bus: &mut Bus, op: Operation, mode: AdressingMode)
        requires
            ready(*old(self), *old(bus), mode),
            serves(*old(bus), executed(*old(self), old(bus)@, op, mode).1),
            operation_rank(op) >= 18,
        ensures
            done(*old(self), *final(self), *old(bus), *final(bus)),
            (*final(self), final(bus)@) == executed(*old(self), old(bus)@, op, mode),
    {
        match op {
            Operation::Sed => self.sed(bus, mode),
            Operation::Sei => self.sei(bus, mode),
            Operation::Cmp => self.cmp(bus, mode),
            Operation::Cpx => self.cpx(bus, mode),
            Operation::Cpy => self.cpy(bus, mode),
            Operation::Dec => self.dec(bus, mode),
            _ => self.execute_from_4(bus, op, mode),
        }
    }

    fn execute_from_4(&mut self, bus: &mut Bus, op: Operation, mode: AdressingMode)
        requires
            ready(*old(self), *old(bus), mode),
            serves(*old(bus), executed(*old(self), old(bus)@, op, mode).1),
            operation_rank(op) >= 24,
        ensures
            done(*old(self), *final(self), *old(bus), *final(bus)),
            (*final(self), final(bus)@) == executed(*old(self), old(bus)@, op, mode),
    {
        match op {
            Operation::Inc => self.inc(bus, mode),
            Operation::Dex => self.dex(bus, mode),
            Operation::Dey => self.dey(bus, mode),
            Operation::Inx => self.inx(bus, mode),
            Operation::Iny => self.iny(bus, mode),
            Operation::Eor => self.eor(bus, mode),
            _ => self.execute_from_5(bus, op, mode),
        }
    }

    fn execute_from_5(&mut self, bus: &mut Bus, op: Operation, mode: AdressingMode)
        requires
            ready(*old(self), *old(bus), mode),
            serves(*old(bus), executed(*old(self), old(bus)@, op, mode).1),
            operation_rank(op) >= 30,
        ensures
            done(*old(self), *final(self), *old(bus), *final(bus)),
            (*final(self), final(bus)@) == executed(*old(self), old(bus)@, op, mode),
    {
        match op {
            Operation::Ora => self.ora(bus, mode),
            Operation::Jmp => self.jmp(bus, mode),
            Operation::Jsr => self.jsr(bus, mode),
            Operation::Lda => self.lda(bus, mode),
            Operation::Ldx => self.ldx(bus, mode),
            Operation::Ldy => self.ldy(bus, mode),
            _ => self.execute_from_6(bus, op, mode),
        }
    }

    fn execute_from_6(&mut self, bus: &mut Bus, op: Operation, mode: AdressingMode)
        requires
            ready(*old(self), *old(bus), mode),
            serves(*old(bus), executed(*old(self), old(bus)@, op, mode).1),
            operation_rank(op) >= 36,
        ensures
            done(*old(self), *final(self), *old(bus), *final(bus)),
            (*final(self), final(bus)@) == executed(*old(self), old(bus)@, op, mode),
    {
        match op {
            Operation::Lsr => self.lsr(bus, mode),
            Operation::Nop => self.nop(bus, mode),
            Operation::Pha => self.pha(bus, mode),
            Operation::Php => self.php(bus, mode),
            Operation::Pla => self.pla(bus, mode),
            Operation::Plp => self.plp(bus, mode),
            _ => self.execute_from_7(bus, op, mode),
        }
    }

    fn execute_from_7(&mut self, bus: &mut Bus, op: Operation, mode: AdressingMode)
        requires
            ready(*old(self), *old(bus), mode),
            serves(*old(bus), executed(*old(self), old(bus)@, op, mode).1),
            operation_rank(op) >= 42,
        ensures
            done(*old(self), *final(self), *old(bus), *final(bus)),
            (*final(self), final(bus)@) == executed(*old(self), old(bus)@, op, mode),
    {
        match op {
            Operation::Rol => self.rol(bus, mode),
            Operation::Ror => self.ror(bus, mode),
            Operation::Rti => self.rti(bus, mode),
            Operation::Rts => self.rts(bus, mode),
            Operation::Sbc => self.sbc(bus, mode),
            Operation::Sta => self.sta(bus, mode),
            _ => self.execute_from_8(bus, op, mode),
        }
    }

    fn execute_from_8(&mut self, bus: &mut Bus, op: Operation, mode: AdressingMode)
        requires
            ready(*old(self), *old(bus), mode),
            serves(*old(bus), executed(*old(self), old(bus)@, op, mode).1),
            operation_rank(op) >= 48,
        ensures
            done(*old(self), *final(self), *old(bus), *final(bus)),
            (*final(self), final(bus)@) == executed(*old(self), old(bus)@, op, mode),
    {
        match op {
            Operation::Stx => self.stx(bus, mode),
            Operation::Sty => self.sty(bus, mode),
            Operation::Tax => self.tax(bus, mode),
            Operation::Tay => self.tay(bus, mode),
            Operation::Tsx => self.tsx(bus, mode),
            Operation::Txa => self.txa(bus, mode),
            _ => self.execute_from_9(bus, op, mode),
        }
    }

    fn execute_from_9(&mut self, bus: &mut Bus, op: Operation, mode: AdressingMode)
        requires
            ready(*old(self), *old(bus), mode),
            serves(*old(bus), executed(*old(self), old(bus)@, op, mode).1),
            operation_rank(op) >= 54,
        ensures
            done(*old(self), *final(self), *old(bus), *final(bus)),
            (*final(self), final(bus)@) == executed(*old(self), old(bus)@, op, mode),
    {
        match op {
            Operation::Txs => self.txs(bus, mode),
            Operation::Tya => self.tya(bus, mode),
            Operation::Anc => self.anc(bus, mode),
            Operation::Ane => self.ane(bus, mode),
            Operation::Arr => self.arr(bus, mode),
            Operation::Asr => self.asr(bus, mode),
            _ => self.execute_from_10(bus, op, mode),
        }
    }

    fn execute_from_10(&mut self, bus: &mut Bus, op: Operation, mode: AdressingMode)
        requires
            ready(*old(self), *old(bus), mode),
            serves(*old(bus), executed(*old(self), old(bus)@, op, mode).1),
            operation_rank(op) >= 60,
        ensures
            done(*old(self), *final(self), *old(bus), *final(bus)),
            (*final(self), final(bus)@) == executed(*old(self), old(bus)@, op, mode),
    {
        match op {
            Operation::Dcp => self.dcp(bus, mode),
            Operation::Isb => self.isb(bus, mode),
            Operation::Las => self.las(bus, mode),
            Operation::Lax => self.lax(bus, mode),
            Operation::Lxa => self.lxa(bus, mode),
            Operation::Rla => self.rla(bus, mode),
            _ => self.execute_from_11(bus, op, mode),
        }
    }

    fn execute_from_11(&mut self, bus: &mut Bus, op: Operation, mode: AdressingMode)
        requires
            ready(*old(self), *old(bus), mode),
            serves(*old(bus), executed(*old(self), old(bus)@, op, mode).1),
            operation_rank(op) >= 66,
        ensures
            done(*old(self), *final(self), *old(bus), *final(bus)),
            (*final(self), final(bus)@) == executed(*old(self), old(bus)@, op, mode),
    {
        match op {
            Operation::Rra => self.rra(bus, mode),
            Operation::Sax => self.sax(bus, mode),
            Operation::Sbx => self.sbx(bus, mode),
            Operation::Sha => self.sha(bus, mode),
            Operation::Shs => self.shs(bus, mode),
            Operation::Shx => self.shx(bus, mode),
            _ => self.execute_from_12(bus, op, mode),
        }
    }

    fn execute_from_12(&mut self, bus: &mut Bus, op: Operation, mode: AdressingMode)
        requires
            ready(*old(self), *old(bus), mode),
            serves(*old(bus), executed(*old(self), old(bus)@, op, mode).1),
            operation_rank(op) >= 72,
        ensures
            done(*old(self), *final(self), *old(bus), *final(bus)),
            (*final(self), final(bus)@) == executed(*old(self), old(bus)@, op, mode),
    {
        match op {
            Operation::Shy => self.shy(bus, mode),
            Operation::Slo => self.slo(bus, mode),
            Operation::Sre => self.sre(bus, mode),
            _ => self.err(bus, mode),
        }
    }

    /// Runs one CPU cycle: when no cycle is left to wait, the instruction at
    /// PC runs and its cycles, less this one, are left to wait. A cartridge
    /// is needed only when the opcode or the instruction reaches an address
    /// that the cartridge serves.
    pub fn clock(&mut self, bus: &mut Bus)
        requires
            old(bus).wf(),
            serves(*old(bus), cpu_clocked(*old(self), old(bus)@).1),
            !fetches_invalid_opcode(*old(self), old(bus)@),
        ensures
            final(bus).wf(),
            final(bus).has_cartridge() == old(bus).has_cartridge(),
            old(self).wf() ==> final(self).wf(),
            (*final(self), final(bus)@) == cpu_clocked(*old(self), old(bus)@),
    {
        proof { reveal(cpu_clocked); }
        if self.cycles == 0 {
            proof {
                // an opcode read that needs a missing cartridge leaves its
                // note on the bus after the instruction too
                let (b1, op) = bus_read(old(bus)@, old(self).pc);
                let i = instruction_table(op);
                if b1.cartridge_missed {
                    let c1 = Cpu { require_add_cycle: i.add_cycle, ..*old(self) };
                    lemma_executed_keeps_missed(c1, b1, i.operation, i.adressing_mode);
                }
            }
            let opcode = self.read_bus(bus, self.pc);
            let instruction = instruction(opcode);
            self.require_add_cycle = instruction.add_cycle;
            self.execute(bus, instruction.operation, instruction.adressing_mode);
            self.pc = self.pc.wrapping_add(1);
            self.cycles = self.cycles + instruction.cycles - 1;
        } else {
            self.cycles = self.cycles - 1;
        }
        self.total_clock = self.total_clock.wrapping_add(1);
    }

    /// Add with carry: A,Z,C,N,V = A+M+C.
    pub fn adc(&mut self, bus: &mut Bus, mode: AdressingMode)
        requires
            ready(*old(self), *old(bus), mode),
            serves(*old(bus), op_adc(*old(self), old(bus)@, mode).1),
        ensures
            done(*old(self), *final(self), *old(bus), *final(bus)),
            (*final(self), final(bus)@) == op_adc(*old(self), old(bus)@, mode),
    {
        proof { reveal(op_adc); }
        let (_, m) = self.fetch_operand(bus, mode);
        self.add_to_accumulator(m, m);
    }

    /// Logical and: A,Z,N = A&M.
    pub fn and(&mut self, bus: &mut Bus, mode: AdressingMode)
        requires
            ready(*old(self), *old(bus), mode),
            serves(*old(bus), op_and(*old(self), old(bus)@, mode).1),
        ensures
            done(*old(self), *final(self), *old(bus), *final(bus)),
            (*final(self), final(bus)@) == op_and(*old(self), old(bus)@, mode),
    {
        proof { reveal(op_and); }
        let (_, m) = self.fetch_operand(bus, mode);
        let a = self.a & m;
        self.a = a;
        self.set_zn(a);
    }

    /// Arithmetic shift left of A or M.
    pub fn asl(&mut self, bus: &mut Bus, mode: AdressingMode)
        requires
            ready(*old(self), *old(bus), mode),
            serves(*old(bus), op_asl(*old(self), old(bus)@, mode).1),
        ensures
            done(*old(self), *final(self), *old(bus), *final(bus)),
            (*final(self), final(bus)@) == op_asl(*old(self), old(bus)@, mode),
    {
        proof { reveal(op_asl); }
        let (address, m) = self.fetch_operand(bus, mode);
        let s = if mode == AdressingMode::Accumulator { self.a } else { m };
        let r = s << 1u8;
        self.set_flag(Flag::Carry, s & 0x80 != 0);
        self.set_zn(r);
        self.store_shifted(bus, mode, address, r);
    }

    /// Branch if carry clear.
    pub fn bcc(&mut self, bus: &mut Bus, mode: AdressingMode)
        requires
            ready(*old(self), *old(bus), mode),
            serves(*old(bus), op_bcc(*old(self), old(bus)@, mode).1),
        ensures
            done(*old(self), *final(self), *old(bus), *final(bus)),
            (*final(self), final(bus)@) == op_bcc(*old(self), old(bus)@, mode),
    {
        proof { reveal(op_bcc); }
        let taken = !self.get_flag(Flag::Carry);
        self.branch(bus, taken);
    }

    /// Branch if carry set.
    pub fn bcs(&mut self, bus: &mut Bus, mode: AdressingMode)
        requires
            ready(*old(self), *old(bus), mode),
            serves(*old(bus), op_bcs(*old(self), old(bus)@, mode).1),
        ensures
            done(*old(self), *final(self), *old(bus), *final(bus)),
            (*final(self), final(bus)@) == op_bcs(*old(self), old(bus)@, mode),
    {
        proof { reveal(op_bcs); }
        let taken = self.get_flag(Flag::Carry);
        self.branch(bus, taken);
    }

    /// Branch if equal (Z set).
    pub fn beq(&mut self, bus: &mut Bus, mode: AdressingMode)
        requires
            ready(*old(self), *old(bus), mode),
            serves(*old(bus), op_beq(*old(self), old(bus)@, mode).1),
        ensures
            done(*old(self), *final(self), *old(bus), *final(bus)),
            (*final(self), final(bus)@) == op_beq(*old(self), old(bus)@, mode),
    {
        proof { reveal(op_beq); }
        let taken = self.get_flag(Flag::Zero);
        self.branch(bus, taken);
    }

    /// Branch if minus (N set).
    pub fn bmi(&mut self, bus: &mut Bus, mode: AdressingMode)
        requires
            ready(*old(self), *old(bus), mode),
            serves(*old(bus), op_bmi(*old(self), old(bus)@, mode).1),
        ensures
            done(*old(self), *final(self), *old(bus), *final(bus)),
            (*final(self), final(bus)@) == op_bmi(*old(self), old(bus)@, mode),
    {
        proof { reveal(op_bmi); }
        let taken = self.get_flag(Flag::Negative);
        self.branch(bus, taken);
    }

    /// Branch if not equal (Z clear).
    pub fn bne(&mut self, bus: &mut Bus, mode: AdressingMode)
        requires
            ready(*old(self), *old(bus), mode),
            serves(*old(bus), op_bne(*old(self), old(bus)@, mode).1),
        ensures
            done(*old(self), *final(self), *old(bus), *final(bus)),
            (*final(self), final(bus)@) == op_bne(*old(self), old(bus)@, mode),
    {
        proof { reveal(op_bne); }
        let taken = !self.get_flag(Flag::Zero);
        self.branch(bus, taken);
    }

    /// Branch if plus (N clear).
    pub fn bpl(&mut self, bus: &mut Bus, mode: AdressingMode)
        requires
            ready(*old(self), *old(bus), mode),
            serves(*old(bus), op_bpl(*old(self), old(bus)@, mode).1),
        ensures
            done(*old(self), *final(self), *old(bus), *final(bus)),
            (*final(self), final(bus)@) == op_bpl(*old(self), old(bus)@, mode),
    {
        proof { reveal(op_bpl); }
        let taken = !self.get_flag(Flag::Negative);
        self.branch(bus, taken);
    }

    /// Branch if overflow clear.
    pub fn bvc(&mut self, bus: &mut Bus, mode: AdressingMode)
        requires
            ready(*old(self), *old(bus), mode),
            serves(*old(bus), op_bvc(*old(self), old(bus)@, mode).1),
        ensures
            done(*old(self), *final(self), *old(bus), *final(bus)),
            (*final(self), final(bus)@) == op_bvc(*old(self), old(bus)@, mode),
    {
        proof { reveal(op_bvc); }
        let taken = !self.get_flag(Flag::Overflow);
        self.branch(bus, taken);
    }

    /// Branch if overflow set.
    pub fn bvs(&mut self, bus: &mut Bus, mode: AdressingMode)
        requires
            ready(*old(self), *old(bus), mode),
            serves(*old(bus), op_bvs(*old(self), old(bus)@, mode).1),
        ensures
            done(*old(self), *final(self), *old(bus), *final(bus)),
            (*final(self), final(bus)@) == op_bvs(*old(self), old(bus)@, mode),
    {
        proof { reveal(op_bvs); }
        let taken = self.get_flag(Flag::Overflow);
        self.branch(bus, taken);
    }

    /// Bit test: Z = A&M == 0, N = M7, V = M6.
    pub fn bit(&mut self, bus: &mut Bus, mode: AdressingMode)
        requires
            ready(*old(self), *old(bus), mode),
            serves(*old(bus), op_bit(*old(self), old(bus)@, mode).1),
        ensures
            done(*old(self), *final(self), *old(bus), *final(bus)),
            (*final(self), final(bus)@) == op_bit(*old(self), old(bus)@, mode),
    {
        proof { reveal(op_bit); }
        let (_, m) = self.fetch_operand(bus, mode);
        let a = self.a;
        self.set_flag(Flag::Zero, a & m == 0);
        self.set_flag(Flag::Negative, m & 0x80 != 0);
        self.set_flag(Flag::Overflow, m & 0x40 != 0);
    }

    /// Force interrupt: B and the unused bit set, then an IRQ.
    pub fn brk(&mut self, bus: &mut Bus, mode: AdressingMode)
        requires
            ready(*old(self), *old(bus), mode),
            serves(*old(bus), op_brk(*old(self), old(bus)@, mode).1),
        ensures
            done(*old(self), *final(self), *old(bus), *final(bus)),
            (*final(self), final(bus)@) == op_brk(*old(self), old(bus)@, mode),
    {
        proof { reveal(op_brk); }
        self.pc = self.pc.wrapping_add(1);
        self.set_flag(Flag::Break, true);
        self.set_flag(Flag::Unused, true);
        self.interrupt(bus, Interrupt::Irq);
    }

    /// Clear carry.
    pub fn clc(&mut self, bus: &mut Bus, mode: AdressingMode)
        requires
            ready(*old(self), *old(bus), mode),
            serves(*old(bus), op_clc(*old(self), old(bus)@, mode).1),
        ensures
            done(*old(self), *final(self), *old(bus), *final(bus)),
            (*final(self), final(bus)@) == op_clc(*old(self), old(bus)@, mode),
    {
        proof { reveal(op_clc); }
        self.set_flag(Flag::Carry, false);
    }

    /// Clear decimal mode.
    pub fn cld(&mut self, bus: &mut Bus, mode: AdressingMode)
        requires
            ready(*old(self), *old(bus), mode),
            serves(*old(bus), op_cld(*old(self), old(bus)@, mode).1),
        ensures
            done(*old(self), *final(self), *old(bus), *final(bus)),
            (*final(self), final(bus)@) == op_cld(*old(self), old(bus)@, mode),
    {
        proof { reveal(op_cld); }
        self.set_flag(Flag::Decimal, false);
    }

    /// Clear interrupt disable.
    pub fn cli(&mut self, bus: &mut Bus, mode: AdressingMode)
        requires
            ready(*old(self), *old(bus), mode),
            serves(*old(bus), op_cli(*old(self), old(bus)@, mode).1),
        ensures
            done(*old(self), *final(self), *old(bus), *final(bus)),
            (*final(self), final(bus)@) == op_cli(*old(self), old(bus)@, mode),
    {
        proof { reveal(op_cli); }
        self.set_flag(Flag::InterruptDisable, false);
    }

    /// Clear overflow.
    pub fn clv(&mut self, bus: &mut Bus, mode: AdressingMode)
        requires
            ready(*old(self), *old(bus), mode),
            serves(*old(bus), op_clv(*old(self), old(bus)@, mode).1),
        ensures
            done(*old(self), *final(self), *old(bus), *final(bus)),
            (*final(self), final(bus)@) == op_clv(*old(self), old(bus)@, mode),
    {
        proof { reveal(op_clv); }
        self.set_flag(Flag::Overflow, false);
    }

    /// Set carry.
    pub fn sec(&mut self, bus: &mut Bus, mode: AdressingMode)
        requires
            ready(*old(self), *old(bus), mode),
            serves(*old(bus), op_sec(*old(self), old(bus)@, mode).1),
        ensures
            done(*old(self), *final(self), *old(bus), *final(bus)),
            (*final(self), final(bus)@) == op_sec(*old(self), old(bus)@, mode),
    {
        proof { reveal(op_sec); }
        self.set_flag(Flag::Carry, true);
    }

    /// Set decimal mode.
    pub fn sed(&mut self, bus: &mut Bus, mode: AdressingMode)
        requires
            ready(*old(self), *old(bus), mode),
            serves(*old(bus), op_sed(*old(self), old(bus)@, mode).1),
        ensures
            done(*old(self), *final(self), *old(bus), *final(bus)),
            (*final(self), final(bus)@) == op_sed(*old(self), old(bus)@, mode),
    {
        proof { reveal(op_sed); }
        self.set_flag(Flag::Decimal, true);
    }

    /// Set interrupt disable.
    pub fn sei(&mut self, bus: &mut Bus, mode: AdressingMode)
        requires
            ready(*old(self), *old(bus), mode),
            serves(*old(bus), op_sei(*old(self), old(bus)@, mode).1),
        ensures
            done(*old(self), *final(self), *old(bus), *final(bus)),
            (*final(self), final(bus)@) == op_sei(*old(self), old(bus)@, mode),
    {
        proof { reveal(op_sei); }
        self.set_flag(Flag::InterruptDisable, true);
    }

    /// Compare A with M.
    pub fn cmp(&mut self, bus: &mut Bus, mode: AdressingMode)
        requires
            ready(*old(self), *old(bus), mode),
            serves(*old(bus), op_cmp(*old(self), old(bus)@, mode).1),
        ensures
            done(*old(self), *final(self), *old(bus), *final(bus)),
            (*final(self), final(bus)@) == op_cmp(*old(self), old(bus)@, mode),
    {
        proof { reveal(op_cmp); }
        let (_, m) = self.fetch_operand(bus, mode);
        let a = self.a;
        self.compare(a, m);
    }

    /// Compare X with M.
    pub fn cpx(&mut self, bus: &mut Bus, mode: AdressingMode)
        requires
            ready(*old(self), *old(bus), mode),
            serves(*old(bus), op_cpx(*old(self), old(bus)@, mode).1),
        ensures
            done(*old(self), *final(self), *old(bus), *final(bus)),
            (*final(self), final(bus)@) == op_cpx(*old(self), old(bus)@, mode),
    {
        proof { reveal(op_cpx); }
        let (_, m) = self.fetch_operand(bus, mode);
        let x = self.x;
        self.compare(x, m);
    }

    /// Compare Y with M.
    pub fn cpy(&mut self, bus: &mut Bus, mode: AdressingMode)
        requires
            ready(*old(self), *old(bus), mode),
            serves(*old(bus), op_cpy(*old(self), old(bus)@, mode).1),
        ensures
            done(*old(self), *final(self), *old(bus), *final(bus)),
            (*final(self), final(bus)@) == op_cpy(*old(self), old(bus)@, mode),
    {
        proof { reveal(op_cpy); }
        let (_, m) = self.fetch_operand(bus, mode);
        let y = self.y;
        self.compare(y, m);
    }

    /// Decrement memory.
    pub fn dec(&mut self, bus: &mut Bus, mode: AdressingMode)
        requires
            ready(*old(self), *old(bus), mode),
            serves(*old(bus), op_dec(*old(self), old(bus)@, mode).1),
        ensures
            done(*old(self), *final(self), *old(bus), *final(bus)),
            (*final(self), final(bus)@) == op_dec(*old(self), old(bus)@, mode),
    {
        proof { reveal(op_dec); }
        let (address, m) = self.fetch_operand(bus, mode);
        let r = m.wrapping_sub(1);
        self.write_bus(bus, address, r);
        self.set_zn(r);
    }

    /// Increment memory.
    pub fn inc(&mut self, bus: &mut Bus, mode: AdressingMode)
        requires
            ready(*old(self), *old(bus), mode),
            serves(*old(bus), op_inc(*old(self), old(bus)@, mode).1),
        ensures
            done(*old(self), *final(self), *old(bus), *final(bus)),
            (*final(self), final(bus)@) == op_inc(*old(self), old(bus)@, mode),
    {
        proof { reveal(op_inc); }
        let (address, m) = self.fetch_operand(bus, mode);
        let r = m.wrapping_add(1);
        self.write_bus(bus, address, r);
        self.set_zn(r);
    }

    /// Decrement X.
    pub fn dex(&mut self, bus: &mut Bus, mode: AdressingMode)
        requires
            ready(*old(self), *old(bus), mode),
            serves(*old(bus), op_dex(*old(self), old(bus)@, mode).1),
        ensures
            done(*old(self), *final(self), *old(bus), *final(bus)),
            (*final(self), final(bus)@) == op_dex(*old(self), old(bus)@, mode),
    {
        proof { reveal(op_dex); }
        self.x = self.x.wrapping_sub(1);
        let x = self.x;
        self.set_zn(x);
    }

    /// Decrement Y.
    pub fn dey(&mut self, bus: &mut Bus, mode: AdressingMode)
        requires
            ready(*old(self), *old(bus), mode),
            serves(*old(bus), op_dey(*old(self), old(bus)@, mode).1),
        ensures
            done(*old(self), *final(self), *old(bus), *final(bus)),
            (*final(self), final(bus)@) == op_dey(*old(self), old(bus)@, mode),
    {
        proof { reveal(op_dey); }
        self.y = self.y.wrapping_sub(1);
        let y = self.y;
        self.set_zn(y);
    }

    /// Increment X.
    pub fn inx(&mut self, bus: &mut Bus, mode: AdressingMode)
        requires
            ready(*old(self), *old(bus), mode),
            serves(*old(bus), op_inx(*old(self), old(bus)@, mode).1),
        ensures
            done(*old(self), *final(self), *old(bus), *final(bus)),
            (*final(self), final(bus)@) == op_inx(*old(self), old(bus)@, mode),
    {
        proof { reveal(op_inx); }
        self.x = self.x.wrapping_add(1);
        let x = self.x;
        self.set_zn(x);
    }

    /// Increment Y.
    pub fn iny(&mut self, bus: &mut Bus, mode: AdressingMode)
        requires
            ready(*old(self), *old(bus), mode),
            serves(*old(bus), op_iny(*old(self), old(bus)@, mode).1),
        ensures
            done(*old(self), *final(self), *old(bus), *final(bus)),
            (*final(self), final(bus)@) == op_iny(*old(self), old(bus)@, mode),
    {
        proof { reveal(op_iny); }
        self.y = self.y.wrapping_add(1);
        let y = self.y;
        self.set_zn(y);
    }

    /// Exclusive or: A = A^M.
    pub fn eor(&mut self, bus: &mut Bus, mode: AdressingMode)
        requires
            ready(*old(self), *old(bus), mode),
            serves(*old(bus), op_eor(*old(self), old(bus)@, mode).1),
        ensures
            done(*old(self), *final(self), *old(bus), *final(bus)),
            (*final(self), final(bus)@) == op_eor(*old(self), old(bus)@, mode),
    {
        proof { reveal(op_eor); }
        let (_, m) = self.fetch_operand(bus, mode);
        let a = self.a ^ m;
        self.a = a;
        self.set_zn(a);
    }

    /// Inclusive or: A = A|M.
    pub fn ora(&mut self, bus: &mut Bus, mode: AdressingMode)
        requires
            ready(*old(self), *old(bus), mode),
            serves(*old(bus), op_ora(*old(self), old(bus)@, mode).1),
        ensures
            done(*old(self), *final(self), *old(bus), *final(bus)),
            (*final(self), final(bus)@) == op_ora(*old(self), old(bus)@, mode),
    {
        proof { reveal(op_ora); }
        let (_, m) = self.fetch_operand(bus, mode);
        let a = self.a | m;
        self.a = a;
        self.set_zn(a);
    }

    /// Jump.
    pub fn jmp(&mut self, bus: &mut Bus, mode: AdressingMode)
        requires
            ready(*old(self), *old(bus), mode),
            serves(*old(bus), op_jmp(*old(self), old(bus)@, mode).1),
        ensures
            done(*old(self), *final(self), *old(bus), *final(bus)),
            (*final(self), final(bus)@) == op_jmp(*old(self), old(bus)@, mode),
    {
        proof { reveal(op_jmp); }
        let address = self.fetch_address(bus, mode);
        self.pc = address.wrapping_sub(1);
    }

    /// Jump to subroutine: the return address less one is pushed.
    pub fn jsr(&mut self, bus: &mut Bus, mode: AdressingMode)
        requires
            ready(*old(self), *old(bus), mode),
            serves(*old(bus), op_jsr(*old(self), old(bus)@, mode).1),
        ensures
            done(*old(self), *final(self), *old(bus), *final(bus)),
            (*final(self), final(bus)@) == op_jsr(*old(self), old(bus)@, mode),
    {
        proof { reveal(op_jsr); }
        let address = self.fetch_address(bus, mode);
        let pc = self.pc;
        self.push_to_stack(bus, (pc >> 8u16) as u8);
        self.push_to_stack(bus, (pc % 256) as u8);
        self.pc = address.wrapping_sub(1);
    }

    /// Load A.
    pub fn lda(&mut self, bus: &mut Bus, mode: AdressingMode)
        requires
            ready(*old(self), *old(bus), mode),
            serves(*old(bus), op_lda(*old(self), old(bus)@, mode).1),
        ensures
            done(*old(self), *final(self), *old(bus), *final(bus)),
            (*final(self), final(bus)@) == op_lda(*old(self), old(bus)@, mode),
    {
        proof { reveal(op_lda); }
        let (_, m) = self.fetch_operand(bus, mode);
        self.a = m;
        self.set_zn(m);
    }

    /// Load X.
    pub fn ldx(&mut self, bus: &mut Bus, mode: AdressingMode)
        requires
            ready(*old(self), *old(bus), mode),
            serves(*old(bus), op_ldx(*old(self), old(bus)@, mode).1),
        ensures
            done(*old(self), *final(self), *old(bus), *final(bus)),
            (*final(self), final(bus)@) == op_ldx(*old(self), old(bus)@, mode),
    {
        proof { reveal(op_ldx); }
        let (_, m) = self.fetch_operand(bus, mode);
        self.x = m;
        self.set_zn(m);
    }

    /// Load Y.
    pub fn ldy(&mut self, bus: &mut Bus, mode: AdressingMode)
        requires
            ready(*old(self), *old(bus), mode),
            serves(*old(bus), op_ldy(*old(self), old(bus)@, mode).1),
        ensures
            done(*old(self), *final(self), *old(bus), *final(bus)),
            (*final(self), final(bus)@) == op_ldy(*old(self), old(bus)@, mode),
    {
        proof { reveal(op_ldy); }
        let (_, m) = self.fetch_operand(bus, mode);
        self.y = m;
        self.set_zn(m);
    }

    /// Logical shift right of A or M.
    pub fn lsr(&mut self, bus: &mut Bus, mode: AdressingMode)
        requires
            ready(*old(self), *old(bus), mode),
            serves(*old(bus), op_lsr(*old(self), old(bus)@, mode).1),
        ensures
            done(*old(self), *final(self), *old(bus), *final(bus)),
            (*final(self), final(bus)@) == op_lsr(*old(self), old(bus)@, mode),
    {
        proof { reveal(op_lsr); }
        let (address, m) = self.fetch_operand(bus, mode);
        let s = if mode == AdressingMode::Accumulator { self.a } else { m };
        let r = s >> 1u8;
        self.set_flag(Flag::Carry, s & 0x01 != 0);
        self.set_zn(r);
        self.store_shifted(bus, mode, address, r);
    }

    /// No operation (the operand is still addressed).
    pub fn nop(&mut self, bus: &mut Bus, mode: AdressingMode)
        requires
            ready(*old(self), *old(bus), mode),
            serves(*old(bus), op_nop(*old(self), old(bus)@, mode).1),
        ensures
            done(*old(self), *final(self), *old(bus), *final(bus)),
            (*final(self), final(bus)@) == op_nop(*old(self), old(bus)@, mode),
    {
        proof { reveal(op_nop); }
        self.fetch_address(bus, mode);
    }

    /// Push A.
    pub fn pha(&mut self, bus: &mut Bus, mode: AdressingMode)
        requires
            ready(*old(self), *old(bus), mode),
            serves(*old(bus), op_pha(*old(self), old(bus)@, mode).1),
        ensures
            done(*old(self), *final(self), *old(bus), *final(bus)),
            (*final(self), final(bus)@) == op_pha(*old(self), old(bus)@, mode),
    {
        proof { reveal(op_pha); }
        let a = self.a;
        self.push_to_stack(bus, a);
    }

    /// Push the status with B and the unused bit set.
    pub fn php(&mut self, bus: &mut Bus, mode: AdressingMode)
        requires
            ready(*old(self), *old(bus), mode),
            serves(*old(bus), op_php(*old(self), old(bus)@, mode).1),
        ensures
            done(*old(self), *final(self), *old(bus), *final(bus)),
            (*final(self), final(bus)@) == op_php(*old(self), old(bus)@, mode),
    {
        proof { reveal(op_php); }
        let v = self.p | Flag::Break.bit() | Flag::Unused.bit();
        self.push_to_stack(bus, v);
    }

    /// Pull A.
    pub fn pla(&mut self, bus: &mut Bus, mode: AdressingMode)
        requires
            ready(*old(self), *old(bus), mode),
            serves(*old(bus), op_pla(*old(self), old(bus)@, mode).1),
        ensures
            done(*old(self), *final(self), *old(bus), *final(bus)),
            (*final(self), final(bus)@) == op_pla(*old(self), old(bus)@, mode),
    {
        proof { reveal(op_pla); }
        let v = self.pop_from_stack(bus);
        self.a = v;
        self.set_zn(v);
    }

    /// Pull the status (B is kept, the unused bit set).
    pub fn plp(&mut self, bus: &mut Bus, mode: AdressingMode)
        requires
            ready(*old(self), *old(bus), mode),
            serves(*old(bus), op_plp(*old(self), old(bus)@, mode).1),
        ensures
            done(*old(self), *final(self), *old(bus), *final(bus)),
            (*final(self), final(bus)@) == op_plp(*old(self), old(bus)@, mode),
    {
        proof { reveal(op_plp); }
        let s = self.pop_from_stack(bus);
        self.pull_status(s);
    }

    /// Rotate A or M left through the carry.
    pub fn rol(&mut self, bus: &mut Bus, mode: AdressingMode)
        requires
            ready(*old(self), *old(bus), mode),
            serves(*old(bus), op_rol(*old(self), old(bus)@, mode).1),
        ensures
            done(*old(self), *final(self), *old(bus), *final(bus)),
            (*final(self), final(bus)@) == op_rol(*old(self), old(bus)@, mode),
    {
        proof { reveal(op_rol); }
        let (address, m) = self.fetch_operand(bus, mode);
        let s = if mode == AdressingMode::Accumulator { self.a } else { m };
        let carry: u8 = if self.get_flag(Flag::Carry) { 1 } else { 0 };
        proof { crate::bits::lemma_byte_masks(); }
        assert(s << 1u8 <= 254);
        let r = (s << 1u8) + carry;
        self.set_flag(Flag::Carry, s & 0x80 != 0);
        self.set_zn(r);
        self.store_shifted(bus, mode, address, r);
    }

    /// Rotate A or M right through the carry.
    pub fn ror(&mut self, bus: &mut Bus, mode: AdressingMode)
        requires
            ready(*old(self), *old(bus), mode),
            serves(*old(bus), op_ror(*old(self), old(bus)@, mode).1),
        ensures
            done(*old(self), *final(self), *old(bus), *final(bus)),
            (*final(self), final(bus)@) == op_ror(*old(self), old(bus)@, mode),
    {
        proof { reveal(op_ror); }
        let (address, m) = self.fetch_operand(bus, mode);
        let s = if mode == AdressingMode::Accumulator { self.a } else { m };
        let carry: u8 = if self.get_flag(Flag::Carry) { 1 } else { 0 };
        proof { crate::bits::lemma_byte_masks(); }
        assert(s >> 1u8 <= 127);
        let r = (s >> 1u8) + carry * 0x80;
        self.set_flag(Flag::Carry, s & 0x01 != 0);
        self.set_zn(r);
        self.store_shifted(bus, mode, address, r);
    }

    /// Return from interrupt: status, then PC.
    pub fn rti(&mut self, bus: &mut Bus, mode: AdressingMode)
        requires
            ready(*old(self), *old(bus), mode),
            serves(*old(bus), op_rti(*old(self), old(bus)@, mode).1),
        ensures
            done(*old(self), *final(self), *old(bus), *final(bus)),
            (*final(self), final(bus)@) == op_rti(*old(self), old(bus)@, mode),
    {
        proof { reveal(op_rti); }
        let s = self.pop_from_stack(bus);
        self.pull_status(s);
        let lo = self.pop_from_stack(bus);
        let hi = self.pop_from_stack(bus);
        self.pc = make_word(lo, hi).wrapping_sub(1);
    }

    /// Return from subroutine.
    pub fn rts(&mut self, bus: &mut Bus, mode: AdressingMode)
        requires
            ready(*old(self), *old(bus), mode),
            serves(*old(bus), op_rts(*old(self), old(bus)@, mode).1),
        ensures
            done(*old(self), *final(self), *old(bus), *final(bus)),
            (*final(self), final(bus)@) == op_rts(*old(self), old(bus)@, mode),
    {
        proof { reveal(op_rts); }
        let lo = self.pop_from_stack(bus);
        let hi = self.pop_from_stack(bus);
        self.pc = make_word(lo, hi);
    }

    /// Subtract with carry: A = A-M-(1-C).
    pub fn sbc(&mut self, bus: &mut Bus, mode: AdressingMode)
        requires
            ready(*old(self), *old(bus), mode),
            serves(*old(bus), op_sbc(*old(self), old(bus)@, mode).1),
        ensures
            done(*old(self), *final(self), *old(bus), *final(bus)),
            (*final(self), final(bus)@) == op_sbc(*old(self), old(bus)@, mode),
    {
        proof { reveal(op_sbc); }
        let (_, m) = self.fetch_operand(bus, mode);
        self.subtract_from_accumulator(m);
    }

    /// Store A.
    pub fn sta(&mut self, bus: &mut Bus, mode: AdressingMode)
        requires
            ready(*old(self), *old(bus), mode),
            serves(*old(bus), op_sta(*old(self), old(bus)@, mode).1),
        ensures
            done(*old(self), *final(self), *old(bus), *final(bus)),
            (*final(self), final(bus)@) == op_sta(*old(self), old(bus)@, mode),
    {
        proof { reveal(op_sta); }
        let address = self.fetch_address(bus, mode);
        let a = self.a;
        self.write_bus(bus, address, a);
    }

    /// Store X.
    pub fn stx(&mut self, bus: &mut Bus, mode: AdressingMode)
        requires
            ready(*old(self), *old(bus), mode),
            serves(*old(bus), op_stx(*old(self), old(bus)@, mode).1),
        ensures
            done(*old(self), *final(self), *old(bus), *final(bus)),
            (*final(self), final(bus)@) == op_stx(*old(self), old(bus)@, mode),
    {
        proof { reveal(op_stx); }
        let address = self.fetch_address(bus, mode);
        let x = self.x;
        self.write_bus(bus, address, x);
    }

    /// Store Y.
    pub fn sty(&mut self, bus: &mut Bus, mode: AdressingMode)
        requires
            ready(*old(self), *old(bus), mode),
            serves(*old(bus), op_sty(*old(self), old(bus)@, mode).1),
        ensures
            done(*old(self), *final(self), *old(bus), *final(bus)),
            (*final(self), final(bus)@) == op_sty(*old(self), old(bus)@, mode),
    {
        proof { reveal(op_sty); }
        let address = self.fetch_address(bus, mode);
        let y = self.y;
        self.write_bus(bus, address, y);
    }

    /// Transfer A to X.
    pub fn tax(&mut self, bus: &mut Bus, mode: AdressingMode)
        requires
            ready(*old(self), *old(bus), mode),
            serves(*old(bus), op_tax(*old(self), old(bus)@, mode).1),
        ensures
            done(*old(self), *final(self), *old(bus), *final(bus)),
            (*final(self), final(bus)@) == op_tax(*old(self), old(bus)@, mode),
    {
        proof { reveal(op_tax); }
        let a = self.a;
        self.x = a;
        self.set_zn(a);
    }

    /// Transfer A to Y.
    pub fn tay(&mut self, bus: &mut Bus, mode: AdressingMode)
        requires
            ready(*old(self), *old(bus), mode),
            serves(*old(bus), op_tay(*old(self), old(bus)@, mode).1),
        ensures
            done(*old(self), *final(self), *old(bus), *final(bus)),
            (*final(self), final(bus)@) == op_tay(*old(self), old(bus)@, mode),
    {
        proof { reveal(op_tay); }
        let a = self.a;
        self.y = a;
        self.set_zn(a);
    }

    /// Transfer the stack pointer to X.
    pub fn tsx(&mut self, bus: &mut Bus, mode: AdressingMode)
        requires
            ready(*old(self), *old(bus), mode),
            serves(*old(bus), op_tsx(*old(self), old(bus)@, mode).1),
        ensures
            done(*old(self), *final(self), *old(bus), *final(bus)),
            (*final(self), final(bus)@) == op_tsx(*old(self), old(bus)@, mode),
    {
        proof { reveal(op_tsx); }
        let sp = self.sp;
        self.x = sp;
        self.set_zn(sp);
    }

    /// Transfer X to A.
    pub fn txa(&mut self, bus: &mut Bus, mode: AdressingMode)
        requires
            ready(*old(self), *old(bus), mode),
            serves(*old(bus), op_txa(*old(self), old(bus)@, mode).1),
        ensures
            done(*old(self), *final(self), *old(bus), *final(bus)),
            (*final(self), final(bus)@) == op_txa(*old(self), old(bus)@, mode),
    {
        proof { reveal(op_txa); }
        let x = self.x;
        self.a = x;
        self.set_zn(x);
    }

    /// Transfer X to the stack pointer.
    pub fn txs(&mut self, bus: &mut Bus, mode: AdressingMode)
        requires
            ready(*old(self), *old(bus), mode),
            serves(*old(bus), op_txs(*old(self), old(bus)@, mode).1),
        ensures
            done(*old(self), *final(self), *old(bus), *final(bus)),
            (*final(self), final(bus)@) == op_txs(*old(self), old(bus)@, mode),
    {
        proof { reveal(op_txs); }
        self.sp = self.x;
    }

    /// Transfer Y to A.
    pub fn tya(&mut self, bus: &mut Bus, mode: AdressingMode)
        requires
            ready(*old(self), *old(bus), mode),
            serves(*old(bus), op_tya(*old(self), old(bus)@, mode).1),
        ensures
            done(*old(self), *final(self), *old(bus), *final(bus)),
            (*final(self), final(bus)@) == op_tya(*old(self), old(bus)@, mode),
    {
        proof { reveal(op_tya); }
        let y = self.y;
        self.a = y;
        self.set_zn(y);
    }

    /// AND, with the carry set from bit 7.
    pub fn anc(&mut self, bus: &mut Bus, mode: AdressingMode)
        requires
            ready(*old(self), *old(bus), mode),
            serves(*old(bus), op_anc(*old(self), old(bus)@, mode).1),
        ensures
            done(*old(self), *final(self), *old(bus), *final(bus)),
            (*final(self), final(bus)@) == op_anc(*old(self), old(bus)@, mode),
    {
        proof { reveal(op_anc); }
        let (_, m) = self.fetch_operand(bus, mode);
        let a = self.a & m;
        self.a = a;
        self.set_zn(a);
        self.set_flag(Flag::Carry, a & 0x80 != 0);
    }

    /// A = X, then AND with M.
    pub fn ane(&mut self, bus: &mut Bus, mode: AdressingMode)
        requires
            ready(*old(self), *old(bus), mode),
            serves(*old(bus), op_ane(*old(self), old(bus)@, mode).1),
        ensures
            done(*old(self), *final(self), *old(bus), *final(bus)),
            (*final(self), final(bus)@) == op_ane(*old(self), old(bus)@, mode),
    {
        proof { reveal(op_ane); }
        self.a = self.x;
        let (_, m) = self.fetch_operand(bus, mode);
        let a = self.a & m;
        self.a = a;
        self.set_zn(a);
    }

    /// AND then rotate right; C = bit 6, V = bit 6 ^ bit 5.
    pub fn arr(&mut self, bus: &mut Bus, mode: AdressingMode)
        requires
            ready(*old(self), *old(bus), mode),
            serves(*old(bus), op_arr(*old(self), old(bus)@, mode).1),
        ensures
            done(*old(self), *final(self), *old(bus), *final(bus)),
            (*final(self), final(bus)@) == op_arr(*old(self), old(bus)@, mode),
    {
        proof { reveal(op_arr); }
        let (_, m) = self.fetch_operand(bus, mode);
        let t = self.a & m;
        let carry: u8 = if self.get_flag(Flag::Carry) { 1 } else { 0 };
        assert(t >> 1u8 <= 127 && (carry << 7u8) <= 128) by (bit_vector)
            requires carry <= 1;
        let a = (t >> 1u8) + (carry << 7u8);
        self.a = a;
        self.set_zn(a);
        self.set_flag(Flag::Carry, a & 0x40 != 0);
        self.set_flag(Flag::Overflow, (a & 0x20 != 0) != (a & 0x40 != 0));
    }

    /// AND then shift right.
    pub fn asr(&mut self, bus: &mut Bus, mode: AdressingMode)
        requires
            ready(*old(self), *old(bus), mode),
            serves(*old(bus), op_asr(*old(self), old(bus)@, mode).1),
        ensures
            done(*old(self), *final(self), *old(bus), *final(bus)),
            (*final(self), final(bus)@) == op_asr(*old(self), old(bus)@, mode),
    {
        proof { reveal(op_asr); }
        let (_, m) = self.fetch_operand(bus, mode);
        let t = self.a & m;
        let a = t >> 1u8;
        self.a = a;
        self.set_flag(Flag::Carry, t & 0x01 != 0);
        self.set_zn(a);
    }

    /// Decrement M, then compare A with it.
    pub fn dcp(&mut self, bus: &mut Bus, mode: AdressingMode)
        requires
            ready(*old(self), *old(bus), mode),
            serves(*old(bus), op_dcp(*old(self), old(bus)@, mode).1),
        ensures
            done(*old(self), *final(self), *old(bus), *final(bus)),
            (*final(self), final(bus)@) == op_dcp(*old(self), old(bus)@, mode),
    {
        proof { reveal(op_dcp); }
        let (address, m) = self.fetch_operand(bus, mode);
        let r = m.wrapping_sub(1);
        self.write_bus(bus, address, r);
        let a = self.a;
        self.compare(a, r);
    }

    /// Increment M, then subtract it from A.
    pub fn isb(&mut self, bus: &mut Bus, mode: AdressingMode)
        requires
            ready(*old(self), *old(bus), mode),
            serves(*old(bus), op_isb(*old(self), old(bus)@, mode).1),
        ensures
            done(*old(self), *final(self), *old(bus), *final(bus)),
            (*final(self), final(bus)@) == op_isb(*old(self), old(bus)@, mode),
    {
        proof { reveal(op_isb); }
        let (address, m) = self.fetch_operand(bus, mode);
        let r = m.wrapping_add(1);
        self.write_bus(bus, address, r);
        self.subtract_from_accumulator(r);
    }

    /// SP, A, X = SP & M.
    pub fn las(&mut self, bus: &mut Bus, mode: AdressingMode)
        requires
            ready(*old(self), *old(bus), mode),
            serves(*old(bus), op_las(*old(self), old(bus)@, mode).1),
        ensures
            done(*old(self), *final(self), *old(bus), *final(bus)),
            (*final(self), final(bus)@) == op_las(*old(self), old(bus)@, mode),
    {
        proof { reveal(op_las); }
        let (_, m) = self.fetch_operand(bus, mode);
        let t = self.sp & m;
        self.sp = t;
        self.a = t;
        self.x = t;
        self.set_zn(t);
    }

    /// Load A and X.
    pub fn lax(&mut self, bus: &mut Bus, mode: AdressingMode)
        requires
            ready(*old(self), *old(bus), mode),
            serves(*old(bus), op_lax(*old(self), old(bus)@, mode).1),
        ensures
            done(*old(self), *final(self), *old(bus), *final(bus)),
            (*final(self), final(bus)@) == op_lax(*old(self), old(bus)@, mode),
    {
        proof { reveal(op_lax); }
        let (_, m) = self.fetch_operand(bus, mode);
        self.a = m;
        self.x = m;
        self.set_zn(m);
    }

    /// A and X = (A | $EE) & M (ORA #$EE, AND M, TAX).
    pub fn lxa(&mut self, bus: &mut Bus, mode: AdressingMode)
        requires
            ready(*old(self), *old(bus), mode),
            serves(*old(bus), op_lxa(*old(self), old(bus)@, mode).1),
        ensures
            done(*old(self), *final(self), *old(bus), *final(bus)),
            (*final(self), final(bus)@) == op_lxa(*old(self), old(bus)@, mode),
    {
        proof { reveal(op_lxa); }
        let (_, m) = self.fetch_operand(bus, mode);
        let v = (self.a | 0xEE) & m;
        self.a = v;
        self.x = v;
        self.set_zn(v);
    }

    /// Rotate M left, then AND it into A.
    pub fn rla(&mut self, bus: &mut Bus, mode: AdressingMode)
        requires
            ready(*old(self), *old(bus), mode),
            serves(*old(bus), op_rla(*old(self), old(bus)@, mode).1),
        ensures
            done(*old(self), *final(self), *old(bus), *final(bus)),
            (*final(self), final(bus)@) == op_rla(*old(self), old(bus)@, mode),
    {
        proof { reveal(op_rla); }
        let (address, m) = self.fetch_operand(bus, mode);
        let carry: u8 = if self.get_flag(Flag::Carry) { 1 } else { 0 };
        proof { crate::bits::lemma_byte_masks(); }
        assert(m << 1u8 <= 254);
        let r = (m << 1u8) + carry;
        self.write_bus(bus, address, r);
        let a = self.a & r;
        self.a = a;
        self.set_flag(Flag::Carry, m & 0x80 != 0);
        self.set_zn(a);
    }

    /// Rotate M right, then add it to A.
    pub fn rra(&mut self, bus: &mut Bus, mode: AdressingMode)
        requires
            ready(*old(self), *old(bus), mode),
            serves(*old(bus), op_rra(*old(self), old(bus)@, mode).1),
        ensures
            done(*old(self), *final(self), *old(bus), *final(bus)),
            (*final(self), final(bus)@) == op_rra(*old(self), old(bus)@, mode),
    {
        proof { reveal(op_rra); }
        let (address, m) = self.fetch_operand(bus, mode);
        let carry: u8 = if self.get_flag(Flag::Carry) { 1 } else { 0 };
        assert(m >> 1u8 <= 127 && (carry << 7u8) <= 128) by (bit_vector)
            requires carry <= 1;
        let r = (m >> 1u8) + (carry << 7u8);
        self.write_bus(bus, address, r);
        self.set_flag(Flag::Carry, m & 0x01 != 0);
        self.add_to_accumulator(r, r);
    }

    /// Store A & X.
    pub fn sax(&mut self, bus: &mut Bus, mode: AdressingMode)
        requires
            ready(*old(self), *old(bus), mode),
            serves(*old(bus), op_sax(*old(self), old(bus)@, mode).1),
        ensures
            done(*old(self), *final(self), *old(bus), *final(bus)),
            (*final(self), final(bus)@) == op_sax(*old(self), old(bus)@, mode),
    {
        proof { reveal(op_sax); }
        let address = self.fetch_address(bus, mode);
        let v = self.a & self.x;
        self.write_bus(bus, address, v);
    }

    /// X = (A & X) - M, flags as a compare.
    pub fn sbx(&mut self, bus: &mut Bus, mode: AdressingMode)
        requires
            ready(*old(self), *old(bus), mode),
            serves(*old(bus), op_sbx(*old(self), old(bus)@, mode).1),
        ensures
            done(*old(self), *final(self), *old(bus), *final(bus)),
            (*final(self), final(bus)@) == op_sbx(*old(self), old(bus)@, mode),
    {
        proof { reveal(op_sbx); }
        let (_, m) = self.fetch_operand(bus, mode);
        let t = self.x & self.a;
        self.x = t.wrapping_sub(m);
        self.compare(t, m);
    }

    /// Store A & X & (high byte of the address + 1).
    pub fn sha(&mut self, bus: &mut Bus, mode: AdressingMode)
        requires
            ready(*old(self), *old(bus), mode),
            serves(*old(bus), op_sha(*old(self), old(bus)@, mode).1),
        ensures
            done(*old(self), *final(self), *old(bus), *final(bus)),
            (*final(self), final(bus)@) == op_sha(*old(self), old(bus)@, mode),
    {
        proof { reveal(op_sha); }
        let address = self.fetch_address(bus, mode);
        let v = self.a & self.x & high_plus_one(address);
        self.write_bus(bus, address, v);
    }

    /// SP = A & X, then store SP & (high byte + 1).
    pub fn shs(&mut self, bus: &mut Bus, mode: AdressingMode)
        requires
            ready(*old(self), *old(bus), mode),
            serves(*old(bus), op_shs(*old(self), old(bus)@, mode).1),
        ensures
            done(*old(self), *final(self), *old(bus), *final(bus)),
            (*final(self), final(bus)@) == op_shs(*old(self), old(bus)@, mode),
    {
        proof { reveal(op_shs); }
        let address = self.fetch_address(bus, mode);
        self.sp = self.a & self.x;
        let v = self.a & self.x & high_plus_one(address);
        self.write_bus(bus, address, v);
    }

    /// Store X & (high byte + 1); a crossed page puts the value in the high byte of the address.
    pub fn shx(&mut self, bus: &mut Bus, mode: AdressingMode)
        requires
            ready(*old(self), *old(bus), mode),
            serves(*old(bus), op_shx(*old(self), old(bus)@, mode).1),
        ensures
            done(*old(self), *final(self), *old(bus), *final(bus)),
            (*final(self), final(bus)@) == op_shx(*old(self), old(bus)@, mode),
    {
        proof { reveal(op_shx); }
        let address = self.fetch_address(bus, mode);
        let r = self.x & high_plus_one(address);
        let target = if self.page_crossed { page_replaced(address, r) } else { address };
        self.write_bus(bus, target, r);
    }

    /// Store Y & (high byte + 1); a crossed page puts the value in the high byte of the address.
    pub fn shy(&mut self, bus: &mut Bus, mode: AdressingMode)
        requires
            ready(*old(self), *old(bus), mode),
            serves(*old(bus), op_shy(*old(self), old(bus)@, mode).1),
        ensures
            done(*old(self), *final(self), *old(bus), *final(bus)),
            (*final(self), final(bus)@) == op_shy(*old(self), old(bus)@, mode),
    {
        proof { reveal(op_shy); }
        let address = self.fetch_address(bus, mode);
        let r = self.y & high_plus_one(address);
        let target = if self.page_crossed { page_replaced(address, r) } else { address };
        self.write_bus(bus, target, r);
    }

    /// Shift M left, then OR it into A.
    pub fn slo(&mut self, bus: &mut Bus, mode: AdressingMode)
        requires
            ready(*old(self), *old(bus), mode),
            serves(*old(bus), op_slo(*old(self), old(bus)@, mode).1),
        ensures
            done(*old(self), *final(self), *old(bus), *final(bus)),
            (*final(self), final(bus)@) == op_slo(*old(self), old(bus)@, mode),
    {
        proof { reveal(op_slo); }
        let (address, m) = self.fetch_operand(bus, mode);
        let r = m << 1u8;
        self.write_bus(bus, address, r);
        let a = self.a | r;
        self.a = a;
        self.set_flag(Flag::Carry, m & 0x80 != 0);
        self.set_zn(a);
    }

    /// Shift M right, then XOR it into A.
    pub fn sre(&mut self, bus: &mut Bus, mode: AdressingMode)
        requires
            ready(*old(self), *old(bus), mode),
            serves(*old(bus), op_sre(*old(self), old(bus)@, mode).1),
        ensures
            done(*old(self), *final(self), *old(bus), *final(bus)),
            (*final(self), final(bus)@) == op_sre(*old(self), old(bus)@, mode),
    {
        proof { reveal(op_sre); }
        let (address, m) = self.fetch_operand(bus, mode);
        let r = m >> 1u8;
        self.write_bus(bus, address, r);
        let a = self.a ^ r;
        self.a = a;
        self.set_flag(Flag::Carry, m & 0x01 != 0);
        self.set_zn(a);
    }

    /// A jamming opcode: the processor locks up, executing it again and again.
    pub fn err(&mut self, bus: &mut Bus, mode: AdressingMode)
        requires
            ready(*old(self), *old(bus), mode),
            serves(*old(bus), op_jam(*old(self), old(bus)@, mode).1),
        ensures
            done(*old(self), *final(self), *old(bus), *final(bus)),
            (*final(self), final(bus)@) == op_jam(*old(self), old(bus)@, mode),
    {
        proof { reveal(op_jam); }
        self.pc = self.pc.wrapping_sub(1);
    }
}

/// What a trace line shows of an instruction's operand, read without side
/// effects: the address it designates (or the branch target), the pointer
/// or base address it went through, and the value at the address.
#[derive(Debug, Clone, Copy, PartialEq, Eq, Structural)]
pub struct Disassembly {
    pub operation: Operation,
    pub mode: AdressingMode,
    pub address: u16,
    pub base: u16,
    pub value: u8,
}

/// The state of the CPU before an instruction, as a trace line shows it.
pub struct CpuLog {
    pub pc: u16,
    pub opcode: u8,
    pub parameters: Vec<u8>,
    pub disassembly: Disassembly,
    pub a: u8,
    pub x: u8,
    pub y: u8,
    pub p: u8,
    pub sp: u8,
    pub scanline: u16,
    pub ppu_cycles: u16,
    pub total_clock: u64,
}

/// The operand of an instruction as a trace line shows it: for indexed
/// modes the indexed address, for indirect ones the pointer (or base) and
/// the address read through it, for a branch its target, and the value at
/// the address.
pub open spec fn disassembled(b: BusView, c: Cpu, opcode: u8, p0: u8, p1: u8) -> Disassembly {
    let i = instruction_table(opcode);
    let w = word(p0, p1);
    let (address, base): (u16, u16) = match i.adressing_mode {
        AdressingMode::ZeroPage => (p0 as u16, 0),
        AdressingMode::ZeroPageX => (((p0 as u16 + c.x as u16) % 0x100) as u16, 0),
        AdressingMode::ZeroPageY => (((p0 as u16 + c.y as u16) % 0x100) as u16, 0),
        AdressingMode::Relative => (semantics::branch_target(semantics::wadd16(c.pc, 2), p0), 0),
        AdressingMode::Absolute => (w, 0),
        AdressingMode::AbsoluteX => (semantics::wadd16(w, c.x as u16), 0),
        AdressingMode::AbsoluteY => (semantics::wadd16(w, c.y as u16), 0),
        AdressingMode::Indirect => (word(bus_peek(b, w), bus_peek(b, if w & 0x00FF == 0x00FF { w & 0xFF00 } else { (w + 1) as u16 })), w),
        AdressingMode::IndirectX => {
            let ptr = ((p0 as u16 + c.x as u16) % 0x100) as u16;
            (word(bus_peek(b, ptr), bus_peek(b, ((ptr + 1) % 0x100) as u16)), ptr)
        },
        AdressingMode::IndirectY => {
            let base = word(bus_peek(b, p0 as u16), bus_peek(b, ((p0 as u16 + 1) % 0x100) as u16));
            (semantics::wadd16(base, c.y as u16), base)
        },
        _ => (0, 0),
    };
    Disassembly { operation: i.operation, mode: i.adressing_mode, address, base, value: bus_peek(b, address) }
}

/// Whether a CPU cycle starts an instruction whose opcode no instruction
/// has (a JAM opcode, on which the CPU stops).
pub open spec fn fetches_invalid_opcode(c: Cpu, b: BusView) -> bool {
    c.cycles == 0 && instruction_table(bus_read(b, c.pc).1).operation == Operation::Jam
}

/// Whether a trace line describes the instruction at PC of CPU `c` on bus
/// `b`: its bytes and operand read without side effects, the registers, the
/// PPU's position and the CPU's clock count.
pub open spec fn log_describes(log: CpuLog, c: Cpu, b: BusView) -> bool {
    &&& log.pc == c.pc
    &&& log.opcode == bus_peek(b, c.pc)
    &&& log.parameters@.len() == mode_bytes(instruction_table(log.opcode).adressing_mode) - 1
    &&& forall|k: int| 0 <= k < log.parameters@.len() ==> #[trigger] log.parameters@[k]
        == bus_peek(b, semantics::wadd16(c.pc, (k + 1) as u16))
    &&& log.disassembly == disassembled(b, c, log.opcode,
        if log.parameters@.len() > 0 { log.parameters@[0] } else { 0 },
        if log.parameters@.len() > 1 { log.parameters@[1] } else { 0 })
    &&& log.a == c.a && log.x == c.x && log.y == c.y && log.p == c.p && log.sp == c.sp
    &&& log.scanline == b.ppu.scanline
    &&& log.ppu_cycles == b.ppu.cycles
    &&& log.total_clock == c.total_clock
}

impl Cpu {
    /// The operand of the instruction `opcode` with operand bytes `p0`, `p1`
    /// as a trace line shows it.
    pub fn dissassemble(&self, bus: &Bus, opcode: u8, p0: u8, p1: u8) -> (d: Disassembly)
        requires
            bus.wf(),
        ensures
            d == disassembled(bus@, *self, opcode, p0, p1),
    {
        let i = instruction(opcode);
        let w = make_word(p0, p1);
        let (address, base): (u16, u16) = match i.adressing_mode {
            AdressingMode::ZeroPage => (p0 as u16, 0),
            AdressingMode::ZeroPageX => ((p0 as u16 + self.x as u16) % 0x100, 0),
            AdressingMode::ZeroPageY => ((p0 as u16 + self.y as u16) % 0x100, 0),
            AdressingMode::Relative => {
                let next = self.pc.wrapping_add(2);
                let offset: u16 = if p0 < 128 { p0 as u16 } else { p0 as u16 + 0xFF00 };
                (next.wrapping_add(offset), 0)
            },
            AdressingMode::Absolute => (w, 0),
            AdressingMode::AbsoluteX => (w.wrapping_add(self.x as u16), 0),
            AdressingMode::AbsoluteY => (w.wrapping_add(self.y as u16), 0),
            AdressingMode::Indirect => {
                proof { crate::bits::lemma_word_masks(); }
                assert(w & 0x00FF != 0x00FF ==> w < 0xFFFF);
                let second: u16 = if w & 0x00FF == 0x00FF { w & 0xFF00 } else { w + 1 };
                (make_word(bus.read_only(w), bus.read_only(second)), w)
            },
            AdressingMode::IndirectX => {
                let ptr: u16 = (p0 as u16 + self.x as u16) % 0x100;
                (make_word(bus.read_only(ptr), bus.read_only((ptr + 1) % 0x100)), ptr)
            },
            AdressingMode::IndirectY => {
                let base = make_word(bus.read_only(p0 as u16), bus.read_only((p0 as u16 + 1) % 0x100));
                (base.wrapping_add(self.y as u16), base)
            },
            _ => (0, 0),
        };
        Disassembly { operation: i.operation, mode: i.adressing_mode, address, base, value: bus.read_only(address) }
    }

    /// The trace line of the instruction at PC: its bytes, its operand, the
    /// registers, the PPU's position and the CPU's clock count; everything
    /// is read without side effects.
    pub fn log_state(&self, bus: &Bus) -> (log: CpuLog)
        requires
            bus.wf(),
        ensures
            log_describes(log, *self, bus@),
    {
        let opcode = bus.read_only(self.pc);
        let n = instruction_bytes(instruction(opcode).adressing_mode);
        let mut parameters: Vec<u8> = Vec::new();
        let mut k: u8 = 1;
        while k < n
            invariant
                1 <= k <= n,
                n == mode_bytes(instruction_table(opcode).adressing_mode),
                n <= 3,
                bus.wf(),
                parameters@.len() == k - 1,
                forall|j: int| 0 <= j < parameters@.len() ==> #[trigger] parameters@[j]
                    == bus_peek(bus@, semantics::wadd16(self.pc, (j + 1) as u16)),
            decreases n - k,
        {
            parameters.push(bus.read_only(self.pc.wrapping_add(k as u16)));
            k = k + 1;
        }
        let p0 = if parameters.len() > 0 { parameters[0] } else { 0 };
        let p1 = if parameters.len() > 1 { parameters[1] } else { 0 };
        let disassembly = self.dissassemble(bus, opcode, p0, p1);
        CpuLog {
            pc: self.pc,
            opcode,
            parameters,
            disassembly,
            a: self.a,
            x: self.x,
            y: self.y,
            p: self.p,
            sp: self.sp,
            scanline: bus.get_scanline(),
            ppu_cycles: bus.get_cycles(),
            total_clock: self.total_clock,
        }
    }
}

} // verus!
