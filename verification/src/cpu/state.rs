use vstd::prelude::*;
use crate::state::Stateful;
use super::Cpu;

verus! {

/// The saved state of the CPU.
#[derive(Debug, Clone, Copy, PartialEq, Eq, Structural)]
pub struct CpuState {
    pub a: u8,
    pub x: u8,
    pub y: u8,
    pub pc: u16,
    pub sp: u8,
    pub p: u8,
    pub cycles: u8,
    pub require_add_cycle: bool,
    pub page_crossed: bool,
    pub total_clock: u64,
    pub display_logs: bool,
}

impl Stateful for Cpu {
    type State = CpuState;

    fn get_state(&self) -> (s: CpuState)
        ensures
            s == (CpuState {
                a: self.a,
                x: self.x,
                y: self.y,
                pc: self.pc,
                sp: self.sp,
                p: self.p,
                cycles: self.cycles,
                require_add_cycle: self.require_add_cycle,
                page_crossed: self.page_crossed,
                total_clock: self.total_clock,
                display_logs: self.display_logs,
            }),
    {
        CpuState {
            a: self.a,
            x: self.x,
            y: self.y,
            pc: self.pc,
            sp: self.sp,
            p: self.p,
            cycles: self.cycles,
            require_add_cycle: self.require_add_cycle,
            page_crossed: self.page_crossed,
            total_clock: self.total_clock,
            display_logs: self.display_logs,
        }
    }

    fn set_state(&mut self, state: &CpuState)
        ensures
            *final(self) == (Cpu {
                a: state.a,
                x: state.x,
                y: state.y,
                pc: state.pc,
                sp: state.sp,
                p: state.p,
                cycles: state.cycles,
                require_add_cycle: state.require_add_cycle,
                page_crossed: state.page_crossed,
                total_clock: state.total_clock,
                display_logs: state.display_logs,
            }),
    {
        self.a = state.a;
        self.x = state.x;
        self.y = state.y;
        self.pc = state.pc;
        self.sp = state.sp;
        self.p = state.p;
        self.cycles = state.cycles;
        self.require_add_cycle = state.require_add_cycle;
        self.page_crossed = state.page_crossed;
        self.total_clock = state.total_clock;
        self.display_logs = state.display_logs;
    }
}

} // verus!
