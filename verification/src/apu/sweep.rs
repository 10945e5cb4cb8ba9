use vstd::prelude::*;

verus! {

/// The sweep unit of a pulse channel: periodically shifts the channel's
/// period up or down.
#[derive(Clone, Copy)]
pub struct SweepUnit {
    pub second: bool,
    pub enabled: bool,
    pub period: u8,
    pub divider: u8,
    pub negate: bool,
    pub shift: u8,
    pub reload: bool,
    pub mute: bool,
}

/// The period the sweep unit aims for, given the channel's current period.
/// The first pulse channel negates with one's complement, the second with
/// two's complement; a negative result wraps as a 16-bit value.
pub open spec fn sweep_target(s: SweepUnit, period: u16) -> u16 {
    let change = (period >> s.shift) as int;
    let t: int = if s.negate {
        if s.second { period - change } else { period - change - 1 }
    } else {
        period + change
    };
    if t < 0 { (t + 65536) as u16 } else { t as u16 }
}

/// A target outside [8, 0x7FF] mutes the channel.
pub open spec fn sweep_mutes(target: u16) -> bool {
    !(8 <= target && target <= 0x7FF)
}

/// The channel period after a sweep clock.
pub open spec fn sweep_new_period(s: SweepUnit, period: u16) -> u16 {
    if s.divider == 0 && s.enabled && !sweep_mutes(sweep_target(s, period)) {
        sweep_target(s, period)
    } else {
        period
    }
}

/// The sweep unit after a sweep clock.
pub open spec fn sweep_clocked(s: SweepUnit, period: u16) -> SweepUnit {
    SweepUnit {
        mute: sweep_mutes(sweep_target(s, period)),
        divider: if s.divider == 0 || s.reload { s.period } else { (s.divider - 1) as u8 },
        reload: false,
        ..s
    }
}

/// The sweep unit after a write to its register.
pub open spec fn sweep_with(s: SweepUnit, value: u8) -> SweepUnit {
    SweepUnit {
        enabled: value & 0x80 != 0,
        period: (value & 0x70) >> 4u8,
        negate: value & 0x08 != 0,
        shift: value & 0x07,
        reload: true,
        ..s
    }
}

impl SweepUnit {
    pub fn new(second: bool) -> (s: Self)
        ensures
            s == (SweepUnit {
                second,
                enabled: false,
                period: 0,
                divider: 0,
                negate: false,
                shift: 0,
                reload: false,
                mute: false,
            }),
    {
        SweepUnit {
            second,
            enabled: false,
            period: 0,
            divider: 0,
            negate: false,
            shift: 0,
            reload: false,
            mute: false,
        }
    }

    /// Writes the sweep register ($4001 / $4005).
    pub fn set(&mut self, value: u8)
        ensures
            *final(self) == sweep_with(*old(self), value),
            *final(self) == (SweepUnit {
                enabled: value & 0x80 != 0,
                period: (value & 0x70) >> 4u8,
                negate: value & 0x08 != 0,
                shift: value & 0x07,
                reload: true,
                ..*old(self)
            }),
            final(self).shift < 8,
    {
        self.enabled = value & 0x80 != 0;
        self.period = (value & 0x70) >> 4u8;
        self.negate = value & 0x08 != 0;
        self.shift = value & 0x07;
        self.reload = true;
        proof { crate::bits::lemma_byte_masks(); }
        assert(value & 0x07 < 8);
    }

    /// Clocks the sweep unit, possibly updating the channel's period.
    pub fn clock(&mut self, period: &mut u16)
        requires
            *old(period) <= 0x7FF,
            old(self).shift < 16,
        ensures
            *final(self) == sweep_clocked(*old(self), *old(period)),
            *final(period) == sweep_new_period(*old(self), *old(period)),
            final(self).mute == sweep_mutes(sweep_target(*old(self), *old(period))),
            *final(period) == (if old(self).divider == 0 && old(self).enabled && !sweep_mutes(
                sweep_target(*old(self), *old(period)),
            ) {
                sweep_target(*old(self), *old(period))
            } else {
                *old(period)
            }),
            final(self).divider == (if old(self).divider == 0 || old(self).reload {
                old(self).period
            } else {
                (old(self).divider - 1) as u8
            }),
            !final(self).reload,
            final(self).second == old(self).second,
            final(self).enabled == old(self).enabled,
            final(self).period == old(self).period,
            final(self).negate == old(self).negate,
            final(self).shift == old(self).shift,
    {
        let p16: u16 = *period;
        let sh: u8 = self.shift;
        let change: u16 = p16 >> sh;
        assert(p16 >> sh <= p16) by (bit_vector);
        let p: i32 = p16 as i32;
        let c: i32 = change as i32;
        let t: i32 = if self.negate {
            if self.second { p - c } else { p - c - 1 }
        } else {
            p + c
        };
        let target: u16 = if t < 0 { (t + 65536) as u16 } else { t as u16 };
        self.mute = !(8 <= target && target <= 0x7FF);
        if self.divider == 0 && self.enabled && !self.mute {
            *period = target;
        }
        if self.divider == 0 || self.reload {
            self.divider = self.period;
            self.reload = false;
        } else {
            self.divider = self.divider - 1;
        }
    }
}

} // verus!
