use vstd::prelude::*;

verus! {

/// A standard NES controller: a byte of held buttons, and a shift register
/// that the CPU reads one bit at a time, most significant bit first.
#[derive(Debug, Clone, Copy)]
pub struct Controller {
    pub buffer: u8,
    pub shifter: u8,
}

impl Controller {
    pub fn new() -> (c: Self)
        ensures
            c.buffer == 0,
            c.shifter == 0,
    {
        Controller { buffer: 0, shifter: 0 }
    }

    /// Returns the most significant bit of the shift register and shifts it left.
    pub fn check_shifter(&mut self) -> (value: u8)
        ensures
            value == (if old(self).shifter & 0x80 != 0 { 1u8 } else { 0u8 }),
            final(self).shifter == old(self).shifter << 1u8,
            final(self).buffer == old(self).buffer,
    {
        let value: u8 = if self.shifter & 0x80 != 0 { 1 } else { 0 };
        self.shifter = self.shifter << 1u8;
        value
    }

    /// Latches the held buttons into the shift register.
    pub fn update_shifter(&mut self)
        ensures
            final(self).shifter == old(self).buffer,
            final(self).buffer == old(self).buffer,
    {
        self.shifter = self.buffer;
    }
}

} // verus!
