use vstd::prelude::*;

verus! {

/// A utility struct to represent a color.
/// The alpha channel is not calculated by the emulator (set to 255).
#[derive(Debug, Clone, Copy, PartialEq, Eq, Structural)]
pub struct ARGBColor {
    pub alpha: u8,
    pub red: u8,
    pub green: u8,
    pub blue: u8,
}

impl ARGBColor {
    /// Create a new color.
    pub fn new(alpha: u8, red: u8, green: u8, blue: u8) -> (c: Self)
        ensures
            c == (ARGBColor { alpha, red, green, blue }),
    {
        ARGBColor { alpha, red, green, blue }
    }

    /// Return a black color (255, 0, 0, 0).
    pub fn black() -> (c: Self)
        ensures
            c == (ARGBColor { alpha: 255, red: 0, green: 0, blue: 0 }),
    {
        ARGBColor::new(255, 0, 0, 0)
    }

    /// Return a light gray color (255, 50, 50, 50).
    pub fn light_gray() -> (c: Self)
        ensures
            c == (ARGBColor { alpha: 255, red: 50, green: 50, blue: 50 }),
    {
        ARGBColor::new(255, 50, 50, 50)
    }
}

/// Each input possible on a NES controller, with the bit it sets in the
/// controller byte.
#[derive(Debug, Clone, Copy, PartialEq, Eq, Structural)]
pub enum ControllerInput {
    Right,
    Left,
    Down,
    Up,
    Start,
    Select,
    B,
    A,
}

/// The bit of the controller byte that an input sets.
pub open spec fn spec_input_bit(input: ControllerInput) -> u8 {
    match input {
        ControllerInput::Right => 0b0000_0001,
        ControllerInput::Left => 0b0000_0010,
        ControllerInput::Down => 0b0000_0100,
        ControllerInput::Up => 0b0000_1000,
        ControllerInput::Start => 0b0001_0000,
        ControllerInput::Select => 0b0010_0000,
        ControllerInput::B => 0b0100_0000,
        ControllerInput::A => 0b1000_0000,
    }
}

impl ControllerInput {
    /// The bit of the controller byte that this input sets.
    pub fn bit(&self) -> (b: u8)
        ensures
            b == spec_input_bit(*self),
    {
        match self {
            ControllerInput::Right => 0b0000_0001,
            ControllerInput::Left => 0b0000_0010,
            ControllerInput::Down => 0b0000_0100,
            ControllerInput::Up => 0b0000_1000,
            ControllerInput::Start => 0b0001_0000,
            ControllerInput::Select => 0b0010_0000,
            ControllerInput::B => 0b0100_0000,
            ControllerInput::A => 0b1000_0000,
        }
    }
}

} // verus!
