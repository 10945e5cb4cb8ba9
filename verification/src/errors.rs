use vstd::prelude::*;

verus! {

/// An access to an address that the accessed component does not serve.
pub trait InvalidMemoryAccess {
    /// The address that was accessed.
    fn get_address(&self) -> u16;

    /// What kind of access failed.
    fn get_action(&self) -> String;
}

#[derive(Debug, Clone, Copy, PartialEq, Eq, Structural)]
pub struct InvalidMapperReadError(pub u16);

impl InvalidMemoryAccess for InvalidMapperReadError {
    fn get_address(&self) -> (a: u16)
        ensures
            a == self.0,
    {
        self.0
    }

    fn get_action(&self) -> (s: String)
        ensures
            s@ == "mapper read"@,
    {
        "mapper read".to_string()
    }
}

#[derive(Debug, Clone, Copy, PartialEq, Eq, Structural)]
pub struct InvalidMapperWriteError(pub u16);

impl InvalidMemoryAccess for InvalidMapperWriteError {
    fn get_address(&self) -> (a: u16)
        ensures
            a == self.0,
    {
        self.0
    }

    fn get_action(&self) -> (s: String)
        ensures
            s@ == "mapper write"@,
    {
        "mapper write".to_string()
    }
}

#[derive(Debug, Clone, Copy, PartialEq, Eq, Structural)]
pub struct InvalidPPUBusReadError(pub u16);

impl InvalidMemoryAccess for InvalidPPUBusReadError {
    fn get_address(&self) -> (a: u16)
        ensures
            a == self.0,
    {
        self.0
    }

    fn get_action(&self) -> (s: String)
        ensures
            s@ == "ppu bus read"@,
    {
        "ppu bus read".to_string()
    }
}

#[derive(Debug, Clone, Copy, PartialEq, Eq, Structural)]
pub struct InvalidPPUBusWriteError(pub u16);

impl InvalidMemoryAccess for InvalidPPUBusWriteError {
    fn get_address(&self) -> (a: u16)
        ensures
            a == self.0,
    {
        self.0
    }

    fn get_action(&self) -> (s: String)
        ensures
            s@ == "ppu bus write"@,
    {
        "ppu bus write".to_string()
    }
}

#[derive(Debug, Clone, Copy, PartialEq, Eq, Structural)]
pub struct InvalidPPURegisterReadError(pub u16);

impl InvalidMemoryAccess for InvalidPPURegisterReadError {
    fn get_address(&self) -> (a: u16)
        ensures
            a == self.0,
    {
        self.0
    }

    fn get_action(&self) -> (s: String)
        ensures
            s@ == "ppu register read"@,
    {
        "ppu register read".to_string()
    }
}

#[derive(Debug, Clone, Copy, PartialEq, Eq, Structural)]
pub struct InvalidPPURegisterWriteError(pub u16);

impl InvalidMemoryAccess for InvalidPPURegisterWriteError {
    fn get_address(&self) -> (a: u16)
        ensures
            a == self.0,
    {
        self.0
    }

    fn get_action(&self) -> (s: String)
        ensures
            s@ == "ppu register write"@,
    {
        "ppu register write".to_string()
    }
}

#[derive(Debug, Clone, Copy, PartialEq, Eq, Structural)]
pub struct InvalidAPURegisterReadError(pub u16);

impl InvalidMemoryAccess for InvalidAPURegisterReadError {
    fn get_address(&self) -> (a: u16)
        ensures
            a == self.0,
    {
        self.0
    }

    fn get_action(&self) -> (s: String)
        ensures
            s@ == "apu register read"@,
    {
        "apu register read".to_string()
    }
}

#[derive(Debug, Clone, Copy, PartialEq, Eq, Structural)]
pub struct InvalidAPURegisterWriteError(pub u16);

impl InvalidMemoryAccess for InvalidAPURegisterWriteError {
    fn get_address(&self) -> (a: u16)
        ensures
            a == self.0,
    {
        self.0
    }

    fn get_action(&self) -> (s: String)
        ensures
            s@ == "apu register write"@,
    {
        "apu register write".to_string()
    }
}

} // verus!
