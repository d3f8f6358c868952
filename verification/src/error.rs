//! The conditions that the machine reports to its driver.

use vstd::prelude::*;

verus! {

/// What can go wrong while a program is loaded or run.
#[derive(Clone, Copy, Debug, PartialEq, Eq, Structural)]
pub enum Chip8Error {
    /// The instruction word is not an instruction of the machine. Nothing was
    /// changed by it; a driver may note it and go on.
    UnknownOpcode(u16),
    /// A return was executed while the call stack was empty.
    StackUnderflow,
    /// An access would have touched an address beyond the end of memory.
    AddressOutOfBounds,
    /// The program image does not fit between the load address and the end of
    /// memory.
    RomTooLarge,
}

impl Chip8Error {
    /// Whether a driver has to stop the machine on this error.
    pub open spec fn spec_is_fatal(self) -> bool {
        !(self is UnknownOpcode)
    }

    /// Whether a driver has to stop the machine on this error: every error but
    /// an unknown opcode is fatal.
    #[verifier::when_used_as_spec(spec_is_fatal)]
    pub fn is_fatal(self) -> (fatal: bool)
        ensures
            fatal == self.spec_is_fatal(),
    {
        match self {
            Chip8Error::UnknownOpcode(_) => false,
            _ => true,
        }
    }
}

} // verus!
