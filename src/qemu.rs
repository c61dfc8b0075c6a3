use vstd::prelude::*;

verus! {

/// I/O port of the simulator's exit device.
pub const EXIT_PORT: u16 = 0xf4;

/// Status handed to the simulator's exit device.
#[derive(Clone, Copy, Debug, PartialEq, Eq, Structural)]
pub enum ExitCode {
    Success,
    Failure,
}

impl ExitCode {
    pub open spec fn spec_code(self) -> u32 {
        match self {
            ExitCode::Success => 0x10,
            ExitCode::Failure => 0x11,
        }
    }

    /// The value written to the exit port.
    pub fn code(self) -> (r: u32)
        ensures
            r == self.spec_code(),
    {
        match self {
            ExitCode::Success => 0x10,
            ExitCode::Failure => 0x11,
        }
    }
}

} // verus!
