use vstd::prelude::*;

verus! {

/// The I/O port on which the emulator listens for an exit code.
pub const EXIT_PORT: u16 = 0xf4;

/// How a test run ended, as reported to the emulator.
#[derive(Clone, Copy, Debug, PartialEq, Eq, Structural)]
pub enum QemuExit {
    Success,
    Failed,
}

impl QemuExit {
    /// The value written to the exit port for this outcome.
    pub open spec fn spec_code(self) -> u32 {
        match self {
            QemuExit::Success => 0x10,
            QemuExit::Failed => 0x11,
        }
    }

    /// The value written to the exit port for this outcome.
    #[verifier::when_used_as_spec(spec_code)]
    pub fn code(self) -> (code: u32)
        ensures
            code == self.spec_code(),
    {
        match self {
            QemuExit::Success => 0x10,
            QemuExit::Failed => 0x11,
        }
    }
}

} // verus!
