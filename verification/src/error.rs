//! The errors that the helper's own decisions end with.

use vstd::prelude::*;

verus! {

#[derive(Clone, Copy, Debug, PartialEq, Eq, Structural)]
pub enum Error {
    /// The user stopped the helper with Ctrl-C.
    KilledByCtrlC,
    /// The helper lacks the capability to read another process's memory.
    MissingPrerequisites,
}

impl Error {
    /// The text that the helper prints for this error.
    pub fn message(&self) -> (r: &'static str)
        ensures
            *self == Error::KilledByCtrlC ==> r@ == "Killed by Ctrl-C"@,
            *self == Error::MissingPrerequisites ==> r@ == "Missing prerequisites"@,
    {
        match self {
            Error::KilledByCtrlC => "Killed by Ctrl-C",
            Error::MissingPrerequisites => "Missing prerequisites",
        }
    }
}

/// Whether the helper may run: it needs the capability to trace other
/// processes (`CAP_SYS_PTRACE` on Linux).
pub fn check_prerequisites(has_sys_ptrace: bool) -> (r: Result<(), Error>)
    ensures
        r == (if has_sys_ptrace { Ok(()) } else { Err(Error::MissingPrerequisites) }),
{
    if has_sys_ptrace {
        Ok(())
    } else {
        Err(Error::MissingPrerequisites)
    }
}

} // verus!
