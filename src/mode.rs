use vstd::prelude::*;

verus! {

/// How a database is opened: it must exist, it must not exist, or either.
#[derive(Clone, Copy, Debug, PartialEq, Eq, Structural)]
pub enum Mode {
    Open,
    New,
    Create,
}

/// The engine's integer code for an open mode.
pub open spec fn mode_code(mode: Mode) -> int {
    match mode {
        Mode::Open => 1,
        Mode::New => 2,
        Mode::Create => 3,
    }
}

/// Translates an open mode into the integer the engine's open entry point takes.
pub fn mode_to_int(mode: Mode) -> (r: libc::c_int)
    ensures
        r as int == mode_code(mode),
{
    match mode {
        Mode::Open => 1,
        Mode::New => 2,
        Mode::Create => 3,
    }
}

} // verus!
