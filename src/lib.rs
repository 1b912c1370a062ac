//! A verified boundary layer in front of a native key-value engine.
//!
//! The engine is reached only through a C interface. This crate holds the
//! decisions on that boundary: the open-mode codes, the null-terminated form
//! of keys and names, the handle's lifecycle, and the slice transfer protocol
//! by which a read copies a native buffer out and releases it exactly once.
//! The owner of the native handle performs the calls that these name.
use vstd::prelude::*;

pub mod command;
pub mod marshal;
pub mod mode;
pub mod session;
pub mod slice;

pub use command::{parse_command, Command};
pub use marshal::{encode_key, KeyError};
pub use mode::{mode_to_int, Mode};
pub use session::{OpenCall, Session};
pub use slice::{ReadStep, SliceCall, SliceRead};

verus! {

} // verus!
