//! The ways in which an operation of the library fails.

use vstd::prelude::*;

verus! {

#[derive(Clone, Copy, Debug, PartialEq, Eq, Structural)]
pub enum Error {
    /// The terminal device refused a call.
    DeviceIo,
    /// No screen has this id.
    NotFound(usize),
}

} // verus!
