//! The faults that the machine reports to its host.

use vstd::prelude::*;

verus! {

/// Why loading a program or running a cycle could not be completed.
#[derive(Clone, Copy, Debug, PartialEq, Eq, Structural)]
pub enum Fault {
    /// The program does not fit between the load address and the end of memory.
    LoadError,
    /// The fetched word is not an instruction of the machine.
    DecodeError,
    /// A return was executed while the call stack was empty.
    StackUnderflow,
    /// A call was executed while the call stack was full.
    StackOverflow,
    /// The program counter, the index register or a key number points outside
    /// of what it addresses.
    OutOfBoundsAccess,
}

} // verus!
