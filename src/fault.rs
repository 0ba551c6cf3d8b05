use vstd::prelude::*;

verus! {

/// A fatal condition that stops the processor.
#[derive(Clone, Copy, PartialEq, Eq, Structural, Debug)]
pub enum Fault {
    /// The byte at `pc` is not an assigned 8080 opcode.
    UnknownOpcode { opcode: u8, pc: usize },
    /// An access to `address`, outside the memory, by the instruction at `pc`.
    OutOfBounds { address: usize, pc: usize },
    /// A push or pop by the instruction at `pc` with the stack pointer `sp` would
    /// leave the memory.
    StackOutOfBounds { sp: usize, pc: usize },
}

} // verus!
