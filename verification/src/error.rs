use vstd::prelude::*;

verus! {

/// Every way the machine can fail. Decode failures and out-of-range stack or
/// memory operations are fatal: they propagate to the scheduler, which stops
/// the instance. A too-large program image is rejected synchronously at load
/// time, before any execution.
#[derive(Clone, Copy, Debug, PartialEq, Eq, Structural)]
pub enum VmError {
    /// The 16-bit opcode matches no known instruction pattern.
    UnknownOpcode(u16),
    /// The program image exceeds the address space after the program origin.
    ProgramTooLarge,
    /// A call was issued while all stack slots were in use.
    StackOverflow,
    /// A return was issued while the stack was empty.
    StackUnderflow,
    /// A block memory access runs past the end of the address space.
    AddressOutOfRange,
}

} // verus!
