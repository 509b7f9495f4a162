//! The startup trampoline's contract: what the first code of the process
//! must establish before control reaches the entry point.

use vstd::prelude::*;

verus! {

/// The raw register state the loader guarantees at process start: two
/// values, in the two registers the platform ABI designates. Nothing else is
/// established yet — no stack frame, no calling convention.
pub struct LoaderRegs {
    pub first: u64,
    pub second: u64,
}

/// The execution context the trampoline hands to the entry point: a usable
/// stack pointer, and the loader value the entry point's calling convention
/// expects forwarded in a register.
pub struct EntryContext {
    pub stack_pointer: u64,
    pub forwarded: u64,
}

/// The trampoline's whole effect on machine state, stated over the register
/// values it moves: the first loader-provided value becomes the stack
/// pointer, the second is propagated unchanged for the entry point's calling
/// convention. The real stub is a single branch-free instruction sequence
/// with no prologue; it transfers control to the entry point once and halts
/// the processor should the entry point ever return.
pub fn start(regs: LoaderRegs) -> (c: EntryContext)
    ensures
        c.stack_pointer == regs.first,
        c.forwarded == regs.second,
{
    EntryContext { stack_pointer: regs.first, forwarded: regs.second }
}

} // verus!
