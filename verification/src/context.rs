//! Saved register context of a coroutine (`x86_64` System V ABI).
//!
//! Only the callee-saved registers are kept, plus the resume address and the
//! stack pointer: RIP, RSP, RBX, RBP, R12-R15, one 8-byte slot each, in this
//! order. The context switch routine addresses the slots by these offsets.
use vstd::prelude::*;

verus! {

/// Size in bytes of a saved context: eight 8-byte slots.
pub const CONTEXT_SIZE: usize = 64;

/// Bytes of one register slot.
pub const SLOT_BYTES: usize = 8;

/// The registers a context saves.
#[derive(Debug, Clone, Copy, PartialEq, Eq)]
pub enum Register {
    /// Next instruction address (where a resume jumps to).
    Rip,
    /// Stack pointer.
    Rsp,
    /// RBX (callee-saved).
    Rbx,
    /// RBP (frame pointer, callee-saved).
    Rbp,
    /// R12 (callee-saved; carries the closure address into a new coroutine).
    R12,
    /// R13 (callee-saved).
    R13,
    /// R14 (callee-saved).
    R14,
    /// R15 (callee-saved).
    R15,
}

impl Register {
    /// Index of the register's slot in a context.
    pub open spec fn spec_slot(self) -> nat {
        match self {
            Register::Rip => 0,
            Register::Rsp => 1,
            Register::Rbx => 2,
            Register::Rbp => 3,
            Register::R12 => 4,
            Register::R13 => 5,
            Register::R14 => 6,
            Register::R15 => 7,
        }
    }

    /// Index of the register's slot in a context.
    pub fn slot(self) -> (i: usize)
        ensures
            i == self.spec_slot(),
    {
        match self {
            Register::Rip => 0,
            Register::Rsp => 1,
            Register::Rbx => 2,
            Register::Rbp => 3,
            Register::R12 => 4,
            Register::R13 => 5,
            Register::R14 => 6,
            Register::R15 => 7,
        }
    }

    /// Byte offset of the register's slot in a context.
    pub fn offset(self) -> (o: usize)
        ensures
            o == SLOT_BYTES * self.spec_slot(),
    {
        SLOT_BYTES * self.slot()
    }
}

/// Slots are disjoint and lie inside a context: distinct registers have
/// distinct slots, and every slot ends within `CONTEXT_SIZE` bytes.
pub proof fn lemma_register_layout(a: Register, b: Register)
    ensures
        a != b ==> a.spec_slot() != b.spec_slot(),
        SLOT_BYTES * a.spec_slot() + SLOT_BYTES <= CONTEXT_SIZE,
{
}

/// A saved register context: slot `i` holds the register whose
/// `spec_slot()` is `i`.
#[derive(Debug, Clone, Copy)]
pub struct Context {
    /// The eight register slots, laid out contiguously.
    pub regs: [usize; 8],
}

impl Default for Context {
    fn default() -> (c: Context)
        ensures
            forall|i: int| 0 <= i < 8 ==> c.regs@[i] == 0,
    {
        Context { regs: [0, 0, 0, 0, 0, 0, 0, 0] }
    }
}

impl Context {
    /// Value saved for register `r`.
    pub open spec fn reg(&self, r: Register) -> usize {
        self.regs@[r.spec_slot() as int]
    }

    /// Value saved for register `r`.
    pub fn get(&self, r: Register) -> (v: usize)
        ensures
            v == self.reg(r),
    {
        self.regs[r.slot()]
    }

    /// Saves `v` for register `r`; the other slots keep their values.
    pub fn set(&mut self, r: Register, v: usize)
        ensures
            final(self).regs@ == old(self).regs@.update(r.spec_slot() as int, v),
    {
        let i: usize = r.slot();
        self.regs[i] = v;
    }

    /// Byte offset of register `r`'s slot.
    pub fn offset_of(&self, r: Register) -> (o: usize)
        ensures
            o == SLOT_BYTES * r.spec_slot(),
    {
        r.offset()
    }

    /// The first context of a new coroutine: resuming it jumps to `entry`
    /// with the stack pointer 8 bytes below `stack_top` (so that at `entry`
    /// the stack is aligned as just after a call) and the closure address in
    /// R12; every other slot is zero.
    pub fn for_entry(entry: usize, stack_top: usize, closure: usize) -> (c: Context)
        requires
            stack_top >= 8,
        ensures
            c.reg(Register::Rip) == entry,
            c.reg(Register::Rsp) == stack_top - 8,
            c.reg(Register::R12) == closure,
            c.reg(Register::Rbx) == 0,
            c.reg(Register::Rbp) == 0,
            c.reg(Register::R13) == 0,
            c.reg(Register::R14) == 0,
            c.reg(Register::R15) == 0,
            stack_top % 16 == 0 ==> c.reg(Register::Rsp) % 16 == 8,
    {
        let mut c = Context::default();
        c.set(Register::Rip, entry);
        c.set(Register::Rsp, stack_top - 8);
        c.set(Register::R12, closure);
        c
    }
}

} // verus!
