//! The general-purpose registers that an interrupt must leave untouched, in
//! the one order from which both halves of every entry trampoline are made.

use vstd::prelude::*;

verus! {

/// A general-purpose register. The variants stand in the order in which a
/// trampoline saves them.
#[derive(Clone, Copy, Debug, PartialEq, Eq, Structural)]
pub enum Register {
    Rbp,
    R15,
    R14,
    R13,
    R12,
    R11,
    R10,
    R9,
    R8,
    Rsi,
    Rdi,
    Rdx,
    Rcx,
    Rbx,
    Rax,
}

/// The registers in the order in which a trampoline saves them. The restore
/// order is this list read backwards; neither is written down anywhere else.
pub open spec fn save_order() -> Seq<Register> {
    seq![
        Register::Rbp,
        Register::R15,
        Register::R14,
        Register::R13,
        Register::R12,
        Register::R11,
        Register::R10,
        Register::R9,
        Register::R8,
        Register::Rsi,
        Register::Rdi,
        Register::Rdx,
        Register::Rcx,
        Register::Rbx,
        Register::Rax,
    ]
}

impl Register {
    /// The place of this register in the save order, and in a register file.
    pub open spec fn slot(self) -> int {
        match self {
            Register::Rbp => 0,
            Register::R15 => 1,
            Register::R14 => 2,
            Register::R13 => 3,
            Register::R12 => 4,
            Register::R11 => 5,
            Register::R10 => 6,
            Register::R9 => 7,
            Register::R8 => 8,
            Register::Rsi => 9,
            Register::Rdi => 10,
            Register::Rdx => 11,
            Register::Rcx => 12,
            Register::Rbx => 13,
            Register::Rax => 14,
        }
    }

    /// The place of this register in the save order, and in a register file.
    pub fn index(self) -> (index: usize)
        ensures
            index == self.slot(),
            index < 15,
    {
        match self {
            Register::Rbp => 0,
            Register::R15 => 1,
            Register::R14 => 2,
            Register::R13 => 3,
            Register::R12 => 4,
            Register::R11 => 5,
            Register::R10 => 6,
            Register::R9 => 7,
            Register::R8 => 8,
            Register::Rsi => 9,
            Register::Rdi => 10,
            Register::Rdx => 11,
            Register::Rcx => 12,
            Register::Rbx => 13,
            Register::Rax => 14,
        }
    }
}

/// The save order names every register exactly once: each register stands at
/// its own slot, and every slot holds a register.
pub proof fn lemma_save_order_is_complete()
    ensures
        save_order().len() == 15,
        forall|register: Register| #[trigger]
            save_order()[register.slot()] == register && 0 <= register.slot() < 15,
        forall|slot: int| 0 <= slot < 15 ==> (#[trigger] save_order()[slot]).slot() == slot,
{
}

/// The registers in save order, as a value.
pub fn saved_registers() -> (list: [Register; 15])
    ensures
        list@ == save_order(),
{
    let list: [Register; 15] = [
        Register::Rbp,
        Register::R15,
        Register::R14,
        Register::R13,
        Register::R12,
        Register::R11,
        Register::R10,
        Register::R9,
        Register::R8,
        Register::Rsi,
        Register::Rdi,
        Register::Rdx,
        Register::Rcx,
        Register::Rbx,
        Register::Rax,
    ];
    assert(list@ =~= save_order());
    list
}

/// The contents of the general-purpose registers, by slot.
#[derive(Clone, Copy, Debug, PartialEq, Eq)]
pub struct RegisterFile {
    /// The value of each register, at the register's slot.
    pub values: [u64; 15],
}

impl View for RegisterFile {
    type V = Seq<u64>;

    open spec fn view(&self) -> Seq<u64> {
        self.values@
    }
}

impl RegisterFile {
    /// The value that `register` holds.
    pub fn get(&self, register: Register) -> (value: u64)
        ensures
            value == self@[register.slot()],
    {
        self.values[register.index()]
    }

    /// Puts `value` into `register`; every other register keeps its value.
    pub fn set(&mut self, register: Register, value: u64)
        ensures
            final(self)@ == old(self)@.update(register.slot(), value),
    {
        self.values[register.index()] = value;
    }
}

} // verus!
