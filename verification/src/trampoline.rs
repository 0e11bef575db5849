//! Entry trampolines: the instruction sequence that stands between the
//! processor's interrupt entry and a handler body, and a model of the machine
//! on which its effect can be run and proved.
//!
//! A trampoline saves every general-purpose register, passes the address of
//! the saved block to the handler body, calls the body, restores the
//! registers in exactly the reverse order, and returns from the interrupt.
//! Both halves are produced from the one save order of
//! [`crate::registers::save_order`].

use vstd::prelude::*;
use crate::registers::lemma_save_order_is_complete;
use crate::registers::save_order;
use crate::registers::saved_registers;
use crate::registers::Register;
use crate::registers::RegisterFile;

verus! {

/// The interrupt-acceptance bit of the flags word.
pub const INTERRUPT_FLAG: u64 = 0x200;

/// Number of words that the processor pushes on interrupt entry: flags, code
/// segment and instruction pointer.
pub const FRAME_WORDS: usize = 3;

/// One instruction of a trampoline.
#[derive(Clone, Copy, Debug, PartialEq, Eq, Structural)]
pub enum Instruction {
    /// Pushes a register onto the stack.
    Push(Register),
    /// Pops the top of the stack into a register.
    Pop(Register),
    /// Copies the stack pointer into a register. The model counts the stack
    /// pointer in words from the bottom of the stack.
    CopyStackPointer(Register),
    /// Calls the handler body.
    CallBody,
    /// Drops the top word of the stack.
    Discard,
    /// Returns from the interrupt: pops instruction pointer, code segment
    /// and flags.
    InterruptReturn,
}

/// The state of the processor, as far as an interrupt touches it.
pub struct MachineView {
    /// The general-purpose registers, by slot.
    pub registers: Seq<u64>,
    /// The stack, bottom first.
    pub stack: Seq<u64>,
    pub instruction_pointer: u64,
    pub code_segment: u64,
    pub flags: u64,
}

/// What a handler body does to the machine, as far as the trampoline can
/// tell: the body may leave any values in the registers, and it may re-open
/// the interrupt gate. It leaves the stack as it found it.
pub struct Body {
    /// The register contents that the body leaves behind.
    pub registers: Seq<u64>,
    /// Whether the body enables interrupt acceptance.
    pub opens_gate: bool,
}

/// The state of the processor, as far as an interrupt touches it.
#[derive(Clone, Debug, PartialEq, Eq)]
pub struct Machine {
    pub registers: RegisterFile,
    /// The stack, bottom first.
    pub stack: Vec<u64>,
    pub instruction_pointer: u64,
    pub code_segment: u64,
    pub flags: u64,
}

impl Machine {
    /// Whether the machine accepts interrupts.
    pub fn accepts_interrupts(&self) -> (accepts: bool)
        ensures
            accepts == accepting(self@.flags),
    {
        self.flags & INTERRUPT_FLAG != 0
    }
}

impl View for Machine {
    type V = MachineView;

    open spec fn view(&self) -> MachineView {
        MachineView {
            registers: self.registers@,
            stack: self.stack@,
            instruction_pointer: self.instruction_pointer,
            code_segment: self.code_segment,
            flags: self.flags,
        }
    }
}

/// Whether a flags word lets the processor accept interrupts.
pub open spec fn accepting(flags: u64) -> bool {
    flags & INTERRUPT_FLAG != 0
}

/// The machine right after the processor has accepted an interrupt: flags,
/// code segment and instruction pointer are on the stack, and interrupt
/// acceptance is switched off.
pub open spec fn entered(machine: MachineView) -> MachineView {
    MachineView {
        stack: machine.stack.push(machine.flags).push(machine.code_segment).push(
            machine.instruction_pointer,
        ),
        flags: machine.flags & !INTERRUPT_FLAG,
        ..machine
    }
}

/// The machine after one instruction, or `None` where the instruction finds
/// too little on the stack.
pub open spec fn step(instruction: Instruction, machine: MachineView, body: Body) -> Option<
    MachineView,
> {
    match instruction {
        Instruction::Push(register) => Some(
            MachineView {
                stack: machine.stack.push(machine.registers[register.slot()]),
                ..machine
            },
        ),
        Instruction::Pop(register) => if machine.stack.len() == 0 {
            None
        } else {
            Some(
                MachineView {
                    registers: machine.registers.update(register.slot(), machine.stack.last()),
                    stack: machine.stack.drop_last(),
                    ..machine
                },
            )
        },
        Instruction::CopyStackPointer(register) => Some(
            MachineView {
                registers: machine.registers.update(
                    register.slot(),
                    machine.stack.len() as u64,
                ),
                ..machine
            },
        ),
        Instruction::CallBody => Some(
            MachineView {
                registers: body.registers,
                flags: if body.opens_gate {
                    machine.flags | INTERRUPT_FLAG
                } else {
                    machine.flags
                },
                ..machine
            },
        ),
        Instruction::Discard => if machine.stack.len() == 0 {
            None
        } else {
            Some(MachineView { stack: machine.stack.drop_last(), ..machine })
        },
        Instruction::InterruptReturn => if machine.stack.len() < 3 {
            None
        } else {
            Some(
                MachineView {
                    registers: machine.registers,
                    stack: machine.stack.take(machine.stack.len() - 3),
                    instruction_pointer: machine.stack[machine.stack.len() - 1],
                    code_segment: machine.stack[machine.stack.len() - 2],
                    flags: machine.stack[machine.stack.len() - 3],
                },
            )
        },
    }
}

/// The machine after a whole program, or `None` where one of its
/// instructions finds too little on the stack.
pub open spec fn run(program: Seq<Instruction>, machine: MachineView, body: Body) -> Option<
    MachineView,
>
    decreases program.len(),
{
    if program.len() == 0 {
        Some(machine)
    } else {
        match step(program[0], machine, body) {
            Some(next) => run(program.skip(1), next, body),
            None => None,
        }
    }
}

/// The instructions that save `list`, first register first.
pub open spec fn saves(list: Seq<Register>) -> Seq<Instruction> {
    Seq::new(list.len(), |i: int| Instruction::Push(list[i]))
}

/// The instructions that restore `list`, last register first.
pub open spec fn restores(list: Seq<Register>) -> Seq<Instruction> {
    Seq::new(list.len(), |i: int| Instruction::Pop(list[list.len() - 1 - i]))
}

/// The call of the handler body: the address of the saved block is passed on
/// the stack and dropped again after the body has returned.
pub open spec fn call_sequence() -> Seq<Instruction> {
    seq![
        Instruction::CopyStackPointer(Register::Rsi),
        Instruction::Push(Register::Rsi),
        Instruction::CallBody,
        Instruction::Discard,
    ]
}

/// The part of a trampoline that runs with the registers of `list` saved.
pub open spec fn guarded_call(list: Seq<Register>) -> Seq<Instruction> {
    saves(list) + call_sequence() + restores(list)
}

/// The whole trampoline: save, call, restore in reverse, return.
pub open spec fn trampoline_program() -> Seq<Instruction> {
    guarded_call(save_order()) + seq![Instruction::InterruptReturn]
}

/// The two halves of a trampoline mirror each other: the trampoline has 35
/// instructions, the first fifteen push the registers in save order, and the
/// pop of each register stands as far from the end of the restore half as
/// its push stands from the start of the save half.
pub proof fn lemma_trampoline_is_mirrored()
    ensures
        trampoline_program().len() == 35,
        forall|i: int|
            0 <= i < 15 ==> #[trigger] trampoline_program()[i] == Instruction::Push(
                save_order()[i],
            ),
        forall|i: int|
            0 <= i < 15 ==> #[trigger] trampoline_program()[33 - i] == Instruction::Pop(
                save_order()[i],
            ),
        trampoline_program()[17] == Instruction::CallBody,
        trampoline_program()[34] == Instruction::InterruptReturn,
{
    lemma_save_order_is_complete();
}

/// From the processor's entry until a handler body re-opens the interrupt
/// gate, no further interrupt is accepted; when the body re-opens it,
/// interrupts are accepted again. Neither changes any other bit of the
/// flags.
pub proof fn lemma_acceptance(machine: MachineView, body: Body)
    requires
        body.opens_gate,
    ensures
        !accepting(entered(machine).flags),
        entered(machine).flags | INTERRUPT_FLAG == machine.flags | INTERRUPT_FLAG,
        step(Instruction::CallBody, machine, body) matches Some(after) && accepting(after.flags)
            && after.flags & !INTERRUPT_FLAG == machine.flags & !INTERRUPT_FLAG,
{
    let flags = machine.flags;
    assert((flags & !0x200u64) & 0x200u64 == 0 && (flags & !0x200u64) | 0x200u64 == flags
        | 0x200u64 && (flags | 0x200u64) & 0x200u64 != 0 && (flags | 0x200u64) & !0x200u64 == flags
        & !0x200u64) by (bit_vector);
}

/// Running two programs one after the other is running the first and then,
/// from where it ended, the second.
pub proof fn lemma_run_concat(
    first: Seq<Instruction>,
    second: Seq<Instruction>,
    machine: MachineView,
    body: Body,
)
    ensures
        run(first + second, machine, body) == match run(first, machine, body) {
            Some(between) => run(second, between, body),
            None => None,
        },
    decreases first.len(),
{
    if first.len() == 0 {
        assert(first + second =~= second);
    } else {
        assert((first + second)[0] == first[0]);
        assert((first + second).skip(1) =~= first.skip(1) + second);
        match step(first[0], machine, body) {
            Some(next) => {
                lemma_run_concat(first.skip(1), second, next, body);
            },
            None => {},
        }
    }
}

/// The call sequence hands the machine to the body and takes it back with
/// the stack as it was.
pub proof fn lemma_call_sequence(machine: MachineView, body: Body)
    ensures
        run(call_sequence(), machine, body) == Some(
            MachineView {
                registers: body.registers,
                flags: if body.opens_gate {
                    machine.flags | INTERRUPT_FLAG
                } else {
                    machine.flags
                },
                ..machine
            },
        ),
{
    reveal_with_fuel(run, 5);
    let program = call_sequence();
    let copied = step(program[0], machine, body).unwrap();
    let pushed = step(program[1], copied, body).unwrap();
    let called = step(program[2], pushed, body).unwrap();
    let dropped = step(program[3], called, body).unwrap();
    assert(program.skip(1)[0] == program[1]);
    assert(program.skip(1).skip(1)[0] == program[2]);
    assert(program.skip(1).skip(1).skip(1)[0] == program[3]);
    assert(program.skip(1).skip(1).skip(1).skip(1).len() == 0);
    assert(dropped.stack =~= machine.stack);
}

/// Push and pop symmetry: whatever registers `list` names, and whatever the
/// body leaves in the registers, after the guarded call every register of
/// `list` holds what it held before, and the stack is as it was. The
/// registers that `list` does not name hold what the body left in them.
pub proof fn lemma_guarded_call_restores(list: Seq<Register>, machine: MachineView, body: Body)
    requires
        machine.registers.len() == 15,
        body.registers.len() == 15,
    ensures
        run(guarded_call(list), machine, body) matches Some(after) && {
            &&& after.stack == machine.stack
            &&& after.instruction_pointer == machine.instruction_pointer
            &&& after.code_segment == machine.code_segment
            &&& after.flags == if body.opens_gate {
                machine.flags | INTERRUPT_FLAG
            } else {
                machine.flags
            }
            &&& after.registers.len() == 15
            &&& forall|slot: int|
                0 <= slot < 15 ==> after.registers[slot] == if exists|k: int|
                    0 <= k < list.len() && (#[trigger] list[k]).slot() == slot {
                    machine.registers[slot]
                } else {
                    body.registers[slot]
                }
        },
    decreases list.len(),
{
    if list.len() == 0 {
        assert(guarded_call(list) =~= call_sequence());
        lemma_call_sequence(machine, body);
    } else {
        let outer = list[0];
        let inner = list.skip(1);
        let push = seq![Instruction::Push(outer)];
        let pop = seq![Instruction::Pop(outer)];
        assert(guarded_call(list) =~= push + (guarded_call(inner) + pop));
        let saved = step(Instruction::Push(outer), machine, body).unwrap();
        assert(run(push, machine, body) == Some(saved)) by {
            reveal_with_fuel(run, 2);
            assert(push.skip(1).len() == 0);
        }
        lemma_run_concat(push, guarded_call(inner) + pop, machine, body);
        lemma_guarded_call_restores(inner, saved, body);
        let returned = run(guarded_call(inner), saved, body).unwrap();
        lemma_run_concat(guarded_call(inner), pop, saved, body);
        let after = step(Instruction::Pop(outer), returned, body).unwrap();
        assert(run(pop, returned, body) == Some(after)) by {
            reveal_with_fuel(run, 2);
            assert(pop.skip(1).len() == 0);
        }
        assert(after.stack =~= machine.stack);
        assert forall|slot: int| 0 <= slot < 15 implies after.registers[slot] == if exists|k: int|
            0 <= k < list.len() && (#[trigger] list[k]).slot() == slot {
            machine.registers[slot]
        } else {
            body.registers[slot]
        } by {
            if slot == outer.slot() {
                assert(list[0].slot() == slot);
            } else if exists|k: int| 0 <= k < inner.len() && (#[trigger] inner[k]).slot() == slot {
                let k = choose|k: int| 0 <= k < inner.len() && (#[trigger] inner[k]).slot() == slot;
                assert(list[k + 1].slot() == slot);
            } else {
                if exists|k: int| 0 <= k < list.len() && (#[trigger] list[k]).slot() == slot {
                    let k = choose|k: int|
                        0 <= k < list.len() && (#[trigger] list[k]).slot() == slot;
                    assert(inner[k - 1].slot() == slot);
                }
            }
        }
    }
}

/// A trampoline gives the interrupted program its machine back: from the
/// state in which the processor enters the trampoline, the trampoline runs
/// to its end, and then every general-purpose register, the stack, the
/// instruction pointer, the code segment and the flags are what they were
/// before the interrupt, whatever the handler body left in the registers.
pub proof fn lemma_trampoline_restores_machine(machine: MachineView, body: Body)
    requires
        machine.registers.len() == 15,
        body.registers.len() == 15,
    ensures
        run(trampoline_program(), entered(machine), body) == Some(machine),
{
    let start = entered(machine);
    let last = seq![Instruction::InterruptReturn];
    lemma_save_order_is_complete();
    lemma_guarded_call_restores(save_order(), start, body);
    lemma_run_concat(guarded_call(save_order()), last, start, body);
    let restored = run(guarded_call(save_order()), start, body).unwrap();
    assert forall|slot: int| 0 <= slot < 15 implies restored.registers[slot]
        == machine.registers[slot] by {
        assert(save_order()[slot].slot() == slot);
    }
    assert(restored.registers =~= machine.registers);
    let after = step(Instruction::InterruptReturn, restored, body).unwrap();
    assert(run(last, restored, body) == Some(after)) by {
        reveal_with_fuel(run, 2);
        assert(last.skip(1).len() == 0);
    }
    assert(after.stack =~= machine.stack);
}

/// Builds the trampoline. The pushes are made from the save order read
/// forwards and the pops from the same list read backwards.
pub fn trampoline() -> (program: Vec<Instruction>)
    ensures
        program@ == trampoline_program(),
{
    let list: [Register; 15] = saved_registers();
    let mut program: Vec<Instruction> = Vec::new();
    let mut next: usize = 0;
    while next < 15
        invariant
            next <= 15,
            list@ == save_order(),
            program@ == saves(save_order()).take(next as int),
        decreases 15 - next,
    {
        program.push(Instruction::Push(list[next]));
        assert(program@ =~= saves(save_order()).take(next + 1));
        next += 1;
    }
    program.push(Instruction::CopyStackPointer(Register::Rsi));
    program.push(Instruction::Push(Register::Rsi));
    program.push(Instruction::CallBody);
    program.push(Instruction::Discard);
    assert(program@ =~= saves(save_order()) + call_sequence());
    let mut left: usize = 15;
    while left > 0
        invariant
            left <= 15,
            list@ == save_order(),
            program@ == saves(save_order()) + call_sequence() + restores(save_order()).take(
                15 - left,
            ),
        decreases left,
    {
        left -= 1;
        program.push(Instruction::Pop(list[left]));
        assert(program@ =~= saves(save_order()) + call_sequence() + restores(save_order()).take(
            15 - left,
        ));
    }
    program.push(Instruction::InterruptReturn);
    assert(program@ =~= trampoline_program());
    program
}

/// Puts the machine into the state in which the processor enters a
/// trampoline: pushes flags, code segment and instruction pointer, and
/// switches interrupt acceptance off.
pub fn enter(machine: Machine) -> (inside: Machine)
    ensures
        inside@ == entered(machine@),
{
    let mut inside = machine;
    inside.stack.push(inside.flags);
    inside.stack.push(inside.code_segment);
    inside.stack.push(inside.instruction_pointer);
    inside.flags = inside.flags & !INTERRUPT_FLAG;
    inside
}

/// Executes one instruction. The handler body, where the instruction calls
/// it, leaves `leaves` in the registers and enables interrupt acceptance if
/// `opens_gate` is set.
pub fn execute(
    instruction: Instruction,
    machine: Machine,
    leaves: &RegisterFile,
    opens_gate: bool,
) -> (after: Option<Machine>)
    ensures
        after.is_some() == step(
            instruction,
            machine@,
            Body { registers: leaves@, opens_gate },
        ).is_some(),
        after matches Some(next) ==> Some(next@) == step(
            instruction,
            machine@,
            Body { registers: leaves@, opens_gate },
        ),
{
    let mut next = machine;
    match instruction {
        Instruction::Push(register) => {
            let value: u64 = next.registers.get(register);
            next.stack.push(value);
        },
        Instruction::Pop(register) => {
            match next.stack.pop() {
                Some(value) => {
                    next.registers.set(register, value);
                },
                None => {
                    return None;
                },
            }
        },
        Instruction::CopyStackPointer(register) => {
            let depth: u64 = next.stack.len() as u64;
            next.registers.set(register, depth);
        },
        Instruction::CallBody => {
            next.registers = *leaves;
            if opens_gate {
                next.flags = next.flags | INTERRUPT_FLAG;
            }
        },
        Instruction::Discard => {
            if next.stack.pop().is_none() {
                return None;
            }
        },
        Instruction::InterruptReturn => {
            if next.stack.len() < FRAME_WORDS {
                return None;
            }
            let instruction_pointer = next.stack.pop();
            let code_segment = next.stack.pop();
            let flags = next.stack.pop();
            match (instruction_pointer, code_segment, flags) {
                (Some(instruction_pointer), Some(code_segment), Some(flags)) => {
                    next.instruction_pointer = instruction_pointer;
                    next.code_segment = code_segment;
                    next.flags = flags;
                    assert(next.stack@ =~= machine.stack@.take(machine.stack@.len() - 3));
                },
                _ => {
                    return None;
                },
            }
        },
    }
    Some(next)
}

/// Executes a program from its first instruction to its last, and gives the
/// machine in which it ends, or `None` if an instruction found too little on
/// the stack.
pub fn execute_program(
    program: &Vec<Instruction>,
    machine: Machine,
    leaves: &RegisterFile,
    opens_gate: bool,
) -> (after: Option<Machine>)
    ensures
        after.is_some() == run(
            program@,
            machine@,
            Body { registers: leaves@, opens_gate },
        ).is_some(),
        after matches Some(end) ==> Some(end@) == run(
            program@,
            machine@,
            Body { registers: leaves@, opens_gate },
        ),
{
    let ghost body = Body { registers: leaves@, opens_gate };
    let ghost start = machine@;
    let mut current = machine;
    let mut counter: usize = 0;
    assert(program@.skip(0) =~= program@);
    while counter < program.len()
        invariant
            counter <= program@.len(),
            start == machine@,
            body == (Body { registers: leaves@, opens_gate }),
            run(program@, start, body) == run(program@.skip(counter as int), current@, body),
        decreases program@.len() - counter,
    {
        let ghost rest = program@.skip(counter as int);
        assert(rest[0] == program@[counter as int]);
        assert(rest.skip(1) =~= program@.skip(counter + 1));
        assert(run(rest, current@, body) == match step(rest[0], current@, body) {
            Some(next) => run(rest.skip(1), next, body),
            None => None,
        });
        match execute(program[counter], current, leaves, opens_gate) {
            Some(next) => {
                current = next;
            },
            None => {
                return None;
            },
        }
        counter += 1;
    }
    assert(program@.skip(counter as int).len() == 0);
    Some(current)
}

} // verus!
