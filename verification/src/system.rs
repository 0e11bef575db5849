//! The life of the interrupt system: the table is built, then installed
//! exactly once, and only then may the interrupt gate be opened. After
//! installation the table is never written again.
//!
//! The module also delivers interrupts to a modelled machine, which is how
//! the behaviour of the whole path (gate, trampoline, handler body, return)
//! is stated and proved.

use vstd::prelude::*;
use crate::handlers::body_actions;
use crate::handlers::body_returns;
use crate::handlers::handler_actions;
use crate::handlers::reopens_gate;
use crate::handlers::resumes;
use crate::handlers::Action;
use crate::handlers::FIRST_DEVICE_VECTOR;
use crate::registers::RegisterFile;
use crate::table::Idt;
use crate::table::IdtPointer;
use crate::table::TABLE_LIMIT;
use crate::trampoline::enter;
use crate::trampoline::execute_program;
use crate::trampoline::lemma_trampoline_restores_machine;
use crate::trampoline::trampoline;
use crate::trampoline::Body;
use crate::trampoline::Machine;

verus! {

/// Where the interrupt system stands in its life.
#[derive(Clone, Copy, Debug, PartialEq, Eq, Structural)]
pub enum Phase {
    /// The table is built; the processor does not know it yet.
    Built,
    /// The processor has been given the table; the interrupt gate has not
    /// been opened.
    Installed,
    /// The interrupt gate has been opened.
    Enabled,
}

/// A step that the life of the interrupt system does not allow.
#[derive(Clone, Copy, Debug, PartialEq, Eq, Structural)]
pub enum LifecycleError {
    /// The table was installed before; it is installed only once.
    AlreadyInstalled,
    /// The interrupt gate may not be opened before the table is installed.
    NotInstalled,
}

/// How the delivery of a vector ends.
#[derive(Clone, Copy, Debug, PartialEq, Eq, Structural)]
pub enum Outcome {
    /// The handler body ran and control is back at the point of
    /// interruption.
    Returned,
    /// The handler body ran, made its report and halted the machine.
    Halted,
    /// The vector has no gate in the table: a fatal condition.
    Unregistered,
    /// No table is installed: a fatal condition.
    NotInstalled,
    /// The interrupt gate is closed; the processor holds the device
    /// interrupt back.
    Deferred,
}

/// What the delivery of a vector did.
#[derive(Debug, PartialEq, Eq)]
pub enum Delivery {
    /// The handler body made `actions`, and `machine` is the state in which
    /// the interrupted program goes on.
    Returned { machine: Machine, actions: Vec<Action> },
    /// The handler body made `actions`, the last of which halted the machine.
    Halted { actions: Vec<Action> },
    /// The vector has no gate in the table: a fatal condition.
    Unregistered,
    /// No table is installed: a fatal condition.
    NotInstalled,
    /// The interrupt gate is closed; the processor holds the device
    /// interrupt back.
    Deferred,
}

impl Delivery {
    /// How this delivery ended.
    pub open spec fn outcome(self) -> Outcome {
        match self {
            Delivery::Returned { .. } => Outcome::Returned,
            Delivery::Halted { .. } => Outcome::Halted,
            Delivery::Unregistered => Outcome::Unregistered,
            Delivery::NotInstalled => Outcome::NotInstalled,
            Delivery::Deferred => Outcome::Deferred,
        }
    }

    /// Whether this delivery ended in a fatal condition, from which the
    /// interrupted program does not go on.
    pub fn is_fatal(&self) -> (fatal: bool)
        ensures
            fatal == (self.outcome() == Outcome::Halted || self.outcome() == Outcome::Unregistered
                || self.outcome() == Outcome::NotInstalled),
    {
        match self {
            Delivery::Halted { .. } => true,
            Delivery::Unregistered => true,
            Delivery::NotInstalled => true,
            _ => false,
        }
    }
}

/// The interrupt system as a value: the gates and the phase.
pub struct SystemView {
    /// What each vector's descriptor says.
    pub table: Seq<Option<u64>>,
    pub phase: Phase,
}

/// How the delivery of `vector` ends in a system with these gates, in this
/// phase. Exceptions are delivered whether the interrupt gate is open or
/// not; device interrupts only when it is open.
pub open spec fn outcome_of(system: SystemView, vector: u8) -> Outcome {
    if system.phase == Phase::Built {
        Outcome::NotInstalled
    } else if vector >= FIRST_DEVICE_VECTOR && system.phase != Phase::Enabled {
        Outcome::Deferred
    } else if system.table[vector as int].is_none() {
        Outcome::Unregistered
    } else if body_returns(vector as isize) {
        Outcome::Returned
    } else {
        Outcome::Halted
    }
}

/// The interrupt system: the table and the phase of its life.
#[derive(Debug)]
pub struct InterruptSystem {
    table: Idt,
    phase: Phase,
}

impl View for InterruptSystem {
    type V = SystemView;

    closed spec fn view(&self) -> SystemView {
        SystemView { table: self.table@, phase: self.phase }
    }
}

impl InterruptSystem {
    /// Takes a finished table. From here on the table cannot be written.
    pub fn new(table: Idt) -> (system: InterruptSystem)
        ensures
            system@ == (SystemView { table: table@, phase: Phase::Built }),
    {
        InterruptSystem { table, phase: Phase::Built }
    }

    /// The phase in which the system is.
    pub fn phase(&self) -> (phase: Phase)
        ensures
            phase == self@.phase,
    {
        self.phase
    }

    /// The table of the system.
    pub fn table(&self) -> (table: &Idt)
        ensures
            table@ == self@.table,
    {
        &self.table
    }

    /// Delivers `vector` to `machine` and says how that ends.
    ///
    /// `error_code` is what the processor supplies with the vector,
    /// `port_byte` is the byte waiting at the keyboard data port, and
    /// `leaves` is what the handler body leaves in the general-purpose
    /// registers.
    ///
    /// Where a handler is installed and its body returns, the processor
    /// enters the trampoline, the trampoline runs around the body, and the
    /// interrupted program gets back every general-purpose register, its
    /// stack, its instruction pointer, code segment and flags, whatever
    /// `leaves` holds.
    pub fn deliver(
        &self,
        vector: u8,
        error_code: isize,
        machine: Machine,
        port_byte: u8,
        leaves: &RegisterFile,
    ) -> (delivery: Delivery)
        ensures
            delivery.outcome() == outcome_of(self@, vector),
            match delivery {
                Delivery::Returned { machine: after, actions } => after@ == machine@ && actions@
                    == body_actions(vector as isize, error_code, port_byte),
                Delivery::Halted { actions } => actions@ == body_actions(
                    vector as isize,
                    error_code,
                    port_byte,
                ),
                _ => true,
            },
    {
        if self.phase == Phase::Built {
            return Delivery::NotInstalled;
        }
        if vector >= FIRST_DEVICE_VECTOR && self.phase != Phase::Enabled {
            return Delivery::Deferred;
        }
        if !self.table.entry(vector).is_present() {
            return Delivery::Unregistered;
        }
        let actions = handler_actions(vector as isize, error_code, port_byte);
        if !resumes(vector as isize) {
            return Delivery::Halted { actions };
        }
        let opens_gate = reopens_gate(&actions);
        let program = trampoline();
        proof {
            lemma_trampoline_restores_machine(machine@, Body { registers: leaves@, opens_gate });
        }
        let after = execute_program(&program, enter(machine), leaves, opens_gate).unwrap();
        Delivery::Returned { machine: after, actions }
    }
}

/// The phase after an attempt to install the table.
pub open spec fn phase_after_install(phase: Phase) -> Phase {
    if phase == Phase::Built {
        Phase::Installed
    } else {
        phase
    }
}

/// What an attempt to install the table at address `base` gives: the
/// location descriptor the first time, a refusal every time after.
pub open spec fn install_result(phase: Phase, base: u64) -> Result<IdtPointer, LifecycleError> {
    if phase == Phase::Built {
        Ok(IdtPointer { limit: TABLE_LIMIT, base })
    } else {
        Err(LifecycleError::AlreadyInstalled)
    }
}

/// The phase after an attempt to open the interrupt gate.
pub open spec fn phase_after_enable(phase: Phase) -> Phase {
    if phase == Phase::Built {
        Phase::Built
    } else {
        Phase::Enabled
    }
}

/// What an attempt to open the interrupt gate gives: a refusal as long as
/// the table is not installed.
pub open spec fn enable_result(phase: Phase) -> Result<(), LifecycleError> {
    if phase == Phase::Built {
        Err(LifecycleError::NotInstalled)
    } else {
        Ok(())
    }
}

/// The phase after `attempts` attempts to open the interrupt gate.
pub open spec fn after_enables(phase: Phase, attempts: nat) -> Phase
    decreases attempts,
{
    if attempts == 0 {
        phase
    } else {
        phase_after_enable(after_enables(phase, (attempts - 1) as nat))
    }
}

/// Installs the table, which lies at address `base`: gives the location
/// descriptor to load into the processor's interrupt-table register. This
/// succeeds once; every later attempt is refused and changes nothing.
pub fn install(system: &mut InterruptSystem, base: u64) -> (pointer: Result<
    IdtPointer,
    LifecycleError,
>)
    ensures
        pointer == install_result(old(system)@.phase, base),
        final(system)@ == (SystemView {
            table: old(system)@.table,
            phase: phase_after_install(old(system)@.phase),
        }),
{
    match system.phase {
        Phase::Built => {
            let pointer = system.table.install(base);
            system.phase = Phase::Installed;
            Ok(pointer)
        },
        _ => Err(LifecycleError::AlreadyInstalled),
    }
}

/// Opens the interrupt gate. This is refused, and changes nothing, as long
/// as the table is not installed; after that it succeeds every time.
pub fn enable(system: &mut InterruptSystem) -> (opened: Result<(), LifecycleError>)
    ensures
        opened == enable_result(old(system)@.phase),
        final(system)@ == (SystemView {
            table: old(system)@.table,
            phase: phase_after_enable(old(system)@.phase),
        }),
{
    match system.phase {
        Phase::Built => Err(LifecycleError::NotInstalled),
        _ => {
            system.phase = Phase::Enabled;
            Ok(())
        },
    }
}

/// The table is installed at most once: in whatever phase the first attempt
/// is made, it leaves a phase in which every further attempt is refused and
/// changes nothing, whether or not the interrupt gate is opened in between.
pub proof fn lemma_second_install_is_refused(phase: Phase, again: u64, enables: nat)
    ensures
        install_result(after_enables(phase_after_install(phase), enables), again) == Err::<
            IdtPointer,
            LifecycleError,
        >(LifecycleError::AlreadyInstalled),
        phase_after_install(after_enables(phase_after_install(phase), enables)) == after_enables(
            phase_after_install(phase),
            enables,
        ),
    decreases enables,
{
    if enables > 0 {
        lemma_second_install_is_refused(phase, again, (enables - 1) as nat);
    }
}

/// The interrupt gate is not opened before the table is installed: however
/// often that is attempted on a system whose table is not installed, every
/// attempt is refused and the system stays as it is.
pub proof fn lemma_no_enable_before_install(attempts: nat)
    ensures
        after_enables(Phase::Built, attempts) == Phase::Built,
        enable_result(after_enables(Phase::Built, attempts)) == Err::<(), LifecycleError>(
            LifecycleError::NotInstalled,
        ),
    decreases attempts,
{
    if attempts > 0 {
        lemma_no_enable_before_install((attempts - 1) as nat);
    }
}

/// Once the table is installed, the interrupt gate can be opened, and it
/// stays open: no attempt to install or to enable closes it again.
pub proof fn lemma_open_gate_stays_open(phase: Phase)
    requires
        phase != Phase::Built,
    ensures
        enable_result(phase) == Ok::<(), LifecycleError>(()),
        phase_after_enable(phase) == Phase::Enabled,
        phase_after_install(Phase::Enabled) == Phase::Enabled,
        phase_after_enable(Phase::Enabled) == Phase::Enabled,
{
}

/// A vector without a descriptor is never handled: in every phase, its
/// delivery ends in a fatal condition or is held back, and no handler body
/// runs. Once the interrupt gate is open it is always the fatal condition.
pub proof fn lemma_unregistered_vector_is_fatal(system: SystemView, vector: u8)
    requires
        system.table[vector as int].is_none(),
    ensures
        outcome_of(system, vector) != Outcome::Returned,
        outcome_of(system, vector) != Outcome::Halted,
        system.phase == Phase::Enabled ==> outcome_of(system, vector) == Outcome::Unregistered,
{
}

/// A delivery returns to the interrupted program exactly when the table is
/// installed, the vector has a descriptor, its handler body is one that
/// returns, and, for a device vector, the interrupt gate is open.
pub proof fn lemma_returning_deliveries(system: SystemView, vector: u8)
    ensures
        outcome_of(system, vector) == Outcome::Returned <==> {
            &&& system.table[vector as int].is_some()
            &&& system.phase == Phase::Enabled
            &&& (vector == 32 || vector == 33)
        },
{
}

} // verus!
