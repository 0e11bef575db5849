//! The handler bodies: what is done, call by call, when a vector is
//! delivered.
//!
//! A body is a short fixed sequence of actions. The library decides which
//! action comes next; the caller performs it (a port read, a call to a
//! collaborator, an instruction) and asks again. Every vector is routed by
//! the one registry [`kind_of`], so a vector has exactly one policy.
//!
//! Processor exceptions (vectors 0 to 31) are not raised by the interrupt
//! controller, so their bodies never acknowledge there: they report and
//! halt. The same holds for any vector that has no handler of its own.

use vstd::prelude::*;

verus! {

/// Vectors below this one are reserved for processor exceptions.
pub const FIRST_DEVICE_VECTOR: u8 = 32;

/// The vector of the timer.
pub const TIMER_VECTOR: u8 = 32;

/// The vector of the keyboard.
pub const KEYBOARD_VECTOR: u8 = 33;

/// The data port of the keyboard controller.
pub const KEYBOARD_DATA_PORT: u16 = 0x60;

/// Number of vectors that have a handler body of their own: the exceptions,
/// the timer and the keyboard.
pub const REGISTERED_VECTORS: usize = 34;

/// What kind of handler body a vector has.
#[derive(Clone, Copy, Debug, PartialEq, Eq, Structural)]
pub enum HandlerKind {
    /// A processor exception: fatal unless a recovery policy is defined, and
    /// none is.
    Exception,
    /// The timer tick.
    Timer,
    /// A byte is ready at the keyboard controller.
    Keyboard,
    /// A vector for which no handler body exists.
    Unhandled,
}

/// One call that a handler body makes.
#[derive(Clone, Copy, Debug, PartialEq, Eq, Structural)]
pub enum Action {
    /// Read one byte from an I/O port.
    ReadPort { port: u16 },
    /// Hand a raw scancode to the keyboard collaborator.
    DispatchScancode { code: u8 },
    /// Tell the interrupt controller that the vector has been serviced.
    Acknowledge { vector: isize },
    /// Re-open the global interrupt gate.
    EnableInterrupts,
    /// Produce the diagnostic report for a fatal vector.
    Report { vector: isize, error_code: isize },
    /// Stop the machine.
    Halt,
}

/// The registry: the kind of handler body of each vector.
pub open spec fn kind_of(vector: isize) -> HandlerKind {
    if 0 <= vector < 32 {
        HandlerKind::Exception
    } else if vector == 32 {
        HandlerKind::Timer
    } else if vector == 33 {
        HandlerKind::Keyboard
    } else {
        HandlerKind::Unhandled
    }
}

/// Whether the body of `vector` returns to the interrupted program. The
/// bodies of the timer and of the keyboard do; every other body halts.
pub open spec fn body_returns(vector: isize) -> bool {
    kind_of(vector) == HandlerKind::Timer || kind_of(vector) == HandlerKind::Keyboard
}

/// The calls that the body of `vector` makes, in order, when the processor
/// supplies `error_code` and the keyboard data port yields `port_byte`.
pub open spec fn body_actions(vector: isize, error_code: isize, port_byte: u8) -> Seq<Action> {
    match kind_of(vector) {
        HandlerKind::Timer => seq![
            Action::Acknowledge { vector: TIMER_VECTOR as isize },
            Action::EnableInterrupts,
        ],
        HandlerKind::Keyboard => seq![
            Action::ReadPort { port: KEYBOARD_DATA_PORT },
            Action::DispatchScancode { code: port_byte },
            Action::Acknowledge { vector: KEYBOARD_VECTOR as isize },
            Action::EnableInterrupts,
        ],
        _ => seq![Action::Report { vector, error_code }, Action::Halt],
    }
}

/// How many of `actions` are of the kind that `wanted` picks out.
pub open spec fn count(actions: Seq<Action>, wanted: spec_fn(Action) -> bool) -> nat
    decreases actions.len(),
{
    if actions.len() == 0 {
        0
    } else {
        count(actions.drop_last(), wanted) + if wanted(actions.last()) {
            1nat
        } else {
            0nat
        }
    }
}

/// The place of the first of `actions` that `wanted` picks out, or the
/// length of `actions` if there is none.
pub open spec fn first(actions: Seq<Action>, wanted: spec_fn(Action) -> bool) -> int
    decreases actions.len(),
{
    if actions.len() == 0 {
        0
    } else if wanted(actions[0]) {
        0
    } else {
        1 + first(actions.skip(1), wanted)
    }
}

/// Picks out the acknowledgments.
pub open spec fn acknowledgment() -> spec_fn(Action) -> bool {
    |action: Action| action is Acknowledge
}

/// Picks out the re-openings of the interrupt gate.
pub open spec fn enabling() -> spec_fn(Action) -> bool {
    |action: Action| action is EnableInterrupts
}

/// Picks out the port reads.
pub open spec fn port_read() -> spec_fn(Action) -> bool {
    |action: Action| action is ReadPort
}

/// Picks out the scancodes handed to the keyboard collaborator.
pub open spec fn scancode_dispatch() -> spec_fn(Action) -> bool {
    |action: Action| action is DispatchScancode
}

/// The kind of handler body of `vector`.
pub fn handler_kind(vector: isize) -> (kind: HandlerKind)
    ensures
        kind == kind_of(vector),
{
    if 0 <= vector && vector < 32 {
        HandlerKind::Exception
    } else if vector == 32 {
        HandlerKind::Timer
    } else if vector == 33 {
        HandlerKind::Keyboard
    } else {
        HandlerKind::Unhandled
    }
}

/// The one dispatch function for every vector: the next call of the handler
/// body of `interrupt_number`, after `completed` of its calls have been made;
/// `None` when the body is done. `port_byte` is the byte that the last port
/// read returned; before any read it may be anything.
pub fn interrupt_handler(
    interrupt_number: isize,
    error_code: isize,
    completed: usize,
    port_byte: u8,
) -> (next: Option<Action>)
    ensures
        next == if completed < body_actions(interrupt_number, error_code, port_byte).len() {
            Some(body_actions(interrupt_number, error_code, port_byte)[completed as int])
        } else {
            None
        },
{
    match handler_kind(interrupt_number) {
        HandlerKind::Timer => match completed {
            0 => Some(Action::Acknowledge { vector: TIMER_VECTOR as isize }),
            1 => Some(Action::EnableInterrupts),
            _ => None,
        },
        HandlerKind::Keyboard => match completed {
            0 => Some(Action::ReadPort { port: KEYBOARD_DATA_PORT }),
            1 => Some(Action::DispatchScancode { code: port_byte }),
            2 => Some(Action::Acknowledge { vector: KEYBOARD_VECTOR as isize }),
            3 => Some(Action::EnableInterrupts),
            _ => None,
        },
        _ => match completed {
            0 => Some(Action::Report { vector: interrupt_number, error_code }),
            1 => Some(Action::Halt),
            _ => None,
        },
    }
}

/// All calls that the handler body of `vector` makes, in order, when the
/// keyboard data port yields `port_byte`.
pub fn handler_actions(vector: isize, error_code: isize, port_byte: u8) -> (actions: Vec<Action>)
    ensures
        actions@ == body_actions(vector, error_code, port_byte),
{
    let mut actions: Vec<Action> = Vec::new();
    loop
        invariant
            actions@.len() <= body_actions(vector, error_code, port_byte).len() <= 4,
            actions@ == body_actions(vector, error_code, port_byte).take(actions@.len() as int),
        ensures
            actions@ == body_actions(vector, error_code, port_byte),
        decreases 4 - actions@.len(),
    {
        match interrupt_handler(vector, error_code, actions.len(), port_byte) {
            Some(action) => {
                actions.push(action);
                assert(actions@ =~= body_actions(vector, error_code, port_byte).take(
                    actions@.len() as int,
                ));
            },
            None => {
                assert(actions@ =~= body_actions(vector, error_code, port_byte));
                break ;
            },
        }
    }
    actions
}

/// Whether the handler body of `vector` returns to the interrupted program.
pub fn resumes(vector: isize) -> (resuming: bool)
    ensures
        resuming == body_returns(vector),
{
    match handler_kind(vector) {
        HandlerKind::Timer => true,
        HandlerKind::Keyboard => true,
        _ => false,
    }
}

/// Whether a handler body that makes `actions` re-opens the interrupt gate.
pub fn reopens_gate(actions: &Vec<Action>) -> (reopens: bool)
    ensures
        reopens == (count(actions@, enabling()) > 0),
{
    let mut index: usize = 0;
    while index < actions.len()
        invariant
            index <= actions@.len(),
            count(actions@.take(index as int), enabling()) == 0,
        decreases actions@.len() - index,
    {
        assert(actions@.take(index + 1).drop_last() =~= actions@.take(index as int));
        if let Action::EnableInterrupts = actions[index] {
            proof {
                lemma_count_grows(actions@, enabling(), index + 1);
            }
            return true;
        }
        index += 1;
    }
    assert(actions@.take(index as int) =~= actions@);
    false
}

/// Counting over more of a sequence never gives less.
pub proof fn lemma_count_grows(actions: Seq<Action>, wanted: spec_fn(Action) -> bool, upto: int)
    requires
        0 <= upto <= actions.len(),
    ensures
        count(actions.take(upto), wanted) <= count(actions, wanted),
    decreases actions.len() - upto,
{
    if upto == actions.len() {
        assert(actions.take(upto) =~= actions);
    } else {
        lemma_count_grows(actions, wanted, upto + 1);
        assert(actions.take(upto + 1).drop_last() =~= actions.take(upto));
    }
}

/// Every body that returns drains its device first, then acknowledges its
/// own vector exactly once, then re-opens the interrupt gate exactly once,
/// and does nothing after that. It neither reports nor halts.
pub proof fn lemma_returning_body(vector: isize, error_code: isize, port_byte: u8)
    requires
        body_returns(vector),
    ensures
        ({
            let actions = body_actions(vector, error_code, port_byte);
            &&& actions.len() >= 2
            &&& actions[actions.len() - 2] == Action::Acknowledge { vector }
            &&& actions[actions.len() - 1] == Action::EnableInterrupts
            &&& count(actions, acknowledgment()) == 1
            &&& count(actions, enabling()) == 1
            &&& count(actions, |action: Action| action is Report) == 0
            &&& count(actions, |action: Action| action is Halt) == 0
        }),
{
    reveal_with_fuel(count, 5);
}

/// A body that does not return makes the diagnostic report with the vector
/// and the error code it was given, then halts. It never acknowledges at the
/// interrupt controller and never re-opens the interrupt gate.
pub proof fn lemma_fatal_body(vector: isize, error_code: isize, port_byte: u8)
    requires
        !body_returns(vector),
    ensures
        body_actions(vector, error_code, port_byte) == seq![
            Action::Report { vector, error_code },
            Action::Halt,
        ],
        count(body_actions(vector, error_code, port_byte), acknowledgment()) == 0,
        count(body_actions(vector, error_code, port_byte), enabling()) == 0,
        count(body_actions(vector, error_code, port_byte), |action: Action| action is Halt) == 1,
{
    reveal_with_fuel(count, 5);
}

/// Processor exceptions are fatal: the body of each of the vectors 0 to 31
/// reports and halts, and the interrupt controller, which did not raise the
/// exception, is never told that it was serviced.
pub proof fn lemma_exceptions_are_fatal(vector: isize, error_code: isize, port_byte: u8)
    requires
        0 <= vector < 32,
    ensures
        kind_of(vector) == HandlerKind::Exception,
        !body_returns(vector),
        body_actions(vector, error_code, port_byte) == seq![
            Action::Report { vector, error_code },
            Action::Halt,
        ],
        count(body_actions(vector, error_code, port_byte), acknowledgment()) == 0,
{
    lemma_fatal_body(vector, error_code, port_byte);
}

/// The timer body acknowledges vector 32 exactly once and re-opens the
/// interrupt gate exactly once, after the acknowledgment. It does nothing
/// else.
pub proof fn lemma_timer_body(error_code: isize, port_byte: u8)
    ensures
        ({
            let actions = body_actions(32, error_code, port_byte);
            &&& actions == seq![Action::Acknowledge { vector: 32 }, Action::EnableInterrupts]
            &&& count(actions, acknowledgment()) == 1
            &&& count(actions, enabling()) == 1
            &&& first(actions, acknowledgment()) < first(actions, enabling())
        }),
{
    reveal_with_fuel(count, 5);
    reveal_with_fuel(first, 5);
}

/// The keyboard body reads the data port once and hands exactly the byte it
/// read to the keyboard collaborator, once, before it acknowledges vector
/// 33; the re-opening of the interrupt gate comes last.
pub proof fn lemma_keyboard_body(error_code: isize, port_byte: u8)
    ensures
        ({
            let actions = body_actions(33, error_code, port_byte);
            &&& count(actions, port_read()) == 1
            &&& count(actions, scancode_dispatch()) == 1
            &&& count(actions, acknowledgment()) == 1
            &&& count(actions, enabling()) == 1
            &&& actions[first(actions, port_read())] == Action::ReadPort { port: 0x60 }
            &&& actions[first(actions, scancode_dispatch())] == Action::DispatchScancode {
                code: port_byte,
            }
            &&& actions[first(actions, acknowledgment())] == Action::Acknowledge { vector: 33 }
            &&& first(actions, port_read()) < first(actions, scancode_dispatch()) < first(
                actions,
                acknowledgment(),
            ) < first(actions, enabling()) == actions.len() - 1
        }),
{
    reveal_with_fuel(count, 5);
    reveal_with_fuel(first, 5);
}

} // verus!
