use interrupts::handlers::handler_actions;
use interrupts::handlers::handler_kind;
use interrupts::handlers::reopens_gate;
use interrupts::handlers::resumes;
use interrupts::handlers::Action;
use interrupts::handlers::HandlerKind;
use interrupts::handlers::KEYBOARD_DATA_PORT;
use interrupts::handlers::KEYBOARD_VECTOR;
use interrupts::handlers::TIMER_VECTOR;
use interrupts::interrupt_handler;
use interrupts::report::report;

fn position(actions: &[Action], wanted: fn(&Action) -> bool) -> usize {
    actions.iter().position(wanted).expect("the action occurs")
}

fn occurrences(actions: &[Action], wanted: fn(&Action) -> bool) -> usize {
    actions.iter().filter(|action| wanted(action)).count()
}

fn is_acknowledgment(action: &Action) -> bool {
    matches!(action, Action::Acknowledge { .. })
}

fn is_enabling(action: &Action) -> bool {
    matches!(action, Action::EnableInterrupts)
}

fn is_port_read(action: &Action) -> bool {
    matches!(action, Action::ReadPort { .. })
}

fn is_dispatch(action: &Action) -> bool {
    matches!(action, Action::DispatchScancode { .. })
}

#[test]
fn registry_classifies_every_vector() {
    for vector in 0..32isize {
        assert_eq!(handler_kind(vector), HandlerKind::Exception);
        assert!(!resumes(vector));
    }
    assert_eq!(handler_kind(32), HandlerKind::Timer);
    assert_eq!(handler_kind(33), HandlerKind::Keyboard);
    assert!(resumes(32));
    assert!(resumes(33));
    for vector in 34..256isize {
        assert_eq!(handler_kind(vector), HandlerKind::Unhandled);
        assert!(!resumes(vector));
    }
    assert_eq!(handler_kind(-1), HandlerKind::Unhandled);
    assert_eq!(handler_kind(isize::MIN), HandlerKind::Unhandled);
    assert_eq!(handler_kind(isize::MAX), HandlerKind::Unhandled);
}

#[test]
fn timer_body_acknowledges_vector_32_once_then_enables_once() {
    let actions: Vec<Action> = handler_actions(TIMER_VECTOR as isize, 0, 0);
    assert_eq!(actions, vec![Action::Acknowledge { vector: 32 }, Action::EnableInterrupts]);
    assert_eq!(occurrences(&actions, is_acknowledgment), 1);
    assert_eq!(occurrences(&actions, is_enabling), 1);
    assert!(position(&actions, is_acknowledgment) < position(&actions, is_enabling));
}

#[test]
fn timer_body_does_not_depend_on_error_code_or_port() {
    let plain: Vec<Action> = handler_actions(32, 0, 0);
    for error_code in [-1isize, 1, 0x7fff, isize::MAX] {
        for port_byte in [0u8, 0x1e, 0xff] {
            assert_eq!(handler_actions(32, error_code, port_byte), plain);
        }
    }
}

#[test]
fn keyboard_body_reads_forwards_acknowledges_enables() {
    let actions: Vec<Action> = handler_actions(KEYBOARD_VECTOR as isize, 0, 0x1e);
    assert_eq!(
        actions,
        vec![
            Action::ReadPort { port: 0x60 },
            Action::DispatchScancode { code: 0x1e },
            Action::Acknowledge { vector: 33 },
            Action::EnableInterrupts,
        ]
    );
    assert_eq!(KEYBOARD_DATA_PORT, 0x60);
}

#[test]
fn keyboard_body_forwards_every_byte_before_it_acknowledges() {
    for port_byte in 0..=255u8 {
        let actions: Vec<Action> = handler_actions(33, 0, port_byte);
        assert_eq!(occurrences(&actions, is_port_read), 1);
        assert_eq!(occurrences(&actions, is_dispatch), 1);
        assert_eq!(occurrences(&actions, is_acknowledgment), 1);
        assert_eq!(occurrences(&actions, is_enabling), 1);
        assert!(position(&actions, is_port_read) < position(&actions, is_dispatch));
        assert!(position(&actions, is_dispatch) < position(&actions, is_acknowledgment));
        assert!(position(&actions, is_acknowledgment) < position(&actions, is_enabling));
        assert_eq!(position(&actions, is_enabling), actions.len() - 1);
        assert_eq!(actions[1], Action::DispatchScancode { code: port_byte });
    }
}

#[test]
fn exception_bodies_report_and_halt_without_acknowledging() {
    for vector in 0..32isize {
        let actions: Vec<Action> = handler_actions(vector, 0x10, 0x1e);
        assert_eq!(
            actions,
            vec![Action::Report { vector, error_code: 0x10 }, Action::Halt]
        );
        assert_eq!(occurrences(&actions, is_acknowledgment), 0);
        assert_eq!(occurrences(&actions, is_enabling), 0);
    }
}

#[test]
fn vectors_without_a_body_report_and_halt() {
    for vector in [34isize, 35, 128, 255, 256, -1, isize::MIN, isize::MAX] {
        assert_eq!(
            handler_actions(vector, -2, 0),
            vec![Action::Report { vector, error_code: -2 }, Action::Halt]
        );
    }
}

#[test]
fn returning_bodies_reopen_the_interrupt_gate_and_halting_ones_do_not() {
    assert!(reopens_gate(&handler_actions(32, 0, 0)));
    assert!(reopens_gate(&handler_actions(33, 0, 0x1e)));
    for vector in [0isize, 8, 13, 14, 31, 34, 255, -3] {
        assert!(!reopens_gate(&handler_actions(vector, 0, 0)));
    }
    assert!(!reopens_gate(&Vec::new()));
    assert!(!reopens_gate(&vec![Action::Acknowledge { vector: 32 }, Action::Halt]));
    assert!(reopens_gate(&vec![Action::Halt, Action::EnableInterrupts, Action::Halt]));
}

#[test]
fn interrupt_handler_gives_the_body_one_call_at_a_time() {
    assert_eq!(interrupt_handler(32, 0, 0, 0), Some(Action::Acknowledge { vector: 32 }));
    assert_eq!(interrupt_handler(32, 0, 1, 0), Some(Action::EnableInterrupts));
    assert_eq!(interrupt_handler(32, 0, 2, 0), None);
    assert_eq!(interrupt_handler(32, 0, usize::MAX, 0), None);

    assert_eq!(interrupt_handler(33, 0, 0, 0), Some(Action::ReadPort { port: 0x60 }));
    assert_eq!(interrupt_handler(33, 0, 0, 0x9c), Some(Action::ReadPort { port: 0x60 }));
    assert_eq!(interrupt_handler(33, 0, 1, 0x9c), Some(Action::DispatchScancode { code: 0x9c }));
    assert_eq!(interrupt_handler(33, 0, 2, 0x9c), Some(Action::Acknowledge { vector: 33 }));
    assert_eq!(interrupt_handler(33, 0, 3, 0x9c), Some(Action::EnableInterrupts));
    assert_eq!(interrupt_handler(33, 0, 4, 0x9c), None);

    assert_eq!(
        interrupt_handler(14, 0x2, 0, 0),
        Some(Action::Report { vector: 14, error_code: 0x2 })
    );
    assert_eq!(interrupt_handler(14, 0x2, 1, 0), Some(Action::Halt));
    assert_eq!(interrupt_handler(14, 0x2, 2, 0), None);
}

#[test]
fn stepping_the_handler_with_a_mock_port_gives_the_whole_body() {
    for vector in [0isize, 13, 32, 33, 34, 200] {
        let mut performed: Vec<Action> = Vec::new();
        let mut latched: u8 = 0;
        while let Some(action) = interrupt_handler(vector, 7, performed.len(), latched) {
            if let Action::ReadPort { .. } = action {
                latched = 0x1e;
            }
            performed.push(action);
        }
        assert_eq!(performed, handler_actions(vector, 7, 0x1e));
    }
}

#[test]
fn report_names_vector_and_error_code() {
    assert_eq!(report(13, 0x10), "interrupt 13 with error code 10");
    assert_eq!(report(0, 0), "interrupt 0 with error code 0");
    assert_eq!(report(14, 0xdead_beef), "interrupt 14 with error code deadbeef");
    assert_eq!(report(255, 10), "interrupt 255 with error code a");
    assert_eq!(report(-7, 255), "interrupt -7 with error code ff");
}

#[test]
fn report_reads_a_negative_error_code_as_the_machine_word() {
    assert_eq!(report(8, -1), format!("interrupt 8 with error code {:x}", usize::MAX));
    assert_eq!(report(8, isize::MIN), format!("interrupt 8 with error code {:x}", isize::MIN));
}

#[test]
fn report_agrees_with_the_standard_formatting() {
    let vectors: [isize; 9] = [0, 1, 9, 10, 33, 100, -1, isize::MIN, isize::MAX];
    let codes: [isize; 9] = [0, 1, 15, 16, 0x1234_5678, -1, -16, isize::MIN, isize::MAX];
    for vector in vectors {
        for error_code in codes {
            assert_eq!(
                report(vector, error_code),
                format!("interrupt {} with error code {:x}", vector, error_code)
            );
        }
    }
}
