use waymo::{
    native_key, Action, ButtonCode, Command, Completion, Dispatch, Event, MouseButton, Phase,
    ReadOutcome, StartupEvent, WaymoError, WaymoEventLoop, NO_NOTIFICATION,
};

fn ready_worker(handle: usize) -> WaymoEventLoop {
    let mut startup = WaymoEventLoop::new(None);
    startup.step(StartupEvent::Created { handle });
    startup.step(StartupEvent::StatusReported { ready: true });
    startup.finish().expect("the creation is over").expect("the worker is ready")
}

/// Plays the driver: answers each action with the next outcome on the script
/// and records what it was asked to do.
fn drive(dispatch: &mut Dispatch<'_>, fd: i32, reads: &[ReadOutcome]) -> Vec<Action> {
    let mut asked = vec![dispatch.pending()];
    let mut reads = reads.iter();
    loop {
        let event = match *asked.last().expect("there is a pending action") {
            Action::CreateNotification => Event::NotificationCreated { fd },
            Action::Submit { .. } => Event::Submitted,
            Action::AwaitNotification { .. } => Event::ReadReturned {
                outcome: *reads.next().expect("the script has a read left"),
            },
            Action::CloseNotification { .. } => Event::Closed,
            Action::Finish => break,
        };
        asked.push(dispatch.step(event).expect("the event answers the action"));
        assert!(asked.len() < 100);
    }
    asked
}

#[test]
fn move_mouse_waits_for_the_signal() {
    let worker = ready_worker(0x40);
    let mut dispatch = worker.move_mouse(100, 200, false);
    assert_eq!(dispatch.handle(), 0x40);
    assert!(matches!(
        dispatch.command(),
        Command::MoveMouse { x: 100, y: 200, relative: false }
    ));
    assert!(matches!(dispatch.phase(), Phase::Opening));
    assert_eq!(dispatch.pending(), Action::CreateNotification);
    assert!(dispatch.outcome().is_none());

    assert_eq!(
        dispatch.step(Event::NotificationCreated { fd: 5 }),
        Some(Action::Submit { target: 5 })
    );
    assert_eq!(dispatch.step(Event::Submitted), Some(Action::AwaitNotification { fd: 5 }));
    assert!(!dispatch.is_finished());
    assert!(dispatch.outcome().is_none());
    assert_eq!(
        dispatch.step(Event::ReadReturned { outcome: ReadOutcome::Signaled }),
        Some(Action::CloseNotification { fd: 5 })
    );
    assert!(!dispatch.is_finished());
    assert_eq!(dispatch.step(Event::Closed), Some(Action::Finish));
    assert!(dispatch.is_finished());
    assert_eq!(dispatch.outcome(), Some(Ok(Completion::Confirmed)));
}

#[test]
fn click_mouse_maps_the_button() {
    let worker = ready_worker(1);
    for (btn, code) in [
        (MouseButton::Left, ButtonCode::MbtnLeft),
        (MouseButton::Right, ButtonCode::MbtnRight),
        (MouseButton::Middle, ButtonCode::MbtnMid),
    ] {
        let dispatch = worker.click_mouse(btn, 2, 30);
        match dispatch.command() {
            Command::ClickMouse { button, clicks, hold_ms } => {
                assert_eq!(*button, code);
                assert_eq!(*clicks, 2);
                assert_eq!(*hold_ms, 30);
            }
            other => panic!("not a click: {:?}", other),
        }
        assert_eq!(dispatch.pending(), Action::CreateNotification);
    }
}

#[test]
fn button_conversion_follows_the_table() {
    assert_eq!(ButtonCode::from(MouseButton::Left), ButtonCode::MbtnLeft);
    assert_eq!(ButtonCode::from(MouseButton::Right), ButtonCode::MbtnRight);
    assert_eq!(ButtonCode::from(MouseButton::Middle), ButtonCode::MbtnMid);
}

#[test]
fn press_mouse_maps_the_button() {
    let worker = ready_worker(1);
    let dispatch = worker.press_mouse(MouseButton::Middle, true);
    assert!(matches!(
        dispatch.command(),
        Command::PressMouse { button: ButtonCode::MbtnMid, down: true }
    ));
    assert_eq!(dispatch.pending(), Action::CreateNotification);
    let dispatch = worker.press_mouse(MouseButton::Right, false);
    assert!(matches!(
        dispatch.command(),
        Command::PressMouse { button: ButtonCode::MbtnRight, down: false }
    ));
}

#[test]
fn every_synchronous_command_runs_the_same_protocol() {
    let worker = ready_worker(0x77);
    let expected = vec![
        Action::CreateNotification,
        Action::Submit { target: 12 },
        Action::AwaitNotification { fd: 12 },
        Action::CloseNotification { fd: 12 },
        Action::Finish,
    ];
    let signaled = [ReadOutcome::Signaled];

    let mut moved = worker.move_mouse(1, 2, true);
    assert_eq!(drive(&mut moved, 12, &signaled), expected);
    assert_eq!(moved.outcome(), Some(Ok(Completion::Confirmed)));

    let mut clicked = worker.click_mouse(MouseButton::Left, 1, 0);
    assert_eq!(drive(&mut clicked, 12, &signaled), expected);
    assert_eq!(clicked.outcome(), Some(Ok(Completion::Confirmed)));

    let mut pressed = worker.press_mouse(MouseButton::Left, true);
    assert_eq!(drive(&mut pressed, 12, &signaled), expected);
    assert_eq!(pressed.outcome(), Some(Ok(Completion::Confirmed)));

    let mut typed = worker.type_text("hello", None).expect("no terminator");
    assert_eq!(drive(&mut typed, 12, &signaled), expected);
    assert_eq!(typed.outcome(), Some(Ok(Completion::Confirmed)));
}

#[test]
fn interrupted_read_is_started_again() {
    let worker = ready_worker(2);
    let mut dispatch = worker.move_mouse(0, 0, false);
    let asked = drive(
        &mut dispatch,
        9,
        &[
            ReadOutcome::Interrupted,
            ReadOutcome::Interrupted,
            ReadOutcome::Interrupted,
            ReadOutcome::Signaled,
        ],
    );
    assert_eq!(
        asked,
        vec![
            Action::CreateNotification,
            Action::Submit { target: 9 },
            Action::AwaitNotification { fd: 9 },
            Action::AwaitNotification { fd: 9 },
            Action::AwaitNotification { fd: 9 },
            Action::AwaitNotification { fd: 9 },
            Action::CloseNotification { fd: 9 },
            Action::Finish,
        ]
    );
    assert_eq!(dispatch.outcome(), Some(Ok(Completion::Confirmed)));
}

#[test]
fn wait_is_not_over_while_reads_are_interrupted() {
    let worker = ready_worker(2);
    let mut dispatch = worker.press_mouse(MouseButton::Left, true);
    dispatch.step(Event::NotificationCreated { fd: 4 });
    dispatch.step(Event::Submitted);
    for _ in 0..50 {
        assert_eq!(
            dispatch.step(Event::ReadReturned { outcome: ReadOutcome::Interrupted }),
            Some(Action::AwaitNotification { fd: 4 })
        );
        assert!(!dispatch.is_finished());
        assert!(dispatch.outcome().is_none());
        assert!(matches!(dispatch.phase(), Phase::Waiting { fd: 4 }));
    }
}

#[test]
fn failed_read_ends_the_wait_and_closes_the_descriptor() {
    let worker = ready_worker(2);
    let mut dispatch = worker.move_mouse(3, 4, true);
    let asked = drive(&mut dispatch, 21, &[ReadOutcome::Interrupted, ReadOutcome::Failed]);
    assert_eq!(
        asked,
        vec![
            Action::CreateNotification,
            Action::Submit { target: 21 },
            Action::AwaitNotification { fd: 21 },
            Action::AwaitNotification { fd: 21 },
            Action::CloseNotification { fd: 21 },
            Action::Finish,
        ]
    );
    assert_eq!(dispatch.outcome(), Some(Ok(Completion::Unconfirmed)));
}

#[test]
fn command_is_not_submitted_without_a_descriptor() {
    let worker = ready_worker(2);
    let mut dispatch = worker.move_mouse(3, 4, true);
    let asked = drive(&mut dispatch, NO_NOTIFICATION, &[]);
    assert_eq!(asked, vec![Action::CreateNotification, Action::Finish]);
    assert_eq!(dispatch.outcome(), Some(Err(WaymoError::NotificationUnavailable)));
    assert!(dispatch.is_finished());
}

#[test]
fn descriptor_zero_is_a_descriptor() {
    let worker = ready_worker(2);
    let mut dispatch = worker.move_mouse(3, 4, true);
    let asked = drive(&mut dispatch, 0, &[ReadOutcome::Signaled]);
    assert_eq!(
        asked,
        vec![
            Action::CreateNotification,
            Action::Submit { target: 0 },
            Action::AwaitNotification { fd: 0 },
            Action::CloseNotification { fd: 0 },
            Action::Finish,
        ]
    );
}

#[test]
fn press_key_is_handed_over_and_not_awaited() {
    let worker = ready_worker(0x99);
    let mut dispatch = worker.press_key('a', None, true);
    assert_eq!(dispatch.handle(), 0x99);
    assert!(matches!(
        dispatch.command(),
        Command::PressKey { key: 'a', interval_ms: None, down: true }
    ));
    assert!(matches!(dispatch.phase(), Phase::Submitting { notify: None }));
    assert_eq!(dispatch.pending(), Action::Submit { target: -1 });
    assert_eq!(dispatch.step(Event::Submitted), Some(Action::Finish));
    assert!(dispatch.is_finished());
    assert_eq!(dispatch.outcome(), Some(Ok(Completion::NotRequested)));
}

#[test]
fn hold_key_is_handed_over_and_not_awaited() {
    let worker = ready_worker(0x99);
    let mut dispatch = worker.hold_key('z', Some(15), 250);
    assert!(matches!(
        dispatch.command(),
        Command::HoldKey { key: 'z', interval_ms: Some(15), hold_ms: 250 }
    ));
    let asked = drive(&mut dispatch, 33, &[]);
    assert_eq!(
        asked,
        vec![Action::Submit { target: NO_NOTIFICATION }, Action::Finish]
    );
    assert_eq!(dispatch.outcome(), Some(Ok(Completion::NotRequested)));
}

#[test]
fn fire_and_forget_takes_no_descriptor_events() {
    let worker = ready_worker(1);
    let mut dispatch = worker.press_key('k', Some(1), false);
    assert_eq!(dispatch.step(Event::NotificationCreated { fd: 3 }), None);
    assert_eq!(
        dispatch.step(Event::ReadReturned { outcome: ReadOutcome::Signaled }),
        None
    );
    assert_eq!(dispatch.step(Event::Closed), None);
    assert_eq!(dispatch.pending(), Action::Submit { target: NO_NOTIFICATION });
    assert!(!dispatch.is_finished());
}

#[test]
fn type_text_carries_the_bytes_of_the_text() {
    let worker = ready_worker(1);
    let dispatch = worker.type_text("na\u{ef}ve", Some(20)).expect("no terminator");
    match dispatch.command() {
        Command::TypeText { text, interval_ms } => {
            assert_eq!(text.as_bytes(), &[0x6E, 0x61, 0xC3, 0xAF, 0x76, 0x65]);
            assert_eq!(*interval_ms, Some(20));
        }
        other => panic!("not a text: {:?}", other),
    }
    assert_eq!(dispatch.pending(), Action::CreateNotification);
}

#[test]
fn type_text_with_terminator_dispatches_nothing() {
    let worker = ready_worker(1);
    assert!(matches!(
        worker.type_text("ab\0cd", None),
        Err(WaymoError::InvalidConfigurationText)
    ));
    assert!(matches!(
        worker.type_text("\0", Some(3)),
        Err(WaymoError::InvalidConfigurationText)
    ));
}

#[test]
fn empty_text_is_typed() {
    let worker = ready_worker(1);
    let dispatch = worker.type_text("", None).expect("nothing to reject");
    match dispatch.command() {
        Command::TypeText { text, interval_ms } => {
            assert_eq!(text.len(), 0);
            assert_eq!(*interval_ms, None);
        }
        other => panic!("not a text: {:?}", other),
    }
}

#[test]
fn dispatch_refuses_events_out_of_turn() {
    let worker = ready_worker(1);
    let mut dispatch = worker.move_mouse(1, 1, false);
    assert_eq!(dispatch.step(Event::Submitted), None);
    assert_eq!(dispatch.step(Event::Closed), None);
    assert_eq!(
        dispatch.step(Event::ReadReturned { outcome: ReadOutcome::Signaled }),
        None
    );
    assert!(matches!(dispatch.phase(), Phase::Opening));

    dispatch.step(Event::NotificationCreated { fd: 8 });
    assert_eq!(dispatch.step(Event::NotificationCreated { fd: 9 }), None);
    assert_eq!(
        dispatch.step(Event::ReadReturned { outcome: ReadOutcome::Signaled }),
        None
    );
    assert_eq!(dispatch.pending(), Action::Submit { target: 8 });

    dispatch.step(Event::Submitted);
    assert_eq!(dispatch.step(Event::Submitted), None);
    assert_eq!(dispatch.step(Event::Closed), None);
    assert_eq!(dispatch.pending(), Action::AwaitNotification { fd: 8 });

    dispatch.step(Event::ReadReturned { outcome: ReadOutcome::Signaled });
    assert_eq!(
        dispatch.step(Event::ReadReturned { outcome: ReadOutcome::Failed }),
        None
    );
    assert_eq!(dispatch.pending(), Action::CloseNotification { fd: 8 });

    dispatch.step(Event::Closed);
    assert_eq!(dispatch.step(Event::Closed), None);
    assert_eq!(dispatch.step(Event::Submitted), None);
    assert_eq!(dispatch.pending(), Action::Finish);
    assert_eq!(dispatch.outcome(), Some(Ok(Completion::Confirmed)));
}

#[test]
fn key_is_cut_to_its_low_byte() {
    assert_eq!(native_key('a'), 97);
    assert_eq!(native_key('\0'), 0);
    assert_eq!(native_key('\u{7f}'), 0x7F);
    assert_eq!(native_key('\u{e9}'), 0xE9);
    assert_eq!(native_key('\u{ff}'), 0xFF);
    assert_eq!(native_key('\u{100}'), 0x00);
    assert_eq!(native_key('\u{20ac}'), 0xAC);
    assert_eq!(native_key('\u{10ffff}'), 0xFF);
}

#[test]
fn several_dispatches_share_one_worker() {
    let worker = ready_worker(0x500);
    let first = worker.move_mouse(1, 2, false);
    let second = worker.press_key('x', None, true);
    assert_eq!(first.handle(), 0x500);
    assert_eq!(second.handle(), 0x500);
    assert_eq!(worker.handle(), 0x500);
}

#[test]
fn read_result_tells_how_the_wait_ended() {
    assert_eq!(waymo::read_outcome(8, 0, libc::EINTR), ReadOutcome::Signaled);
    assert_eq!(waymo::read_outcome(8, libc::EINTR, libc::EINTR), ReadOutcome::Signaled);
    assert_eq!(waymo::read_outcome(0, libc::EINTR, libc::EINTR), ReadOutcome::Signaled);
    assert_eq!(waymo::read_outcome(-1, libc::EINTR, libc::EINTR), ReadOutcome::Interrupted);
    assert_eq!(waymo::read_outcome(-1, libc::EBADF, libc::EINTR), ReadOutcome::Failed);
    assert_eq!(waymo::read_outcome(-1, 0, libc::EINTR), ReadOutcome::Failed);
    assert_eq!(waymo::read_outcome(-2, libc::EBADF, libc::EINTR), ReadOutcome::Signaled);
    assert_eq!(waymo::READ_FAILED, -1);
    assert_eq!(waymo::NOTIFICATION_SIZE, std::mem::size_of::<u64>());
    assert_eq!(waymo::NOTIFICATION_START, 0);
}
