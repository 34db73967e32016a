use waymo::{
    Action, Command, Completion, Dispatch, EloopParamsBuilder, Event, ReadOutcome, StartupAction,
    StartupEvent, WaymoEventLoop,
};

/// A worker that only keeps books: what it was created with, what was sent
/// to it with which target, which descriptors were made and closed, and how
/// often it was destroyed.
struct Ledger {
    address: usize,
    created_with: Vec<(u32, Vec<u8>, u32)>,
    sent: Vec<(usize, String, i32)>,
    descriptors_made: Vec<i32>,
    descriptors_closed: Vec<i32>,
    signals_written: Vec<i32>,
    reads_returned: u32,
    destroyed: Vec<usize>,
}

impl Ledger {
    fn create(&mut self, startup: waymo::Startup<'_>) -> Option<WaymoEventLoop> {
        let mut startup = startup;
        let mut action = startup.pending();
        loop {
            let event = match action {
                StartupAction::Create => {
                    let params = startup.params().expect("a configuration was given");
                    self.created_with.push((
                        params.max_commands(),
                        params.kbd_layout().as_bytes().to_vec(),
                        params.action_cooldown_ms(),
                    ));
                    StartupEvent::Created { handle: self.address }
                }
                StartupAction::QueryStatus { handle } => {
                    assert_eq!(handle, self.address);
                    StartupEvent::StatusReported { ready: true }
                }
                StartupAction::Destroy { handle } => {
                    self.destroyed.push(handle);
                    StartupEvent::Destroyed
                }
                StartupAction::Finish => break,
            };
            action = startup.step(event).expect("the event answers the action");
        }
        startup.finish().expect("the creation is over").ok()
    }

    /// Runs a dispatch to its end. The worker writes its signal only when the
    /// read is already under way, so a read can return only after the write.
    fn run(&mut self, dispatch: &mut Dispatch<'_>) {
        let mut action = dispatch.pending();
        loop {
            let event = match action {
                Action::CreateNotification => {
                    let fd = 3 + self.descriptors_made.len() as i32;
                    self.descriptors_made.push(fd);
                    Event::NotificationCreated { fd }
                }
                Action::Submit { target } => {
                    self.sent
                        .push((dispatch.handle(), format!("{:?}", dispatch.command()), target));
                    Event::Submitted
                }
                Action::AwaitNotification { fd } => {
                    assert!(!dispatch.is_finished());
                    self.signals_written.push(fd);
                    self.reads_returned += 1;
                    Event::ReadReturned { outcome: ReadOutcome::Signaled }
                }
                Action::CloseNotification { fd } => {
                    self.descriptors_closed.push(fd);
                    Event::Closed
                }
                Action::Finish => break,
            };
            action = dispatch.step(event).expect("the event answers the action");
        }
    }
}

#[test]
fn configured_worker_moves_presses_and_is_destroyed_once() {
    let mut ledger = Ledger {
        address: 0xA000,
        created_with: Vec::new(),
        sent: Vec::new(),
        descriptors_made: Vec::new(),
        descriptors_closed: Vec::new(),
        signals_written: Vec::new(),
        reads_returned: 0,
        destroyed: Vec::new(),
    };

    let params = EloopParamsBuilder::new()
        .max_commands(10)
        .kbd_layout("us")
        .action_cooldown_ms(5)
        .build()
        .expect("the layout is native");
    let worker = ledger
        .create(WaymoEventLoop::new(Some(&params)))
        .expect("the worker is ready");
    assert_eq!(ledger.created_with, vec![(10, b"us".to_vec(), 5)]);
    assert_eq!(params.max_commands(), 10);
    assert!(ledger.destroyed.is_empty());

    let mut moved = worker.move_mouse(100, 200, false);
    assert!(matches!(
        moved.command(),
        Command::MoveMouse { x: 100, y: 200, relative: false }
    ));
    ledger.run(&mut moved);
    assert_eq!(moved.outcome(), Some(Ok(Completion::Confirmed)));
    assert_eq!(ledger.descriptors_made, vec![3]);
    assert_eq!(ledger.signals_written, vec![3]);
    assert_eq!(ledger.reads_returned, 1);
    assert_eq!(ledger.descriptors_closed, vec![3]);
    assert_eq!(ledger.sent.len(), 1);
    assert_eq!(ledger.sent[0].0, 0xA000);
    assert_eq!(ledger.sent[0].2, 3);

    let mut pressed = worker.press_key('a', None, true);
    assert!(matches!(
        pressed.command(),
        Command::PressKey { key: 'a', interval_ms: None, down: true }
    ));
    ledger.run(&mut pressed);
    assert_eq!(pressed.outcome(), Some(Ok(Completion::NotRequested)));
    assert_eq!(ledger.descriptors_made, vec![3]);
    assert_eq!(ledger.signals_written, vec![3]);
    assert_eq!(ledger.reads_returned, 1);
    assert_eq!(ledger.descriptors_closed, vec![3]);
    assert_eq!(ledger.sent.len(), 2);
    assert_eq!(ledger.sent[1].0, 0xA000);
    assert_eq!(ledger.sent[1].2, -1);

    drop(moved);
    drop(pressed);
    ledger.destroyed.push(worker.destroy());
    assert_eq!(ledger.destroyed, vec![0xA000]);
}

#[test]
fn each_synchronous_call_gets_a_descriptor_of_its_own() {
    let mut ledger = Ledger {
        address: 0xB000,
        created_with: Vec::new(),
        sent: Vec::new(),
        descriptors_made: Vec::new(),
        descriptors_closed: Vec::new(),
        signals_written: Vec::new(),
        reads_returned: 0,
        destroyed: Vec::new(),
    };
    let params = EloopParamsBuilder::new().build().expect("native");
    let worker = ledger
        .create(WaymoEventLoop::new(Some(&params)))
        .expect("the worker is ready");

    let mut first = worker.move_mouse(1, 1, true);
    ledger.run(&mut first);
    let mut second = worker.type_text("ok", None).expect("no terminator");
    ledger.run(&mut second);
    let mut third = worker.hold_key('q', None, 10);
    ledger.run(&mut third);

    assert_eq!(ledger.descriptors_made, vec![3, 4]);
    assert_eq!(ledger.descriptors_closed, vec![3, 4]);
    let targets: Vec<i32> = ledger.sent.iter().map(|sent| sent.2).collect();
    assert_eq!(targets, vec![3, 4, -1]);
}
