use ai_aim_coach::input::raw_input::{
    message_loop_step, raw_input_step, ready_outcome, DeltaBuffer, MessageLoopStep, MouseDelta,
    RawInputAction, RawInputError, RawInputEvent, RIM_TYPEMOUSE,
};
use ai_aim_coach::win::WindowsError;

fn handle(status: u32, size: u32, written: u32, device_type: u32, dx: i32, dy: i32) -> RawInputAction {
    let mut action = raw_input_step(RawInputEvent::SizeQueried { status, size });
    loop {
        action = match action {
            RawInputAction::ReadData(_) => raw_input_step(RawInputEvent::DataRead { written }),
            RawInputAction::ReadHeader => raw_input_step(RawInputEvent::Header { device_type }),
            RawInputAction::ReadMovement => raw_input_step(RawInputEvent::Movement { dx, dy }),
            done => return done,
        };
    }
}

#[test]
fn movement_is_recorded() {
    assert_eq!(
        handle(0, 48, 48, RIM_TYPEMOUSE, 3, -2),
        RawInputAction::Record(MouseDelta { dx: 3, dy: -2 })
    );
}

#[test]
fn size_query_asks_for_the_reported_size() {
    assert_eq!(
        raw_input_step(RawInputEvent::SizeQueried { status: 0, size: 48 }),
        RawInputAction::ReadData(48)
    );
}

#[test]
fn button_event_is_ignored() {
    assert_eq!(handle(0, 48, 48, RIM_TYPEMOUSE, 0, 0), RawInputAction::Ignore);
}

#[test]
fn keyboard_movement_is_never_read() {
    assert_eq!(
        raw_input_step(RawInputEvent::Header { device_type: 1 }),
        RawInputAction::Ignore
    );
    assert_eq!(
        raw_input_step(RawInputEvent::Header { device_type: RIM_TYPEMOUSE }),
        RawInputAction::ReadMovement
    );
}

#[test]
fn keyboard_is_ignored() {
    assert_eq!(handle(0, 40, 40, 1, 5, 5), RawInputAction::Ignore);
}

#[test]
fn failed_reads_are_ignored() {
    assert_eq!(handle(1, 48, 48, RIM_TYPEMOUSE, 1, 1), RawInputAction::Ignore);
    assert_eq!(handle(0, 0, 48, RIM_TYPEMOUSE, 1, 1), RawInputAction::Ignore);
    assert_eq!(handle(0, 48, 0, RIM_TYPEMOUSE, 1, 1), RawInputAction::Ignore);
    assert_eq!(handle(0, 48, u32::MAX, RIM_TYPEMOUSE, 1, 1), RawInputAction::Ignore);
}

#[test]
fn fresh_buffer_takes_nothing() {
    let mut buffer = DeltaBuffer::new();
    assert!(buffer.take_deltas().is_empty());
}

#[test]
fn take_returns_movements_in_order_and_empties() {
    let mut buffer = DeltaBuffer::new();
    buffer.push(MouseDelta { dx: 1, dy: 0 });
    buffer.push(MouseDelta { dx: -4, dy: 7 });
    assert_eq!(buffer.len(), 2);
    assert_eq!(
        buffer.take_deltas(),
        vec![MouseDelta { dx: 1, dy: 0 }, MouseDelta { dx: -4, dy: 7 }]
    );
    assert_eq!(buffer.len(), 0);
    assert!(buffer.take_deltas().is_empty());
    buffer.push(MouseDelta { dx: 2, dy: 2 });
    assert_eq!(buffer.take_deltas(), vec![MouseDelta { dx: 2, dy: 2 }]);
}

#[test]
fn message_loop_values() {
    assert_eq!(message_loop_step(-1), MessageLoopStep::Failed);
    assert_eq!(message_loop_step(0), MessageLoopStep::Quit);
    assert_eq!(message_loop_step(1), MessageLoopStep::Dispatch);
    assert_eq!(message_loop_step(7), MessageLoopStep::Dispatch);
}

#[test]
fn thread_report_is_passed_on() {
    assert!(matches!(ready_outcome(Some(Ok(42))), Ok(42)));
    let e = WindowsError { code: 1400 };
    assert!(matches!(
        ready_outcome(Some(Err(RawInputError::Windows(e)))),
        Err(RawInputError::Windows(x)) if x == e
    ));
}

#[test]
fn silent_thread_is_init_failure() {
    assert!(matches!(
        ready_outcome(None),
        Err(RawInputError::ThreadInitFailed)
    ));
}
