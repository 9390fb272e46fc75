//! Raw mouse deltas: which raw input messages yield a movement, and the
//! buffer that collects movements until they are taken.
//!
//! The caller reads each `WM_INPUT` message with `GetRawInputData` in the
//! order that [`raw_input_step`] asks for, and records what it yields in a
//! [`DeltaBuffer`].

use vstd::prelude::*;
use crate::win::WindowsError;

verus! {

/// `RIM_TYPEMOUSE`: the raw input came from a mouse.
pub const RIM_TYPEMOUSE: u32 = 0;

/// Raw input collection errors.
#[derive(Debug)]
pub enum RawInputError {
    /// A Windows API call failed.
    Windows(WindowsError),
    /// The collector thread could not be started.
    ThreadSpawn(std::io::Error),
    /// The collector thread ended without reporting that it was ready.
    ThreadInitFailed,
}

/// The collector's start-up result from what its thread reported: the
/// thread's own report (its id, or why it could not start), or
/// `ThreadInitFailed` when the thread hung up without reporting.
pub fn ready_outcome(received: Option<Result<u32, RawInputError>>) -> (r: Result<u32, RawInputError>)
    ensures
        r == (match received {
            Some(report) => report,
            None => Err(RawInputError::ThreadInitFailed),
        }),
{
    match received {
        Some(report) => report,
        None => Err(RawInputError::ThreadInitFailed),
    }
}

/// A hardware mouse movement, free of pointer acceleration.
#[derive(Clone, Copy, Debug, PartialEq, Eq, Structural)]
pub struct MouseDelta {
    /// Horizontal movement (positive: right).
    pub dx: i32,
    /// Vertical movement (positive: down).
    pub dy: i32,
}

/// The answer to one read of a raw input message.
#[derive(Clone, Copy, Debug, PartialEq, Eq, Structural)]
pub enum RawInputEvent {
    /// The size query: the call's return value and the size it reported.
    SizeQueried { status: u32, size: u32 },
    /// The data read: the number of bytes the call wrote.
    DataRead { written: u32 },
    /// The device type in the data's header.
    Header { device_type: u32 },
    /// The mouse's last movement.
    Movement { dx: i32, dy: i32 },
}

/// What the caller does next with the message.
#[derive(Clone, Copy, Debug, PartialEq, Eq, Structural)]
pub enum RawInputAction {
    /// Read the message data into a buffer of this many bytes.
    ReadData(u32),
    /// Read the header of the data that was read.
    ReadHeader,
    /// Read the mouse movement from the data.
    ReadMovement,
    /// Record this movement.
    Record(MouseDelta),
    /// Drop the message.
    Ignore,
}

/// The transition table of raw input handling.
pub open spec fn raw_input_transition(event: RawInputEvent) -> RawInputAction {
    match event {
        RawInputEvent::SizeQueried { status, size } => if status != 0 || size == 0 {
            RawInputAction::Ignore
        } else {
            RawInputAction::ReadData(size)
        },
        RawInputEvent::DataRead { written } => if written == 0 || written == u32::MAX {
            RawInputAction::Ignore
        } else {
            RawInputAction::ReadHeader
        },
        RawInputEvent::Header { device_type } => if device_type != RIM_TYPEMOUSE {
            RawInputAction::Ignore
        } else {
            RawInputAction::ReadMovement
        },
        RawInputEvent::Movement { dx, dy } => if dx == 0 && dy == 0 {
            RawInputAction::Ignore
        } else {
            RawInputAction::Record(MouseDelta { dx, dy })
        },
    }
}

/// Decides what follows one read of a raw input message: a failed or empty
/// read, an input that is not from a mouse, and a mouse input without
/// movement (a button event) are dropped; a movement is recorded. The
/// movement is read only from data whose header names a mouse.
pub fn raw_input_step(event: RawInputEvent) -> (action: RawInputAction)
    ensures
        action == raw_input_transition(event),
        action matches RawInputAction::Record(d) ==> d.dx != 0 || d.dy != 0,
{
    match event {
        RawInputEvent::SizeQueried { status, size } => {
            if status != 0 || size == 0 {
                RawInputAction::Ignore
            } else {
                RawInputAction::ReadData(size)
            }
        },
        RawInputEvent::DataRead { written } => {
            if written == 0 || written == u32::MAX {
                RawInputAction::Ignore
            } else {
                RawInputAction::ReadHeader
            }
        },
        RawInputEvent::Header { device_type } => {
            if device_type != RIM_TYPEMOUSE {
                RawInputAction::Ignore
            } else {
                RawInputAction::ReadMovement
            }
        },
        RawInputEvent::Movement { dx, dy } => {
            if dx == 0 && dy == 0 {
                RawInputAction::Ignore
            } else {
                RawInputAction::Record(MouseDelta { dx, dy })
            }
        },
    }
}

/// What the system answers to each read of one raw input message.
#[derive(Clone, Copy, Debug, PartialEq, Eq, Structural)]
pub struct RawInputFacts {
    pub status: u32,
    pub size: u32,
    pub written: u32,
    pub device_type: u32,
    pub dx: i32,
    pub dy: i32,
}

/// The answer that `facts` give to the read that `action` asks for, or `None`
/// when `action` asks for none.
pub open spec fn raw_answer(facts: RawInputFacts, action: RawInputAction) -> Option<RawInputEvent> {
    match action {
        RawInputAction::ReadData(_) => Some(RawInputEvent::DataRead { written: facts.written }),
        RawInputAction::ReadHeader => Some(RawInputEvent::Header { device_type: facts.device_type }),
        RawInputAction::ReadMovement => Some(RawInputEvent::Movement { dx: facts.dx, dy: facts.dy }),
        _ => None,
    }
}

/// The action reached from `action` after at most `fuel` further reads.
pub open spec fn raw_drive(facts: RawInputFacts, action: RawInputAction, fuel: nat) -> RawInputAction
    decreases fuel,
{
    match raw_answer(facts, action) {
        None => action,
        Some(event) => if fuel == 0 {
            action
        } else {
            raw_drive(facts, raw_input_transition(event), (fuel - 1) as nat)
        },
    }
}

/// The movement that one raw input message yields, if any.
pub open spec fn raw_movement(facts: RawInputFacts) -> Option<MouseDelta> {
    if facts.status == 0 && facts.size != 0 && facts.written != 0 && facts.written != u32::MAX
        && facts.device_type == RIM_TYPEMOUSE && (facts.dx != 0 || facts.dy != 0) {
        Some(MouseDelta { dx: facts.dx, dy: facts.dy })
    } else {
        None
    }
}

/// Handling one message from its size query onwards ends after at most three
/// further reads, and records a movement exactly when both reads succeeded,
/// the input came from a mouse and the mouse moved; the recorded movement is
/// the mouse's last movement, unchanged.
pub proof fn lemma_raw_input_records_movements(facts: RawInputFacts)
    ensures
        ({
            let end = raw_drive(
                facts,
                raw_input_transition(
                    RawInputEvent::SizeQueried { status: facts.status, size: facts.size },
                ),
                3,
            );
            &&& raw_answer(facts, end) is None
            &&& (end matches RawInputAction::Record(d) ==> raw_movement(facts) == Some(d))
            &&& (end is Ignore ==> raw_movement(facts) is None)
        }),
{
    reveal_with_fuel(raw_drive, 4);
}

/// What a message loop does with the value `GetMessageW` returned.
#[derive(Clone, Copy, Debug, PartialEq, Eq, Structural)]
pub enum MessageLoopStep {
    /// A message arrived: dispatch it and wait for the next.
    Dispatch,
    /// `WM_QUIT` arrived: leave the loop.
    Quit,
    /// The call failed: leave the loop.
    Failed,
}

/// Interprets the return value of `GetMessageW`: `-1` is an error, `0` is
/// `WM_QUIT`, anything else a message to dispatch.
pub fn message_loop_step(ret: i32) -> (step: MessageLoopStep)
    ensures
        step == (if ret == -1 {
            MessageLoopStep::Failed
        } else if ret == 0 {
            MessageLoopStep::Quit
        } else {
            MessageLoopStep::Dispatch
        }),
{
    if ret == -1 {
        MessageLoopStep::Failed
    } else if ret == 0 {
        MessageLoopStep::Quit
    } else {
        MessageLoopStep::Dispatch
    }
}

/// The movements collected since they were last taken, oldest first.
pub struct DeltaBuffer {
    deltas: Vec<MouseDelta>,
}

impl View for DeltaBuffer {
    type V = Seq<MouseDelta>;

    closed spec fn view(&self) -> Seq<MouseDelta> {
        self.deltas@
    }
}

impl DeltaBuffer {
    /// An empty buffer.
    pub fn new() -> (b: Self)
        ensures
            b@ == Seq::<MouseDelta>::empty(),
    {
        DeltaBuffer { deltas: Vec::new() }
    }

    /// The number of movements held.
    pub fn len(&self) -> (n: usize)
        ensures
            n == self@.len(),
    {
        self.deltas.len()
    }

    /// Appends a movement.
    pub fn push(&mut self, delta: MouseDelta)
        ensures
            final(self)@ == old(self)@.push(delta),
    {
        self.deltas.push(delta);
    }

    /// Hands out every movement collected, oldest first, and empties the
    /// buffer.
    pub fn take_deltas(&mut self) -> (taken: Vec<MouseDelta>)
        ensures
            taken@ == old(self)@,
            final(self)@ == Seq::<MouseDelta>::empty(),
    {
        let mut taken: Vec<MouseDelta> = Vec::new();
        std::mem::swap(&mut taken, &mut self.deltas);
        taken
    }
}

} // verus!
