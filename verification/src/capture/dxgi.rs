//! Desktop duplication: what a frame acquisition yields, and the frame count
//! of a measurement run.

use vstd::prelude::*;
use crate::win::WindowsError;

verus! {

/// `DXGI_ERROR_WAIT_TIMEOUT` (`0x887A0027`): no new frame within the wait.
pub const DXGI_ERROR_WAIT_TIMEOUT: i32 = -2005270489;

/// `DXGI_ERROR_ACCESS_LOST` (`0x887A0026`): the duplication must be recreated.
pub const DXGI_ERROR_ACCESS_LOST: i32 = -2005270490;

/// Frame capture errors.
#[derive(Clone, Copy, Debug, PartialEq, Eq, Structural)]
pub enum CaptureError {
    /// A DXGI or D3D11 call failed.
    Windows(WindowsError),
    /// No display output was found.
    NoOutput,
    /// No new frame arrived in time (the screen did not change).
    Timeout,
    /// Access to the display was lost (lock screen, mode change).
    AccessLost,
}

/// The result of an acquisition: the number of screen frames rendered since
/// the last capture (0 or more), or the error that the failure code stands
/// for.
pub open spec fn acquire_result(acquired: Result<u32, WindowsError>) -> Result<u32, CaptureError> {
    match acquired {
        Ok(accumulated) => Ok(accumulated),
        Err(e) => if e.code == DXGI_ERROR_WAIT_TIMEOUT {
            Err(CaptureError::Timeout)
        } else if e.code == DXGI_ERROR_ACCESS_LOST {
            Err(CaptureError::AccessLost)
        } else {
            Err(CaptureError::Windows(e))
        },
    }
}

/// An acquisition's result: success passes the accumulated count on unchanged
/// (0 included); the wait-timeout code `0x887A0027` is the only one reported
/// as `Timeout` and the access-lost code `0x887A0026` the only one reported as
/// `AccessLost`; every other failure code is passed on as that Windows error.
pub proof fn lemma_acquire_classification(frames: u32, code: i32)
    ensures
        acquire_result(Ok(frames)) == Ok::<u32, CaptureError>(frames),
        DXGI_ERROR_WAIT_TIMEOUT == -2005270489i32 && DXGI_ERROR_ACCESS_LOST == -2005270490i32,
        acquire_result(Err(WindowsError { code })) == Err::<u32, CaptureError>(
            CaptureError::Timeout,
        ) <==> code == -2005270489i32,
        acquire_result(Err(WindowsError { code })) == Err::<u32, CaptureError>(
            CaptureError::AccessLost,
        ) <==> code == -2005270490i32,
        code != -2005270489i32 && code != -2005270490i32 ==> acquire_result(
            Err(WindowsError { code }),
        ) == Err::<u32, CaptureError>(CaptureError::Windows(WindowsError { code })),
        acquire_result(Err(WindowsError { code })) is Err,
{
}

/// Interprets `AcquireNextFrame`: its accumulated frame count on success, or
/// its failure. After `Ok`, the caller releases the frame and reports that
/// with [`release_outcome`].
pub fn acquire_outcome(acquired: Result<u32, WindowsError>) -> (r: Result<u32, CaptureError>)
    ensures
        r == acquire_result(acquired),
{
    match acquired {
        Ok(accumulated) => Ok(accumulated),
        Err(e) => {
            if e.code == DXGI_ERROR_WAIT_TIMEOUT {
                Err(CaptureError::Timeout)
            } else if e.code == DXGI_ERROR_ACCESS_LOST {
                Err(CaptureError::AccessLost)
            } else {
                Err(CaptureError::Windows(e))
            }
        },
    }
}

/// The result of a capture whose acquisition counted `frames`, once
/// `ReleaseFrame` has answered.
pub fn release_outcome(frames: u32, released: Result<(), WindowsError>) -> (r: Result<
    u32,
    CaptureError,
>)
    ensures
        r == (match released {
            Ok(()) => Ok::<u32, CaptureError>(frames),
            Err(e) => Err(CaptureError::Windows(e)),
        }),
{
    match released {
        Ok(()) => Ok(frames),
        Err(e) => Err(CaptureError::Windows(e)),
    }
}

/// The running frame count of a measurement.
pub struct FrameTally {
    total_frames: u64,
}

impl View for FrameTally {
    type V = nat;

    closed spec fn view(&self) -> nat {
        self.total_frames as nat
    }
}

/// Whether a measurement goes on after a capture with this result: it does
/// after a success or a timeout, and stops at any other error.
pub open spec fn continues_after(outcome: Result<u32, CaptureError>) -> bool {
    match outcome {
        Ok(_) => true,
        Err(CaptureError::Timeout) => true,
        Err(_) => false,
    }
}

/// The frames that a capture result adds to the count.
pub open spec fn frames_of(outcome: Result<u32, CaptureError>) -> nat {
    match outcome {
        Ok(n) => n as nat,
        Err(_) => 0,
    }
}

/// A measurement goes on after every success and after a timeout, and stops
/// after every other error, whatever its kind or code; only successes add
/// frames, exactly as many as they report.
pub proof fn lemma_measurement_stops_on_errors(outcome: Result<u32, CaptureError>)
    ensures
        continues_after(outcome) <==> (outcome is Ok || outcome == Err::<u32, CaptureError>(
            CaptureError::Timeout,
        )),
        forall|e: CaptureError|
            e != CaptureError::Timeout ==> !#[trigger] continues_after(Err(e)),
        outcome matches Ok(n) ==> frames_of(outcome) == n,
        outcome is Err ==> frames_of(outcome) == 0,
{
}

impl FrameTally {
    /// A count of zero frames.
    pub fn new() -> (t: Self)
        ensures
            t@ == 0,
    {
        FrameTally { total_frames: 0 }
    }

    /// The frames counted so far.
    pub fn total_frames(&self) -> (n: u64)
        ensures
            n == self@,
    {
        self.total_frames
    }

    /// Adds the frames of one capture result and says whether the measurement
    /// goes on.
    pub fn record(&mut self, outcome: Result<u32, CaptureError>) -> (go_on: bool)
        requires
            old(self)@ + frames_of(outcome) <= u64::MAX,
        ensures
            final(self)@ == old(self)@ + frames_of(outcome),
            go_on == continues_after(outcome),
    {
        match outcome {
            Ok(n) => {
                self.total_frames = self.total_frames + n as u64;
                true
            },
            Err(CaptureError::Timeout) => true,
            Err(_) => false,
        }
    }
}

} // verus!
