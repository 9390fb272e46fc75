//! Game display-mode detection.
//!
//! A window is classified in three stages: a window whose style has a caption
//! or a sizing frame is `Windowed`; a window that does not cover its monitor
//! exactly is `Windowed`; otherwise a window that graphics capture accepts is
//! `BorderlessFullscreen` and one that it refuses is `ExclusiveFullscreen`.
//! The system queries are made by the caller, which feeds each answer to
//! [`detect_step`] and performs the query it asks for next.

use vstd::prelude::*;
use crate::win::WindowsError;

verus! {

/// Window style bits of a title bar (`WS_CAPTION`).
pub const WS_CAPTION: u32 = 0x00C0_0000;

/// Window style bit of a sizing border (`WS_THICKFRAME`).
pub const WS_THICKFRAME: u32 = 0x0004_0000;

/// Display mode of the game window.
#[derive(Clone, Copy, Debug, PartialEq, Eq, Structural)]
pub enum GameMode {
    /// Exclusive fullscreen: captured with desktop duplication first.
    ExclusiveFullscreen,
    /// Borderless fullscreen: captured with graphics capture first.
    BorderlessFullscreen,
    /// Windowed: captured with graphics capture first.
    Windowed,
}

/// Why a display mode could not be determined.
#[derive(Clone, Copy, Debug, PartialEq, Eq, Structural)]
pub enum DetectorError {
    /// The handle does not name a window.
    InvalidWindow,
    /// A Windows API call failed.
    Windows(WindowsError),
}

/// A screen rectangle in pixels.
#[derive(Clone, Copy, Debug, PartialEq, Eq, Structural)]
pub struct Rect {
    pub left: i32,
    pub top: i32,
    pub right: i32,
    pub bottom: i32,
}

/// The answer to one system query about the window under test.
#[derive(Clone, Copy, Debug)]
pub enum DetectEvent {
    /// Whether the handle names a window.
    IsWindow(bool),
    /// The window's style bits.
    Style(u32),
    /// The window rectangle and the rectangle of its nearest monitor.
    Bounds(Result<(Rect, Rect), WindowsError>),
    /// Whether a graphics capture item could be created for the window;
    /// `Err` when the capture factory itself was unavailable.
    Capture(Result<bool, WindowsError>),
}

/// The next system query to make.
#[derive(Clone, Copy, Debug, PartialEq, Eq, Structural)]
pub enum DetectQuery {
    /// Read the window's style bits.
    Style,
    /// Read the window rectangle and its monitor's rectangle.
    Bounds,
    /// Try to create a graphics capture item for the window.
    Capture,
}

/// What the caller does next.
#[derive(Clone, Copy, Debug)]
pub enum DetectAction {
    /// Make this query and report its answer.
    Query(DetectQuery),
    /// Detection is over, with this result.
    Finish(Result<GameMode, DetectorError>),
}

/// The style has a title bar or a sizing frame.
pub open spec fn has_frame_style(style: u32) -> bool {
    (style & WS_CAPTION) != 0 || (style & WS_THICKFRAME) != 0
}

/// The transition table of the detection: the action that follows an answer.
pub open spec fn detect_transition(event: DetectEvent) -> DetectAction {
    match event {
        DetectEvent::IsWindow(valid) => if valid {
            DetectAction::Query(DetectQuery::Style)
        } else {
            DetectAction::Finish(Err(DetectorError::InvalidWindow))
        },
        DetectEvent::Style(style) => if has_frame_style(style) {
            DetectAction::Finish(Ok(GameMode::Windowed))
        } else {
            DetectAction::Query(DetectQuery::Bounds)
        },
        DetectEvent::Bounds(Err(e)) => DetectAction::Finish(Err(DetectorError::Windows(e))),
        DetectEvent::Bounds(Ok((window, monitor))) => if window == monitor {
            DetectAction::Query(DetectQuery::Capture)
        } else {
            DetectAction::Finish(Ok(GameMode::Windowed))
        },
        DetectEvent::Capture(Err(e)) => DetectAction::Finish(Err(DetectorError::Windows(e))),
        DetectEvent::Capture(Ok(true)) => DetectAction::Finish(Ok(GameMode::BorderlessFullscreen)),
        DetectEvent::Capture(Ok(false)) => DetectAction::Finish(Ok(GameMode::ExclusiveFullscreen)),
    }
}

/// What the system answers, for a given window, to each query the detection
/// may make.
#[derive(Clone, Copy, Debug)]
pub struct WindowFacts {
    pub is_window: bool,
    pub style: u32,
    pub bounds: Result<(Rect, Rect), WindowsError>,
    pub capture: Result<bool, WindowsError>,
}

/// The answer that `facts` give to query `q`.
pub open spec fn answer(facts: WindowFacts, q: DetectQuery) -> DetectEvent {
    match q {
        DetectQuery::Style => DetectEvent::Style(facts.style),
        DetectQuery::Bounds => DetectEvent::Bounds(facts.bounds),
        DetectQuery::Capture => DetectEvent::Capture(facts.capture),
    }
}

/// The result of following `action` against `facts` for at most `fuel`
/// further queries; `None` when it has not finished by then.
pub open spec fn drive(facts: WindowFacts, action: DetectAction, fuel: nat) -> Option<
    Result<GameMode, DetectorError>,
>
    decreases fuel,
{
    match action {
        DetectAction::Finish(r) => Some(r),
        DetectAction::Query(q) => if fuel == 0 {
            None
        } else {
            drive(facts, detect_transition(answer(facts, q)), (fuel - 1) as nat)
        },
    }
}

/// The documented classification of a window.
pub open spec fn classify(facts: WindowFacts) -> Result<GameMode, DetectorError> {
    if !facts.is_window {
        Err(DetectorError::InvalidWindow)
    } else if has_frame_style(facts.style) {
        Ok(GameMode::Windowed)
    } else {
        match facts.bounds {
            Err(e) => Err(DetectorError::Windows(e)),
            Ok((window, monitor)) => if window != monitor {
                Ok(GameMode::Windowed)
            } else {
                match facts.capture {
                    Err(e) => Err(DetectorError::Windows(e)),
                    Ok(captured) => Ok(
                        if captured {
                            GameMode::BorderlessFullscreen
                        } else {
                            GameMode::ExclusiveFullscreen
                        },
                    ),
                }
            },
        }
    }
}

/// Detection started on a window's validity and fed the system's answers ends
/// after at most three queries, with the documented classification: an invalid
/// handle is an error; a frame style or a window that does not cover its
/// monitor is windowed; otherwise graphics capture decides between borderless
/// and exclusive fullscreen. A fullscreen result therefore always means a
/// frameless window that covers its monitor exactly.
pub proof fn lemma_detection_classifies(facts: WindowFacts)
    ensures
        drive(facts, detect_transition(DetectEvent::IsWindow(facts.is_window)), 3) == Some(
            classify(facts),
        ),
        classify(facts) == Err::<GameMode, DetectorError>(DetectorError::InvalidWindow)
            <==> !facts.is_window,
        (classify(facts) == Ok::<GameMode, DetectorError>(GameMode::BorderlessFullscreen)
            || classify(facts) == Ok::<GameMode, DetectorError>(GameMode::ExclusiveFullscreen))
            ==> facts.is_window && !has_frame_style(facts.style) && (facts.bounds matches Ok(
            (w, m),
        ) && w == m),
{
    reveal_with_fuel(drive, 4);
}

/// Only the title-bar and sizing-frame bits decide whether a style is framed:
/// a style is framed exactly when it has one of the bits `0x00C4_0000`, so
/// two styles that agree on those bits are judged alike, whatever else (such
/// as `WS_POPUP` or `WS_VISIBLE`) they carry.
pub proof fn lemma_frame_style_bits(style: u32, other: u32)
    ensures
        has_frame_style(style) <==> (style & 0x00C4_0000u32) != 0u32,
        (style & 0x00C4_0000u32) == (other & 0x00C4_0000u32) ==> (has_frame_style(style)
            <==> has_frame_style(other)),
        has_frame_style(0x00C0_0000u32) && has_frame_style(0x0080_0000u32) && has_frame_style(
            0x0040_0000u32,
        ) && has_frame_style(0x0004_0000u32),
{
    assert(has_frame_style(style) <==> (style & 0x00C4_0000u32) != 0u32) by (bit_vector);
    assert((style & 0x00C4_0000u32) == (other & 0x00C4_0000u32) ==> (has_frame_style(style)
        <==> has_frame_style(other))) by (bit_vector);
    assert(has_frame_style(0x00C0_0000u32) && has_frame_style(0x0080_0000u32) && has_frame_style(
        0x0040_0000u32,
    ) && has_frame_style(0x0004_0000u32)) by (bit_vector);
}

/// After the style answer, a window with neither a title-bar nor a
/// sizing-frame bit goes on to the bounds query, and one with such a bit is
/// windowed at once.
pub proof fn lemma_style_stage(style: u32)
    ensures
        (style & 0x00C4_0000u32) == 0u32 ==> detect_transition(DetectEvent::Style(style))
            == DetectAction::Query(DetectQuery::Bounds),
        (style & 0x00C4_0000u32) != 0u32 ==> detect_transition(DetectEvent::Style(style))
            == DetectAction::Finish(Ok::<GameMode, DetectorError>(GameMode::Windowed)),
{
    lemma_frame_style_bits(style, style);
}

/// Whether the style has a title bar or a sizing frame.
pub fn has_frame(style: u32) -> (b: bool)
    ensures
        b == has_frame_style(style),
{
    (style & WS_CAPTION) != 0 || (style & WS_THICKFRAME) != 0
}

/// Decides what follows an answer: the next query, or the detection result.
pub fn detect_step(event: DetectEvent) -> (action: DetectAction)
    ensures
        action == detect_transition(event),
{
    match event {
        DetectEvent::IsWindow(valid) => {
            if valid {
                DetectAction::Query(DetectQuery::Style)
            } else {
                DetectAction::Finish(Err(DetectorError::InvalidWindow))
            }
        },
        DetectEvent::Style(style) => {
            if has_frame(style) {
                DetectAction::Finish(Ok(GameMode::Windowed))
            } else {
                DetectAction::Query(DetectQuery::Bounds)
            }
        },
        DetectEvent::Bounds(Err(e)) => DetectAction::Finish(Err(DetectorError::Windows(e))),
        DetectEvent::Bounds(Ok((window, monitor))) => {
            if window == monitor {
                DetectAction::Query(DetectQuery::Capture)
            } else {
                DetectAction::Finish(Ok(GameMode::Windowed))
            }
        },
        DetectEvent::Capture(Err(e)) => DetectAction::Finish(Err(DetectorError::Windows(e))),
        DetectEvent::Capture(Ok(captured)) => {
            if captured {
                DetectAction::Finish(Ok(GameMode::BorderlessFullscreen))
            } else {
                DetectAction::Finish(Ok(GameMode::ExclusiveFullscreen))
            }
        },
    }
}

} // verus!
