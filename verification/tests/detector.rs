use ai_aim_coach::capture::detector::{
    detect_step, has_frame, DetectAction, DetectEvent, DetectQuery, DetectorError, GameMode, Rect,
    WS_CAPTION, WS_THICKFRAME,
};
use ai_aim_coach::win::WindowsError;

const SCREEN: Rect = Rect { left: 0, top: 0, right: 1920, bottom: 1080 };

/// Runs the detection against fixed answers, counting the queries.
fn detect(
    is_window: bool,
    style: u32,
    bounds: Result<(Rect, Rect), WindowsError>,
    capture: Result<bool, WindowsError>,
) -> (Result<GameMode, DetectorError>, Vec<DetectQuery>) {
    let mut asked = Vec::new();
    let mut event = DetectEvent::IsWindow(is_window);
    loop {
        match detect_step(event) {
            DetectAction::Finish(r) => return (r, asked),
            DetectAction::Query(q) => {
                asked.push(q);
                event = match q {
                    DetectQuery::Style => DetectEvent::Style(style),
                    DetectQuery::Bounds => DetectEvent::Bounds(bounds),
                    DetectQuery::Capture => DetectEvent::Capture(capture),
                };
            }
        }
    }
}

#[test]
fn test_detect_null_hwnd_returns_invalid_window() {
    // A null handle is not a window.
    let result = detect_step(DetectEvent::IsWindow(false));
    assert!(
        matches!(result, DetectAction::Finish(Err(DetectorError::InvalidWindow))),
        "null HWND는 InvalidWindow 에러를 반환해야 함: {result:?}"
    );
}

#[test]
fn invalid_window_asks_nothing() {
    let (r, asked) = detect(false, WS_CAPTION, Ok((SCREEN, SCREEN)), Ok(true));
    assert_eq!(r, Err(DetectorError::InvalidWindow));
    assert!(asked.is_empty());
}

#[test]
fn caption_is_windowed() {
    let (r, asked) = detect(true, WS_CAPTION, Ok((SCREEN, SCREEN)), Ok(true));
    assert_eq!(r, Ok(GameMode::Windowed));
    assert_eq!(asked, vec![DetectQuery::Style]);
}

#[test]
fn thick_frame_is_windowed() {
    let (r, _) = detect(true, WS_THICKFRAME, Ok((SCREEN, SCREEN)), Ok(false));
    assert_eq!(r, Ok(GameMode::Windowed));
}

#[test]
fn partial_caption_bit_counts() {
    assert!(has_frame(0x0080_0000));
    assert!(!has_frame(0x1000_0000));
}

#[test]
fn smaller_window_is_windowed() {
    let small = Rect { left: 0, top: 0, right: 1280, bottom: 720 };
    let (r, asked) = detect(true, 0, Ok((small, SCREEN)), Ok(true));
    assert_eq!(r, Ok(GameMode::Windowed));
    assert_eq!(asked, vec![DetectQuery::Style, DetectQuery::Bounds]);
}

#[test]
fn covering_window_with_capture_is_borderless() {
    let (r, asked) = detect(true, 0x1000_0000, Ok((SCREEN, SCREEN)), Ok(true));
    assert_eq!(r, Ok(GameMode::BorderlessFullscreen));
    assert_eq!(
        asked,
        vec![DetectQuery::Style, DetectQuery::Bounds, DetectQuery::Capture]
    );
}

#[test]
fn covering_window_without_capture_is_exclusive() {
    let (r, _) = detect(true, 0, Ok((SCREEN, SCREEN)), Ok(false));
    assert_eq!(r, Ok(GameMode::ExclusiveFullscreen));
}

#[test]
fn failed_rect_query_is_windows_error() {
    let e = WindowsError { code: 5 };
    let (r, _) = detect(true, 0, Err(e), Ok(true));
    assert_eq!(r, Err(DetectorError::Windows(e)));
}

#[test]
fn failed_capture_factory_is_windows_error() {
    let e = WindowsError { code: -2147221164 };
    let (r, _) = detect(true, 0, Ok((SCREEN, SCREEN)), Err(e));
    assert_eq!(r, Err(DetectorError::Windows(e)));
}
