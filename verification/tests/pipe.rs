use ai_aim_coach::ffmpeg::pipe::{
    encode_outcome, ffmpeg_location, frame_len, probe_args, quality_args, FfmpegError, FfmpegPipe,
    HwEncoder, ProbeAction,
};

fn select_with(available: &[HwEncoder]) -> HwEncoder {
    let mut action = HwEncoder::probe_start();
    let mut tests = 0;
    loop {
        match action {
            ProbeAction::Select(e) => return e,
            ProbeAction::Try(e) => {
                tests += 1;
                assert!(tests <= 3);
                assert_ne!(e, HwEncoder::Software);
                action = HwEncoder::probe_next(e, available.contains(&e));
            }
        }
    }
}

#[test]
fn test_ffmpeg_pipe_new_no_crash() {
    // Without an ffmpeg on the search path the pipe reports NotFound.
    match FfmpegPipe::new(ffmpeg_location(false), HwEncoder::Software) {
        Ok(pipe) => {
            println!("FFmpeg 발견, 선택된 인코더: {}", pipe.selected_encoder().ffmpeg_name());
        }
        Err(FfmpegError::NotFound) => {
            println!("FFmpeg 없음 (CI 환경 가능) — NotFound 에러 정상");
        }
        Err(e) => println!("초기화 실패: {e:?}"),
    }
}

#[test]
fn hw_encoder_ffmpeg_names_are_correct() {
    assert_eq!(HwEncoder::Nvenc.ffmpeg_name(), "h264_nvenc");
    assert_eq!(HwEncoder::Amf.ffmpeg_name(), "h264_amf");
    assert_eq!(HwEncoder::Qsv.ffmpeg_name(), "h264_qsv");
    assert_eq!(HwEncoder::Software.ffmpeg_name(), "libx264");
}

#[test]
fn new_without_ffmpeg_is_not_found() {
    assert!(matches!(
        FfmpegPipe::new(None, HwEncoder::Nvenc),
        Err(FfmpegError::NotFound)
    ));
}

#[test]
fn new_with_ffmpeg_keeps_path_and_encoder() {
    let pipe = FfmpegPipe::new(ffmpeg_location(true), HwEncoder::Qsv).unwrap();
    assert_eq!(pipe.ffmpeg_path(), "ffmpeg");
    assert_eq!(pipe.selected_encoder(), HwEncoder::Qsv);
}

#[test]
fn location_is_bare_name_or_nothing() {
    assert_eq!(ffmpeg_location(true), Some("ffmpeg".to_string()));
    assert_eq!(ffmpeg_location(false), None);
}

#[test]
fn probe_prefers_nvenc() {
    assert_eq!(
        select_with(&[HwEncoder::Nvenc, HwEncoder::Amf, HwEncoder::Qsv]),
        HwEncoder::Nvenc
    );
}

#[test]
fn probe_takes_first_working_in_priority_order() {
    assert_eq!(select_with(&[HwEncoder::Amf, HwEncoder::Qsv]), HwEncoder::Amf);
    assert_eq!(select_with(&[HwEncoder::Qsv]), HwEncoder::Qsv);
}

#[test]
fn probe_falls_back_to_software() {
    assert_eq!(select_with(&[]), HwEncoder::Software);
}

#[test]
fn probe_start_tries_nvenc() {
    assert_eq!(HwEncoder::probe_start(), ProbeAction::Try(HwEncoder::Nvenc));
    assert_eq!(
        HwEncoder::probe_next(HwEncoder::Qsv, false),
        ProbeAction::Select(HwEncoder::Software)
    );
}

#[test]
fn quality_args_per_encoder() {
    assert_eq!(quality_args(HwEncoder::Nvenc), vec!["-preset", "fast"]);
    assert!(quality_args(HwEncoder::Amf).is_empty());
    assert_eq!(quality_args(HwEncoder::Qsv), vec!["-preset", "fast"]);
    assert_eq!(
        quality_args(HwEncoder::Software),
        vec!["-preset", "fast", "-crf", "23"]
    );
}

#[test]
fn probe_args_encode_one_black_frame() {
    assert_eq!(
        probe_args(HwEncoder::Amf),
        vec![
            "-f", "lavfi", "-i", "color=black:s=16x16:r=1", "-frames:v", "1", "-c:v",
            "h264_amf", "-f", "null", "-"
        ]
    );
}

#[test]
fn encode_args_for_720p60_software() {
    let pipe = FfmpegPipe::new(Some("ffmpeg".to_string()), HwEncoder::Software).unwrap();
    assert_eq!(
        pipe.encode_args(1280, 720, 60),
        vec![
            "-f", "rawvideo", "-pix_fmt", "bgr24", "-s", "1280x720", "-r", "60", "-i",
            "pipe:0", "-c:v", "libx264", "-preset", "fast", "-crf", "23", "-y"
        ]
    );
}

#[test]
fn encode_args_for_amf_have_no_quality_options() {
    let pipe = FfmpegPipe::new(Some("ffmpeg".to_string()), HwEncoder::Amf).unwrap();
    assert_eq!(
        pipe.encode_args(16, 9, 0),
        vec![
            "-f", "rawvideo", "-pix_fmt", "bgr24", "-s", "16x9", "-r", "0", "-i", "pipe:0",
            "-c:v", "h264_amf", "-y"
        ]
    );
}

#[test]
fn frame_is_three_bytes_per_pixel() {
    assert_eq!(frame_len(1280, 720), 2_764_800);
    assert_eq!(frame_len(0, 720), 0);
}

#[test]
fn success_is_ok() {
    assert!(encode_outcome(true, b"warnings").is_ok());
}

#[test]
fn failure_carries_error_output() {
    match encode_outcome(false, "인코더 없음".as_bytes()) {
        Err(FfmpegError::EncodingFailed(text)) => assert_eq!(text, "인코더 없음"),
        other => panic!("unexpected {other:?}"),
    }
}

#[test]
fn failure_output_invalid_utf8_is_replaced() {
    match encode_outcome(false, &[b'a', 0xff, b'b']) {
        Err(FfmpegError::EncodingFailed(text)) => assert_eq!(text, "a\u{fffd}b"),
        other => panic!("unexpected {other:?}"),
    }
}
