use captest::capture::{
    preflight, process_frame, single_shot_request, CaptureError, CaptureEvent, CaptureSession,
    FrameVariant, PipelineError,
};
use captest::codec::{decode_image, ContainerFormat};
use captest::ocr::{aggregate_ocr_lines, check_models, choose_model_path};
use captest::pixels::{NormalizeError, RawFrame};
use captest::targets::{resolve, CaptureTarget, TargetKind};
use captest::text::{
    default_capture_filename, ensure_jpg_extension, ensure_png_extension, get_bounds_string,
    i64_to_string, str_eq, truncate_string, u64_to_string,
};
use captest::vision::{build_analysis_request, is_success_status, json_escape, llm_failure_message};

#[test]
fn end_to_end_constant_display_capture() {
    // The engine reports two displays; capturing display index 1 yields a
    // 100x50 BGRA frame of constant (B=10,G=20,R=30,A=255); after
    // normalize, encode and decode every pixel must be (30,20,10).
    let targets = vec![
        CaptureTarget::Display { id: 100, title: "first".to_string() },
        CaptureTarget::Display { id: 200, title: "second".to_string() },
        CaptureTarget::Window { id: 7, title: "w".to_string() },
    ];
    let chosen = resolve(&targets, TargetKind::Display, 1).unwrap();
    match &chosen {
        CaptureTarget::Display { id, .. } => assert_eq!(*id, 200),
        _ => panic!("expected a display"),
    }
    let request = single_shot_request(chosen);
    assert_eq!(request.fps, 1);
    assert!(!request.show_highlight);
    assert_eq!(request.output_variant, FrameVariant::Bgra);
    assert!(!request.cap_resolution);

    let mut session = CaptureSession::new();
    session.engine_built(true, String::new()).unwrap();
    let data: Vec<u8> = [10u8, 20, 30, 255].iter().copied().cycle().take(100 * 50 * 4).collect();
    let frame_event = CaptureEvent::Frame(RawFrame::Bgra {
        width: 100,
        height: 50,
        data,
        display_time: Some(1),
    });
    let frame = session.settle(frame_event).unwrap();
    assert!(!session.is_engine_running());

    let encoded = process_frame(frame, ContainerFormat::Png).unwrap();
    let back = decode_image(&encoded.bytes).unwrap();
    assert_eq!(back.width, 100);
    assert_eq!(back.height, 50);
    assert_eq!(back.pixels.len(), 100 * 50 * 3);
    for px in back.pixels.chunks_exact(3) {
        assert_eq!(px, &[30u8, 20, 10]);
    }
}

#[test]
fn window_requests_cap_the_resolution() {
    let request = single_shot_request(CaptureTarget::Window { id: 3, title: "w".to_string() });
    assert!(request.cap_resolution);
    assert_eq!(request.fps, 1);
    assert_eq!(request.output_variant, FrameVariant::Bgra);
}

#[test]
fn capture_timeout_releases_engine() {
    // When no frame arrives within the bound, the session must still
    // release the engine handle and report the timeout.
    let mut session = CaptureSession::new();
    session.engine_built(true, String::new()).unwrap();
    assert!(session.is_engine_running());
    let r = session.settle(CaptureEvent::TimedOut);
    assert!(!session.is_engine_running());
    assert_eq!(r.unwrap_err(), CaptureError::FrameTimeout);
}

#[test]
fn audio_frame_is_unexpected_kind() {
    let mut session = CaptureSession::new();
    session.engine_built(true, String::new()).unwrap();
    let r = session.settle(CaptureEvent::AudioFrame);
    assert!(!session.is_engine_running());
    assert_eq!(r.unwrap_err(), CaptureError::UnexpectedKind);
}

#[test]
fn engine_failures_carry_details() {
    let mut idle = CaptureSession::new();
    let r = idle.engine_built(false, "no backend".to_string());
    assert_eq!(
        r.unwrap_err(),
        CaptureError::EngineStartFailure { details: "no backend".to_string() }
    );
    assert!(!idle.is_engine_running());

    let mut session = CaptureSession::new();
    session.engine_built(true, String::new()).unwrap();
    let r = session.settle(CaptureEvent::EngineFailed { details: "stream lost".to_string() });
    assert_eq!(
        r.unwrap_err(),
        CaptureError::EngineStartFailure { details: "stream lost".to_string() }
    );
}

#[test]
fn preflight_gates_capture() {
    assert!(preflight(true, true).is_ok());
    assert_eq!(preflight(false, true).unwrap_err(), CaptureError::Unsupported);
    assert_eq!(preflight(false, false).unwrap_err(), CaptureError::Unsupported);
    assert_eq!(preflight(true, false).unwrap_err(), CaptureError::PermissionDenied);
}

#[test]
fn pipeline_reports_normalize_errors() {
    let r = process_frame(
        RawFrame::Yuv {
            width: 2,
            height: 2,
            luminance: vec![0u8; 4],
            chrominance: vec![0u8; 2],
            display_time: None,
        },
        ContainerFormat::Png,
    );
    assert_eq!(r.unwrap_err(), PipelineError::Normalize(NormalizeError::UnsupportedVariant));
    let r = process_frame(
        RawFrame::Bgra { width: 1, height: 1, data: vec![0u8; 5], display_time: None },
        ContainerFormat::Png,
    );
    assert_eq!(r.unwrap_err(), PipelineError::Normalize(NormalizeError::MalformedBuffer));
}

#[test]
fn decimal_formatting_exact() {
    assert_eq!(u64_to_string(0), "0");
    assert_eq!(u64_to_string(7), "7");
    assert_eq!(u64_to_string(120), "120");
    assert_eq!(u64_to_string(18446744073709551615), "18446744073709551615");
    assert_eq!(i64_to_string(-1), "-1");
    assert_eq!(i64_to_string(-9223372036854775808), "-9223372036854775808");
    assert_eq!(i64_to_string(42), "42");
}

#[test]
fn truncate_string_behaviour() {
    assert_eq!(truncate_string("short", 20), "short");
    assert_eq!(truncate_string("exactly", 7), "exactly");
    assert_eq!(truncate_string("abcdefgh", 5), "abcd…");
    assert_eq!(truncate_string("abc", 0), "…");
}

#[test]
fn bounds_string_exact() {
    assert_eq!(get_bounds_string(&(12, -7, 1920, 1080)), "1920x1080 at (12,-7)");
    assert_eq!(get_bounds_string(&(0, 0, 0, 0)), "0x0 at (0,0)");
}

#[test]
fn png_extension_appended_once() {
    assert_eq!(ensure_png_extension("shot"), "shot.png");
    assert_eq!(ensure_png_extension("shot.png"), "shot.png");
    assert_eq!(ensure_png_extension(""), ".png");
    assert_eq!(ensure_png_extension("a.jpg"), "a.jpg.png");
}

#[test]
fn jpg_extension_appended_once() {
    assert_eq!(ensure_jpg_extension("shot"), "shot.jpg");
    assert_eq!(ensure_jpg_extension("shot.jpg"), "shot.jpg");
    assert_eq!(ensure_jpg_extension(""), ".jpg");
    assert_eq!(ensure_jpg_extension("a.png"), "a.png.jpg");
}

#[test]
fn default_filename_contains_timestamp() {
    assert_eq!(default_capture_filename(1700000000, true), "screenshot_1700000000.png");
    assert_eq!(default_capture_filename(0, false), "screenshot_0.jpg");
}

#[test]
fn str_eq_by_characters() {
    assert!(str_eq("Unknown", "Unknown"));
    assert!(!str_eq("Unknown", "known"));
    assert!(!str_eq("a", "b"));
    assert!(str_eq("", ""));
}

#[test]
fn json_escaping_exact() {
    assert_eq!(json_escape("plain text"), "plain text");
    assert_eq!(json_escape("say \"hi\"\\now"), "say \\\"hi\\\"\\\\now");
    assert_eq!(json_escape("a\nb\tc\rd"), "a\\nb\\tc\\rd");
    assert_eq!(json_escape("\u{1}\u{1f}"), "\\u0001\\u001f");
}

#[test]
fn analysis_request_embeds_base64_image() {
    // base64 of [1,2,3] under the standard alphabet is "AQID"; the body
    // must embed it in the data URL, not the raw bytes.
    let body = build_analysis_request(Some("look"), &vec![1u8, 2, 3]);
    assert_eq!(
        body,
        "{\"model\":\"gpt-4-vision-preview\",\"messages\":[{\"role\":\"user\",\"content\":\
         [{\"type\":\"text\",\"text\":\"look\"},{\"type\":\"image_url\",\"image_url\":\
         {\"url\":\"data:image/jpeg;base64,AQID\"}}]}],\"max_tokens\":1000}"
    );
    // Padding: two bytes encode to three characters plus one '='.
    let body = build_analysis_request(Some("p"), &vec![255u8, 254]);
    assert!(body.contains("data:image/jpeg;base64,//4=\""));
    // The default prompt is used when none is supplied.
    let body = build_analysis_request(None, &Vec::new());
    assert!(body.contains("Analyze this screenshot and describe all UI elements"));
    assert!(body.contains("\"max_tokens\":1000"));
}

#[test]
fn llm_outcome_rules() {
    assert!(is_success_status(200));
    assert!(is_success_status(299));
    assert!(!is_success_status(199));
    assert!(!is_success_status(300));
    assert!(!is_success_status(404));
    assert_eq!(
        llm_failure_message(404, "not found"),
        "LLM request failed with status 404: not found. Make sure LMStudio is running on \
         localhost:1234 with a vision model loaded."
    );
}

#[test]
fn model_path_fallback_rules() {
    assert_eq!(
        choose_model_path("../models/det.rten", "det.rten", true),
        "../models/det.rten"
    );
    assert_eq!(choose_model_path("../models/det.rten", "det.rten", false), "det.rten");
    assert!(check_models("a", "b", true, true).is_ok());
    let msg = check_models("a.rten", "b.rten", true, false).unwrap_err();
    assert_eq!(
        msg,
        "OCR models not found. Please download models using the download-models.sh script \
         from the ocrs examples directory.\nLooked for:\n- a.rten\n- b.rten"
    );
}

#[test]
fn ocr_line_aggregation() {
    assert_eq!(aggregate_ocr_lines(&Vec::new()), "No text detected in the image.");
    assert_eq!(
        aggregate_ocr_lines(&vec!["x".to_string(), ".".to_string()]),
        "No text detected in the image."
    );
    assert_eq!(
        aggregate_ocr_lines(&vec![
            "first line".to_string(),
            "x".to_string(),
            "second".to_string(),
        ]),
        "first line\nsecond"
    );
    assert_eq!(aggregate_ocr_lines(&vec!["only".to_string()]), "only");
}
