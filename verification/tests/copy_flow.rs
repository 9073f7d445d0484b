use base64::Engine;
use clipcopy::clipboard::PrimaryError;
use clipcopy::decode::{decode_image, decode_payload, decode_raster_image, DecodeError};
use clipcopy::fallback::FallbackError;
use clipcopy::orchestrate::{
    advance_decoding, apply_fallback_result, apply_primary_result, into_outcome,
    run_primary_route, start_request, CopyState,
};

/// A 1x1 PNG with a single opaque red pixel.
fn red_png() -> Vec<u8> {
    vec![
        137, 80, 78, 71, 13, 10, 26, 10, 0, 0, 0, 13, 73, 72, 68, 82, 0, 0, 0, 1, 0, 0, 0, 1, 8,
        6, 0, 0, 0, 31, 21, 196, 137, 0, 0, 0, 13, 73, 68, 65, 84, 120, 156, 99, 248, 207, 192,
        240, 31, 0, 5, 0, 1, 255, 137, 153, 61, 29, 0, 0, 0, 0, 73, 69, 78, 68, 174, 66, 96, 130,
    ]
}

const RED_PNG_B64: &str =
    "iVBORw0KGgoAAAANSUhEUgAAAAEAAAABCAYAAAAfFcSJAAAADUlEQVR4nGP4z8DwHwAFAAH/iZk9HQAAAABJRU5ErkJggg==";

/// A 2x2 PNG: red, green on the top row; blue, white on the bottom.
const FOUR_PIXEL_PNG_B64: &str =
    "iVBORw0KGgoAAAANSUhEUgAAAAIAAAACCAYAAABytg0kAAAAEklEQVR4nGP4z8DwHwyBNBgAAEnICff5q7YNAAAAAElFTkSuQmCC";

#[test]
fn decode_image_red_pixel() {
    let img = decode_image(RED_PNG_B64).unwrap();
    assert_eq!(img.width, 1);
    assert_eq!(img.height, 1);
    assert_eq!(img.pixels, vec![255, 0, 0, 255]);
}

#[test]
fn decode_image_pixel_count_matches_dimensions() {
    let img = decode_image(FOUR_PIXEL_PNG_B64).unwrap();
    assert_eq!(img.width, 2);
    assert_eq!(img.height, 2);
    assert_eq!(img.pixels.len(), 2 * 2 * 4);
    assert_eq!(
        img.pixels,
        vec![
            255, 0, 0, 255, 0, 255, 0, 255, // top row: red, green
            0, 0, 255, 255, 255, 255, 255, 255, // bottom row: blue, white
        ]
    );
}

#[test]
fn decode_payload_reverses_text_encoding() {
    let bytes = decode_payload("aGVsbG8=").unwrap();
    assert_eq!(bytes, b"hello".to_vec());
}

#[test]
fn decode_payload_rejects_malformed_text() {
    let err = decode_payload("%%%not base64%%%").unwrap_err();
    assert!(matches!(err, DecodeError::Encoding(_)));
}

#[test]
fn decode_raster_rejects_non_image_bytes() {
    let err = decode_raster_image(&vec![0, 1, 2, 3, 4, 5, 6, 7]).unwrap_err();
    assert!(matches!(err, DecodeError::Format(_)));
}

#[test]
fn decode_image_classifies_garbage_bytes_as_format_error() {
    let garbage = base64::engine::general_purpose::STANDARD.encode(b"not an image at all");
    let err = decode_image(&garbage).unwrap_err();
    assert!(matches!(err, DecodeError::Format(_)));
}

#[test]
fn primary_failure_hands_fallback_the_original_bytes() {
    let state = advance_decoding(start_request(RED_PNG_B64.to_string()));
    let (raw, image) = match state {
        CopyState::PrimaryAttempt { raw, image } => (raw, image),
        other => panic!("expected a primary attempt, got {:?}", state_name(&other)),
    };
    assert_eq!(raw, red_png());
    let next = apply_primary_result(
        CopyState::PrimaryAttempt { raw, image },
        Err(PrimaryError::Unavailable("no clipboard manager".to_string())),
    );
    match next {
        CopyState::FallbackAttempt { raw } => assert_eq!(raw, red_png()),
        other => panic!("expected a fallback attempt, got {:?}", state_name(&other)),
    }
}

#[test]
fn primary_success_is_terminal_and_skips_fallback() {
    let state = advance_decoding(start_request(RED_PNG_B64.to_string()));
    let next = apply_primary_result(state, Ok(()));
    assert!(matches!(&next, CopyState::Success));
    assert!(!matches!(&next, CopyState::FallbackAttempt { .. }));
}

#[test]
fn scenario_working_clipboard_reports_success_with_version() {
    // A working clipboard is simulated by handing the orchestrator a
    // successful primary result.
    let state = advance_decoding(start_request(RED_PNG_B64.to_string()));
    assert!(matches!(&state, CopyState::PrimaryAttempt { .. }));
    let state = apply_primary_result(state, Ok(()));
    let outcome = into_outcome(state, 1).unwrap();
    assert!(outcome.succeeded);
    assert_eq!(outcome.failure_detail, None);
    assert_eq!(outcome.version, 1);
}

#[test]
fn scenario_no_clipboard_and_no_helper_reports_spawn_failure() {
    let state = advance_decoding(start_request(RED_PNG_B64.to_string()));
    let state = apply_primary_result(
        state,
        Err(PrimaryError::Unavailable("no clipboard manager".to_string())),
    );
    let spawn_text = "Failed to spawn wl-copy: No such file or directory".to_string();
    let state = apply_fallback_result(state, Err(FallbackError::Spawn(spawn_text.clone())));
    let outcome = into_outcome(state, 2).unwrap();
    assert!(!outcome.succeeded);
    assert_eq!(outcome.failure_detail, Some(spawn_text));
    assert_eq!(outcome.version, 2);
}

#[test]
fn helper_success_after_primary_failure_is_a_success() {
    let state = advance_decoding(start_request(RED_PNG_B64.to_string()));
    let state = apply_primary_result(
        state,
        Err(PrimaryError::WriteFailed("compositor rejected image".to_string())),
    );
    let state = apply_fallback_result(state, Ok(()));
    let outcome = into_outcome(state, 7).unwrap();
    assert!(outcome.succeeded);
    assert_eq!(outcome.failure_detail, None);
    assert_eq!(outcome.version, 7);
}

#[test]
fn helper_exit_failure_surfaces_diagnostic_output() {
    let state = advance_decoding(start_request(RED_PNG_B64.to_string()));
    let state = apply_primary_result(
        state,
        Err(PrimaryError::Unavailable("no clipboard manager".to_string())),
    );
    let diag = "wl-copy failed: compositor refused the offer".to_string();
    let state = apply_fallback_result(state, Err(FallbackError::HelperExit(diag.clone())));
    let outcome = into_outcome(state, 3).unwrap();
    assert!(!outcome.succeeded);
    assert_eq!(outcome.failure_detail, Some(diag));
}

#[test]
fn unrecognizable_image_still_reaches_fallback_with_raw_bytes() {
    // The image container could not be parsed, so the primary (pixel)
    // route is impossible, but the raw bytes still go to the fallback.
    let garbage = b"not an image at all".to_vec();
    let encoded = base64::engine::general_purpose::STANDARD.encode(&garbage);
    let state = advance_decoding(start_request(encoded));
    match state {
        CopyState::FallbackAttempt { raw } => assert_eq!(raw, garbage),
        other => panic!("expected a fallback attempt, got {:?}", state_name(&other)),
    }
}

#[test]
fn malformed_text_encoding_is_terminal() {
    let state = advance_decoding(start_request("%%%not base64%%%".to_string()));
    assert!(matches!(&state, CopyState::Failed { .. }));
    let outcome = into_outcome(state, 4).unwrap();
    assert!(!outcome.succeeded);
    assert!(outcome.failure_detail.is_some());
    assert_eq!(outcome.version, 4);
}

#[test]
fn non_terminal_states_yield_no_outcome() {
    assert!(into_outcome(start_request(RED_PNG_B64.to_string()), 5).is_none());
    let state = advance_decoding(start_request(RED_PNG_B64.to_string()));
    assert!(matches!(&state, CopyState::PrimaryAttempt { .. }));
    assert!(into_outcome(state, 5).is_none());
}

#[test]
fn run_primary_route_never_reencodes_the_payload() {
    // Whether the real clipboard is available depends on the
    // environment; either the request already succeeded, or the
    // fallback is pending with the original bytes.
    let state = run_primary_route(RED_PNG_B64.to_string());
    match state {
        CopyState::Success => {}
        CopyState::FallbackAttempt { raw } => assert_eq!(raw, red_png()),
        other => panic!("unexpected state {:?}", state_name(&other)),
    }
}

#[test]
fn run_primary_route_fails_on_malformed_text() {
    let state = run_primary_route("!!!".to_string());
    assert!(matches!(state, CopyState::Failed { .. }));
}

fn state_name(state: &CopyState) -> &'static str {
    match state {
        CopyState::Idle => "Idle",
        CopyState::Decoding { .. } => "Decoding",
        CopyState::PrimaryAttempt { .. } => "PrimaryAttempt",
        CopyState::FallbackAttempt { .. } => "FallbackAttempt",
        CopyState::Success => "Success",
        CopyState::Failed { .. } => "Failed",
    }
}
