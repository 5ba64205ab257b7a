//! The boundary adapter's validation order and outcome mapping.

use scatterplot::boundary::{
    finish_call, panic_message, validate_pointers, STATUS_FAILURE, STATUS_OK,
};
use scatterplot::channel::ErrorChannel;
use scatterplot::errors::PlotError;
use scatterplot::pipeline::{stage_error, RenderStage};

#[test]
fn valid_pointers_pass() {
    assert_eq!(validate_pointers(false, false, false, 5), Ok(()));
    assert_eq!(validate_pointers(false, false, false, 1), Ok(()));
}

#[test]
fn null_path_is_rejected_first() {
    let err = validate_pointers(true, true, true, 0).unwrap_err();
    assert_eq!(err, PlotError::NullPath);
    let msg = err.message();
    assert!(!msg.is_empty());
    assert!(msg.contains("Path"));
}

#[test]
fn null_data_pointers_are_rejected() {
    assert_eq!(
        validate_pointers(false, true, false, 2),
        Err(PlotError::NullXs)
    );
    assert_eq!(
        validate_pointers(false, false, true, 2),
        Err(PlotError::NullYs)
    );
}

#[test]
fn zero_count_is_rejected_with_count_message() {
    let err = validate_pointers(false, false, false, 0).unwrap_err();
    assert_eq!(err, PlotError::ZeroCount);
    let msg = err.message();
    assert!(!msg.is_empty());
    assert!(msg.contains("count"));
}

#[test]
fn every_error_message_is_nonempty() {
    let all = [
        PlotError::NullPath,
        PlotError::NullXs,
        PlotError::NullYs,
        PlotError::ZeroCount,
        PlotError::PathNotUtf8,
        PlotError::InvalidDimensions,
        PlotError::InvalidXRange,
        PlotError::InvalidYRange,
    ];
    for e in all {
        assert!(!e.message().is_empty());
    }
    assert!(PlotError::PathNotUtf8.message().contains("UTF-8"));
    assert!(PlotError::InvalidDimensions.message().contains("Width and height"));
}

#[test]
fn finish_call_maps_success_to_zero_and_leaves_channel() {
    let mut ch = ErrorChannel::new();
    ch.clear();
    assert_eq!(finish_call(&mut ch, Ok(())), STATUS_OK);
    assert!(ch.peek().is_none());
}

#[test]
fn finish_call_maps_failure_to_one_and_stores_message() {
    let mut ch = ErrorChannel::new();
    ch.clear();
    let code = finish_call(&mut ch, Err(String::from("disk full")));
    assert_eq!(code, STATUS_FAILURE);
    assert_eq!(ch.peek().unwrap().as_str(), "disk full");
}

#[test]
fn next_call_start_erases_previous_failure() {
    let mut ch = ErrorChannel::new();
    // A failing call stores its message ...
    ch.clear();
    assert_eq!(
        finish_call(&mut ch, Err(String::from("first failure"))),
        STATUS_FAILURE
    );
    assert!(ch.peek().is_some());
    // ... and the next call clears it on entry, whatever happens after.
    ch.clear();
    assert!(ch.peek().is_none());
    assert_eq!(finish_call(&mut ch, Ok(())), STATUS_OK);
    assert!(ch.peek().is_none());
}

#[test]
fn panic_messages() {
    assert_eq!(
        panic_message(Some("index out of bounds")).as_str(),
        "Internal panic: index out of bounds"
    );
    assert_eq!(
        panic_message(None).as_str(),
        "Internal panic (unknown cause)"
    );
}

#[test]
fn stage_errors_carry_engine_diagnostics() {
    assert_eq!(
        stage_error(RenderStage::FillBackground, "permission denied").as_str(),
        "Failed to fill background: permission denied"
    );
    assert_eq!(
        stage_error(RenderStage::BuildChart, "bad range").as_str(),
        "Failed to build chart: bad range"
    );
    assert_eq!(
        stage_error(RenderStage::DrawMesh, "no font").as_str(),
        "Failed to draw mesh: no font"
    );
    assert_eq!(
        stage_error(RenderStage::DrawPoints, "oops").as_str(),
        "Failed to draw points: oops"
    );
    assert_eq!(
        stage_error(RenderStage::Present, "encoder failure").as_str(),
        "Failed to write PNG: encoder failure"
    );
}
