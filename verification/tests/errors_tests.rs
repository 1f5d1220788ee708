use ruststream_core::errors::{DriftMetrics, MediaError, MediaErrorCode, PipelineResult, StageMetrics};

#[test]
fn test_error_code_as_str() {
    assert_eq!(MediaErrorCode::DecodeFailed.as_str(), "DECODE_FAILED");
    assert_eq!(MediaErrorCode::AudioDriftExceeded.as_str(), "AUDIO_DRIFT_EXCEEDED");
}

#[test]
fn test_media_error_builder() {
    let err = MediaError::new(MediaErrorCode::DecodeFailed, "Failed to decode video")
        .with_stage("decode")
        .with_path("/tmp/video.mp4")
        .with_fallback();

    assert_eq!(err.code, MediaErrorCode::DecodeFailed);
    assert_eq!(err.stage, Some("decode".to_string()));
    assert_eq!(err.path, Some("/tmp/video.mp4".to_string()));
    assert!(err.fallback_triggered);
}

#[test]
fn test_media_error_display() {
    let err = MediaError::new(MediaErrorCode::DecodeFailed, "test").with_stage("decode");
    let display = err.to_display_string();
    assert!(display.contains("DECODE_FAILED"));
    assert!(display.contains("decode"));
}

#[test]
fn media_error_display_exact_text() {
    let err = MediaError::new(MediaErrorCode::IoFileNotFound, "missing")
        .with_stage("probe")
        .with_path("/a.mp4")
        .with_fallback();
    assert_eq!(
        err.to_display_string(),
        "[IO_FILE_NOT_FOUND] missing (stage: probe) (path: /a.mp4) [FALLBACK_TRIGGERED]"
    );
    let plain = MediaError::new(MediaErrorCode::InitFailed, "boom");
    assert_eq!(plain.to_display_string(), "[INIT_FAILED] boom");
}

#[test]
fn error_code_names_of_every_family() {
    assert_eq!(MediaErrorCode::CacheKeyGenerationFailed.as_str(), "CACHE_KEY_GENERATION_FAILED");
    assert_eq!(MediaErrorCode::TimelineOverlappingSegments.as_str(), "TIMELINE_OVERLAPPING_SEGMENTS");
    assert_eq!(MediaErrorCode::EmergencyFallbackTriggered.as_str(), "EMERGENCY_FALLBACK_TRIGGERED");
    assert_eq!(MediaErrorCode::IoDiskFull.as_str(), "IO_DISK_FULL");
}

#[test]
fn test_stage_metrics_default() {
    let metrics = StageMetrics::new();
    assert_eq!(metrics.stage_sum(), 0);
}

#[test]
fn stage_metrics_sum_excludes_total() {
    let metrics = StageMetrics {
        decode_ms: 1,
        effects_ms: 2,
        overlay_ms: 3,
        encode_ms: 4,
        audio_ms: 5,
        total_ms: 1000,
    };
    assert_eq!(metrics.stage_sum(), 15);
}

#[test]
fn test_drift_metrics_acceptable() {
    let mut drift = DriftMetrics::new();
    assert!(drift.is_acceptable());

    drift.drift_frames_max_bits = 0.8f64.to_bits();
    assert!(drift.is_acceptable());

    drift.drift_frames_max_bits = 1.5f64.to_bits();
    assert!(!drift.is_acceptable());
}

#[test]
fn drift_acceptable_edges() {
    let mut drift = DriftMetrics::new();
    drift.drift_frames_max_bits = 1.0f64.to_bits();
    assert!(drift.is_acceptable());
    drift.drift_frames_max_bits = (-3.0f64).to_bits();
    assert!(drift.is_acceptable());
    drift.drift_frames_max_bits = f64::NAN.to_bits();
    assert!(!drift.is_acceptable());
    drift.drift_frames_max_bits = f64::INFINITY.to_bits();
    assert!(!drift.is_acceptable());
    drift.drift_frames_max_bits = f64::NEG_INFINITY.to_bits();
    assert!(drift.is_acceptable());
}

#[test]
fn test_pipeline_result_success() {
    let result = PipelineResult::success("/tmp/output.mp4");
    assert!(result.success);
    assert_eq!(result.output_path, Some("/tmp/output.mp4".to_string()));
    assert!(!result.fallback_used);
}

#[test]
fn test_pipeline_result_failure() {
    let err = MediaError::new(MediaErrorCode::DecodeFailed, "test").with_fallback();
    let result = PipelineResult::failure(err);
    assert!(!result.success);
    assert!(result.fallback_used);
}

#[test]
fn pipeline_result_builders_keep_other_fields() {
    let result = PipelineResult::success("/out.mp4")
        .with_fallback("reason")
        .with_checksum("abc");
    assert!(result.success);
    assert!(result.fallback_used);
    assert_eq!(result.fallback_reason, Some("reason".to_string()));
    assert_eq!(result.output_checksum, Some("abc".to_string()));
    assert_eq!(result.output_path, Some("/out.mp4".to_string()));
}

#[test]
fn test_drift_metrics() {
    let drift = DriftMetrics::new();
    assert!((f64::from_bits(drift.drift_frames_max_bits) - 0.0).abs() < f64::EPSILON);
}

#[test]
fn error_converts_to_display_text() {
    let e = MediaError::new(MediaErrorCode::DecodeFailed, "bad frame").with_stage("decode");
    let s: String = e.into();
    assert_eq!(s, "[DECODE_FAILED] bad frame (stage: decode)");
}
