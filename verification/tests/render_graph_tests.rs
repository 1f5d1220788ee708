use ruststream_core::errors::{DriftMetrics, MediaError, MediaErrorCode};
use ruststream_core::render_graph::process::{RenderRun, RenderStage};
use ruststream_core::render_graph::{
    ComponentId, ComponentMetrics, ReasonCode, RenderConfig, RenderMetrics, RenderMode, RenderResult,
};

#[test]
fn test_component_id_as_str() {
    assert_eq!(ComponentId::Decode.as_str(), "decode");
    assert_eq!(ComponentId::Effects.as_str(), "effects");
    assert_eq!(ComponentId::Overlay.as_str(), "overlay");
    assert_eq!(ComponentId::Audio.as_str(), "audio");
    assert_eq!(ComponentId::Encode.as_str(), "encode");
    assert_eq!(ComponentId::Concat.as_str(), "concat");
    assert_eq!(ComponentId::Probe.as_str(), "probe");
}

#[test]
fn test_component_metrics_new() {
    let cm = ComponentMetrics::new();
    assert_eq!(cm.attempts, 0);
    assert_eq!(cm.successes, 0);
    assert_eq!(cm.fallbacks, 0);
    assert_eq!(cm.total_ms, 0);
    assert!(cm.last_error.is_none());
}

#[test]
fn test_component_metrics_record_attempt() {
    let mut cm = ComponentMetrics::new();
    cm.record_attempt();
    assert_eq!(cm.attempts, 1);
}

#[test]
fn test_component_metrics_record_success() {
    let mut cm = ComponentMetrics::new();
    cm.record_success(100);
    assert_eq!(cm.successes, 1);
    assert_eq!(cm.total_ms, 100);
}

#[test]
fn test_component_metrics_record_fallback() {
    let mut cm = ComponentMetrics::new();
    cm.record_fallback(50, "ERROR_CODE");
    assert_eq!(cm.fallbacks, 1);
    assert_eq!(cm.total_ms, 50);
    assert_eq!(cm.last_error, Some("ERROR_CODE".to_string()));
}

#[test]
fn test_component_metrics_has_fallbacks() {
    let mut cm = ComponentMetrics::new();
    assert!(!cm.has_fallbacks());
    cm.record_fallback(50, "ERROR");
    assert!(cm.has_fallbacks());
}

#[test]
fn test_render_mode_default() {
    let mode = RenderMode::default();
    assert_eq!(mode, RenderMode::Normal);
}

#[test]
fn test_render_mode_clone() {
    let mode = RenderMode::Emergency;
    let cloned = mode.clone();
    assert_eq!(mode, cloned);
}

#[test]
fn test_render_config_default() {
    let config = RenderConfig::default();
    assert_eq!(config.mode, RenderMode::Normal);
    assert_eq!(config.timeout_secs, 0);
    assert!(config.emit_drift_metrics);
    assert!(config.emit_component_metrics);
}

#[test]
fn test_render_config_clone() {
    let config = RenderConfig {
        mode: RenderMode::Emergency,
        timeout_secs: 300,
        emit_drift_metrics: false,
        emit_component_metrics: true,
    };
    let cloned = config.clone();
    assert_eq!(config.mode, cloned.mode);
    assert_eq!(config.timeout_secs, cloned.timeout_secs);
    assert_eq!(config.emit_drift_metrics, cloned.emit_drift_metrics);
    assert_eq!(config.emit_component_metrics, cloned.emit_component_metrics);
}

#[test]
fn test_render_config_debug() {
    let config = RenderConfig::default();
    let debug_str = format!("{:?}", config);
    assert!(debug_str.contains("RenderConfig"));
    assert!(debug_str.contains("Normal"));
}

#[test]
fn test_reason_code_as_str() {
    assert_eq!(ReasonCode::Success.as_str(), "SUCCESS");
    assert_eq!(ReasonCode::SuccessWithFallback.as_str(), "SUCCESS_WITH_FALLBACK");
    assert_eq!(ReasonCode::DecodeFailed.as_str(), "DECODE_FAILED");
    assert_eq!(ReasonCode::EffectsFailed.as_str(), "EFFECTS_FAILED");
    assert_eq!(ReasonCode::OverlayFailed.as_str(), "OVERLAY_FAILED");
    assert_eq!(ReasonCode::AudioFailed.as_str(), "AUDIO_FAILED");
    assert_eq!(ReasonCode::EncodeFailed.as_str(), "ENCODE_FAILED");
    assert_eq!(ReasonCode::ConcatFailed.as_str(), "CONCAT_FAILED");
    assert_eq!(ReasonCode::ProbeFailed.as_str(), "PROBE_FAILED");
    assert_eq!(ReasonCode::ValidationFailed.as_str(), "VALIDATION_FAILED");
    assert_eq!(ReasonCode::Timeout.as_str(), "TIMEOUT");
    assert_eq!(ReasonCode::ResourceExhausted.as_str(), "RESOURCE_EXHAUSTED");
    assert_eq!(ReasonCode::EmergencyFallback.as_str(), "EMERGENCY_FALLBACK");
}

#[test]
fn test_reason_code_clone() {
    let code = ReasonCode::Success;
    let cloned = code.clone();
    assert_eq!(code, cloned);
}

#[test]
fn test_reason_code_debug() {
    let code = ReasonCode::Success;
    let debug_str = format!("{:?}", code);
    assert_eq!(debug_str, "Success");
}

#[test]
fn test_render_metrics_new() {
    let metrics = RenderMetrics::new();
    assert_eq!(metrics.total_ms, 0);
    assert_eq!(metrics.decode_ms, 0);
    assert_eq!(metrics.effects_ms, 0);
    assert_eq!(metrics.overlay_ms, 0);
    assert_eq!(metrics.audio_ms, 0);
    assert_eq!(metrics.encode_ms, 0);
    assert_eq!(metrics.concat_ms, 0);
    assert_eq!(metrics.probe_ms, 0);
    assert_eq!(metrics.source_count, 0);
    assert_eq!(metrics.output_size_bytes, 0);
    assert_eq!(f64::from_bits(metrics.output_duration_secs_bits), 0.0);
}

#[test]
fn test_render_metrics_record_attempt() {
    let mut metrics = RenderMetrics::new();
    metrics.record_attempt(ComponentId::Decode);
    let decode = metrics.get_component(ComponentId::Decode).unwrap();
    assert_eq!(decode.attempts, 1);
}

#[test]
fn test_render_metrics_record_success() {
    let mut metrics = RenderMetrics::new();
    let decode = metrics.get_component_mut(ComponentId::Decode);
    decode.record_attempt();
    decode.record_success(100);

    let decode = metrics.get_component(ComponentId::Decode).unwrap();
    assert_eq!(decode.attempts, 1);
    assert_eq!(decode.successes, 1);
    assert_eq!(decode.total_ms, 100);
}

#[test]
fn test_render_metrics_record_fallback() {
    let mut metrics = RenderMetrics::new();
    metrics.record_attempt(ComponentId::Overlay);
    metrics.record_fallback(ComponentId::Overlay, 50, "OVERLAY_FAILED");

    assert!(metrics.has_any_fallback());
    assert_eq!(metrics.fallback_components(), vec!["overlay"]);
}

#[test]
fn test_render_metrics_stage_sum() {
    let mut metrics = RenderMetrics::new();
    metrics.decode_ms = 100;
    metrics.effects_ms = 50;
    metrics.overlay_ms = 30;
    metrics.audio_ms = 20;
    metrics.encode_ms = 80;
    metrics.concat_ms = 10;
    metrics.probe_ms = 5;

    assert_eq!(metrics.stage_sum(), 295);
}

#[test]
fn render_metrics_components_are_independent() {
    let mut metrics = RenderMetrics::new();
    metrics.record_attempt(ComponentId::Decode);
    metrics.record_attempt(ComponentId::Audio);
    metrics.record_success(ComponentId::Audio, 9);
    assert_eq!(metrics.get_component(ComponentId::Decode).unwrap().successes, 0);
    assert_eq!(metrics.get_component(ComponentId::Audio).unwrap().total_ms, 9);
    assert!(metrics.get_component(ComponentId::Encode).is_none());
    assert!(!metrics.has_any_fallback());
    assert!(metrics.fallback_components().is_empty());
}

#[test]
fn fallback_components_in_first_recorded_order() {
    let mut metrics = RenderMetrics::new();
    metrics.record_fallback(ComponentId::Probe, 1, "A");
    metrics.record_attempt(ComponentId::Decode);
    metrics.record_fallback(ComponentId::Audio, 1, "B");
    metrics.record_fallback(ComponentId::Probe, 1, "C");
    assert_eq!(metrics.fallback_components(), vec!["probe", "audio"]);
    assert_eq!(metrics.get_component(ComponentId::Probe).unwrap().fallbacks, 2);
}

#[test]
fn test_render_result_success() {
    let result = RenderResult::success("/tmp/output.mp4");
    assert!(result.success);
    assert_eq!(result.artifact_path, Some("/tmp/output.mp4".to_string()));
    assert!(!result.fallback_used);
    assert!(result.error_message.is_none());
    assert!(result.error_code.is_none());
    assert!(result.error_stage.is_none());
}

#[test]
fn test_render_result_failure() {
    let error = MediaError::new(MediaErrorCode::DecodeFailed, "Decode failed");
    let result = RenderResult::failure(error);
    assert!(!result.success);
    assert!(result.artifact_path.is_none());
    assert_eq!(result.error_message, Some("Decode failed".to_string()));
    assert_eq!(result.error_code, Some("DECODE_FAILED".to_string()));
}

#[test]
fn test_render_result_with_metrics() {
    let mut metrics = RenderMetrics::new();
    metrics.total_ms = 1000;
    let result = RenderResult::success("/tmp/output.mp4").with_metrics(metrics);
    assert_eq!(result.metrics.total_ms, 1000);
}

#[test]
fn test_render_result_with_drift() {
    let drift = DriftMetrics::new();
    let result = RenderResult::success("/tmp/output.mp4").with_drift(drift);
    assert_eq!(f64::from_bits(result.drift.drift_frames_max_bits), 0.0);
}

#[test]
fn test_render_result_with_reason_code() {
    let result = RenderResult::success("/tmp/output.mp4").with_reason_code(ReasonCode::SuccessWithFallback);
    assert!(result.reason_codes.contains(&"SUCCESS_WITH_FALLBACK".to_string()));
}

#[test]
fn test_render_result_with_fallback() {
    let result = RenderResult::success("/tmp/output.mp4").with_fallback(vec!["overlay".to_string()]);
    assert!(result.fallback_used);
    assert_eq!(result.fallback_components, vec!["overlay"]);
    assert!(result.reason_codes.contains(&"EMERGENCY_FALLBACK".to_string()));
}

#[test]
fn with_fallback_twice_adds_the_code_once() {
    let result = RenderResult::success("/tmp/output.mp4")
        .with_fallback(vec!["overlay".to_string()])
        .with_fallback(vec!["audio".to_string()]);
    assert_eq!(result.reason_codes, vec!["SUCCESS".to_string(), "EMERGENCY_FALLBACK".to_string()]);
    assert_eq!(result.fallback_components, vec!["audio"]);
}

#[test]
fn test_render_result_is_clean_success() {
    let result = RenderResult::success("/tmp/output.mp4");
    assert!(result.is_clean_success());
}

#[test]
fn test_render_result_is_not_clean_success_with_fallback() {
    let result = RenderResult::success("/tmp/output.mp4").with_fallback(vec!["overlay".to_string()]);
    assert!(!result.is_clean_success());
    assert!(result.success);
}

#[test]
fn test_render_result_clone() {
    let result = RenderResult::success("/tmp/output.mp4");
    let cloned = result.clone();
    assert_eq!(result.success, cloned.success);
    assert_eq!(result.artifact_path, cloned.artifact_path);
}

#[test]
fn test_render_result_debug() {
    let result = RenderResult::success("/tmp/output.mp4");
    let debug_str = format!("{:?}", result);
    assert!(debug_str.contains("RenderResult"));
    assert!(debug_str.contains("true"));
}

fn err(code: MediaErrorCode) -> MediaError {
    MediaError::new(code, "Test error")
}

#[test]
fn render_run_full_success_with_audio() {
    let mut run = RenderRun::start(true);
    assert_eq!(run.stage, RenderStage::Validate);
    run.validation_passed();
    run.stage_passed(5);
    run.stage_passed(10);
    run.stage_passed(15);
    run.stage_passed(20);
    assert_eq!(run.stage, RenderStage::Audio);
    let drift = DriftMetrics { drift_frames_max_bits: 0.5f64.to_bits(), ..DriftMetrics::new() };
    run.audio_passed(25, drift);
    assert_eq!(run.stage, RenderStage::Encode);
    let result = run.encode_passed("/out.mp4", 30, 200);
    assert!(result.success);
    assert!(result.is_clean_success());
    assert_eq!(result.reason_codes, vec!["SUCCESS".to_string()]);
    assert_eq!(result.artifact_path, Some("/out.mp4".to_string()));
    assert_eq!(result.metrics.probe_ms, 5);
    assert_eq!(result.metrics.decode_ms, 10);
    assert_eq!(result.metrics.effects_ms, 15);
    assert_eq!(result.metrics.overlay_ms, 20);
    assert_eq!(result.metrics.audio_ms, 25);
    assert_eq!(result.metrics.encode_ms, 30);
    assert_eq!(result.metrics.total_ms, 200);
    assert_eq!(result.drift, drift);
    let decode = result.metrics.get_component(ComponentId::Decode).unwrap();
    assert_eq!((decode.attempts, decode.successes, decode.total_ms), (2, 1, 10));
    let encode = result.metrics.get_component(ComponentId::Encode).unwrap();
    assert_eq!((encode.attempts, encode.successes, encode.total_ms), (1, 1, 30));
}

#[test]
fn render_run_without_audio_skips_audio_stage() {
    let mut run = RenderRun::start(false);
    run.validation_passed();
    run.stage_passed(1);
    run.stage_passed(1);
    run.stage_passed(1);
    run.stage_passed(1);
    assert_eq!(run.stage, RenderStage::Encode);
    let result = run.encode_passed("/out.mp4", 1, 5);
    assert!(result.metrics.get_component(ComponentId::Audio).is_none());
    assert_eq!(result.drift, DriftMetrics::new());
}

#[test]
fn render_run_validation_failure() {
    let run = RenderRun::start(false);
    let result = run.stage_failed(err(MediaErrorCode::TimelineInvalidPlan), 3);
    assert!(!result.success);
    assert_eq!(
        result.reason_codes,
        vec!["TIMELINE_INVALID_PLAN".to_string(), "VALIDATION_FAILED".to_string()]
    );
    assert!(result.error_stage.is_none());
    let decode = result.metrics.get_component(ComponentId::Decode).unwrap();
    assert_eq!((decode.attempts, decode.fallbacks, decode.total_ms), (1, 1, 3));
    assert_eq!(decode.last_error, Some("TIMELINE_INVALID_PLAN".to_string()));
    assert_eq!(decode.successes, 0);
    assert_eq!(result.metrics.components.len(), 1);
    assert!(result.metrics.get_component(ComponentId::Concat).is_none());
    assert!(result.metrics.get_component(ComponentId::Probe).is_none());
    assert!(!result.fallback_used);
    assert!(result.artifact_path.is_none());
    assert_eq!(result.error_code, Some("TIMELINE_INVALID_PLAN".to_string()));
}

#[test]
fn render_run_probe_failure() {
    let mut run = RenderRun::start(false);
    run.validation_passed();
    let result = run.stage_failed(err(MediaErrorCode::IoFileNotFound).with_stage("probe"), 8);
    assert_eq!(result.reason_codes, vec!["IO_FILE_NOT_FOUND".to_string(), "PROBE_FAILED".to_string()]);
    assert_eq!(result.error_stage, Some("probe".to_string()));
    assert_eq!(result.metrics.probe_ms, 8);
}

#[test]
fn test_handle_stage_error() {
    let mut run = RenderRun::start(false);
    run.validation_passed();
    run.stage_passed(1);
    let result = run.stage_failed(err(MediaErrorCode::DecodeFailed), 4);
    assert!(!result.success);
    assert_eq!(result.error_stage, Some("decode".to_string()));
    assert_eq!(result.reason_codes, vec!["DECODE_FAILED".to_string()]);
    assert_eq!(result.metrics.decode_ms, 4);
    assert!(result.metrics.has_any_fallback());
}

#[test]
fn test_render_metrics_get_component_mut() {
    let mut metrics = RenderMetrics::new();
    metrics.record_attempt(ComponentId::Decode);
    metrics.record_success(ComponentId::Decode, 100);

    let decode = metrics.get_component(ComponentId::Decode).unwrap();
    assert_eq!(decode.attempts, 1);
    assert_eq!(decode.successes, 1);
    assert_eq!(decode.total_ms, 100);
}

#[test]
fn get_component_mut_keeps_existing_entry() {
    let mut metrics = RenderMetrics::new();
    metrics.record_attempt(ComponentId::Probe);
    metrics.get_component_mut(ComponentId::Probe).record_success(7);
    metrics.get_component_mut(ComponentId::Audio);
    assert_eq!(metrics.components.len(), 2);
    let probe = metrics.get_component(ComponentId::Probe).unwrap();
    assert_eq!((probe.attempts, probe.successes, probe.total_ms), (1, 1, 7));
    let audio = metrics.get_component(ComponentId::Audio).unwrap();
    assert_eq!((audio.attempts, audio.successes, audio.fallbacks, audio.total_ms), (0, 0, 0, 0));
}
