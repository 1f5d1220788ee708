use ruststream_core::audio_orchestrator::{
    check_output_artifact, check_plan, parity_checksum, record_operations, AudioOrchestrationResult,
    AudioOrchestrator, MixOp, ResampleOp,
};
use ruststream_core::audio_graph::{AudioGraphConfig, AudioInput};
use ruststream_core::errors::{DriftMetrics, MediaError, MediaErrorCode, StageMetrics};
use ruststream_core::instrumentation::Profiler;
use ruststream_core::media_pipeline::{
    handle_stage_error, PipelineConfig, PipelineMode, PipelineRun, PipelineStage,
};

#[test]
fn test_pipeline_stage_as_str() {
    assert_eq!(PipelineStage::Validate.as_str(), "validate");
    assert_eq!(PipelineStage::Decode.as_str(), "decode");
    assert_eq!(PipelineStage::Encode.as_str(), "encode");
}

#[test]
fn pipeline_config_defaults_and_intermediate_files() {
    let config = PipelineConfig::default();
    assert_eq!(config.mode, PipelineMode::Normal);
    assert!(config.check_intermediate_files().is_ok());
    let forbidden = PipelineConfig { allow_intermediate_files: true, ..PipelineConfig::default() };
    let e = forbidden.check_intermediate_files().unwrap_err();
    assert_eq!(e.code, MediaErrorCode::PipelineStageFailed);
    assert_eq!(e.message, "Intermediate files are not allowed in normal mode");
    let emergency = PipelineConfig {
        mode: PipelineMode::Emergency,
        allow_intermediate_files: true,
        ..PipelineConfig::default()
    };
    assert!(emergency.check_intermediate_files().is_ok());
}

#[test]
fn pipeline_run_success_carries_audio_report() {
    let mut run = PipelineRun::start(Profiler::new());
    run.stage_passed(3);
    assert_eq!(run.metrics.decode_ms, 3);
    run.decode_passed(7, 1000, 25);
    run.stage_passed(11);
    run.stage_passed(13);
    assert_eq!(run.stage, PipelineStage::Audio);
    let drift = DriftMetrics { drift_corrections_count: 4, ..DriftMetrics::new() };
    run.audio_passed(17, Some((480, drift, Some("00ff".to_string()))));
    let (result, profiler) = run.encode_passed(19, 99, "/out.mp4");
    assert!(result.success);
    assert_eq!(result.output_path, Some("/out.mp4".to_string()));
    assert_eq!(
        result.metrics,
        StageMetrics { decode_ms: 7, effects_ms: 11, overlay_ms: 13, audio_ms: 17, encode_ms: 19, total_ms: 99 }
    );
    assert_eq!(result.drift, drift);
    assert_eq!(result.output_checksum, Some("00ff".to_string()));
    assert_eq!(profiler.get_stage_time("validate"), Some(3));
    assert_eq!(profiler.get_stage_time("encode"), Some(19));
    assert_eq!(profiler.counters().samples(), 480);
}

#[test]
fn pipeline_run_failures() {
    let run = PipelineRun::start(Profiler::new());
    let (result, profiler) = run.stage_failed(MediaError::new(MediaErrorCode::TimelineEmptyTracks, "x"), 2);
    assert!(!result.success);
    assert!(result.error.as_ref().unwrap().stage.is_none());
    assert_eq!(profiler.get_stage_time("validate"), Some(2));

    let mut run = PipelineRun::start(Profiler::new());
    run.stage_passed(1);
    run.decode_passed(1, 0, 0);
    let (result, _) = run.stage_failed(MediaError::new(MediaErrorCode::PipelineStageFailed, "bad"), 5);
    assert_eq!(result.error.unwrap().stage, Some("effects".to_string()));
    assert_eq!(result.metrics.effects_ms, 0);
    assert!(!result.fallback_used);
}

#[test]
fn emergency_stage_error_marks_fallback() {
    let e = MediaError::new(MediaErrorCode::DecodeFailed, "broken");
    let result = handle_stage_error(e, "decode", StageMetrics::new(), true, true);
    assert!(result.fallback_used);
    assert_eq!(result.fallback_reason, Some("Stage 'decode' failed: broken".to_string()));
    assert!(result.error.unwrap().fallback_triggered);
}

#[test]
fn test_orchestration_result_success() {
    let result = AudioOrchestrationResult::success("/tmp/out.m4a", 44100, 1.0f64.to_bits(), 44100);
    assert!(result.success);
    assert_eq!(result.samples_processed, 44100);
    assert_eq!(f64::from_bits(result.duration_secs_bits), 1.0);
}

#[test]
fn test_orchestration_result_to_graph_result() {
    let result = AudioOrchestrationResult::success("/tmp/out.m4a", 44100, 1.0f64.to_bits(), 44100);
    let graph_result = result.to_graph_result();
    assert!(graph_result.success);
    assert_eq!(graph_result.samples_processed, 44100);
    assert_eq!(graph_result.output_path, "/tmp/out.m4a");

    let failed = AudioOrchestrationResult::failure(MediaError::new(MediaErrorCode::AudioMixFailed, "m"));
    let graph_failed = failed.to_graph_result();
    assert!(!graph_failed.success);
    assert_eq!(graph_failed.error.unwrap().message, "m");
}

#[test]
fn test_resample_op_tracking() {
    let mut result = AudioOrchestrationResult::success("/tmp/out.m4a", 44100, 1.0f64.to_bits(), 44100);
    result = result.add_resample_op(ResampleOp { from_rate: 44100, to_rate: 48000, input_id: "vo".to_string() });
    assert_eq!(result.resample_ops.len(), 1);
    assert_eq!(result.resample_ops[0].from_rate, 44100);
    assert_eq!(result.resample_ops[0].to_rate, 48000);
}

#[test]
fn test_mix_op_tracking() {
    let mut result = AudioOrchestrationResult::success("/tmp/out.m4a", 44100, 1.0f64.to_bits(), 44100);
    result = result.add_mix_op(MixOp { input_count: 3, duration_samples: 441000 });
    assert_eq!(result.mix_ops.len(), 1);
    assert_eq!(result.mix_ops[0].input_count, 3);
}

#[test]
fn recorded_operations_follow_inputs() {
    let config = AudioGraphConfig::new("g")
        .add_input(AudioInput::new("vo", "/vo", "voiceover"))
        .add_input(AudioInput::new("music", "/m", "music"));
    let base = AudioOrchestrationResult::success("/o", 10, 0, 48000);
    let r = record_operations(base, &config, 48000, 960);
    assert_eq!(r.resample_ops.len(), 2);
    assert_eq!(r.resample_ops[1].input_id, "music");
    assert_eq!(r.resample_ops[0].from_rate, 48000);
    assert_eq!(r.mix_ops, vec![MixOp { input_count: 2, duration_samples: 960 }]);

    let single = AudioGraphConfig::new("g").add_input(AudioInput::new("vo", "/vo", "voiceover"));
    let r = record_operations(AudioOrchestrationResult::success("/o", 1, 0, 1), &single, 1, 1);
    assert!(r.mix_ops.is_empty());
}

#[test]
fn plan_checks_in_order() {
    assert_eq!(
        check_plan("/b.mp4", false, None, None, 0, 0).unwrap_err().message,
        "Base video not found: /b.mp4"
    );
    assert_eq!(
        check_plan("/b.mp4", true, Some(("/vo.mp3", false)), None, 0, 0).unwrap_err().message,
        "Voiceover not found: /vo.mp3"
    );
    assert!(check_plan("/b.mp4", true, Some(("", false)), None, 48000, 2).is_ok());
    assert_eq!(
        check_plan("/b.mp4", true, None, Some(("/m.mp3", false)), 48000, 2).unwrap_err().message,
        "Music not found: /m.mp3"
    );
    let e = check_plan("/b.mp4", true, None, None, 0, 2).unwrap_err();
    assert_eq!(e.code, MediaErrorCode::AudioGraphInvalidConfig);
    assert_eq!(e.message, "Sample rate cannot be zero");
    assert!(check_plan("/b.mp4", true, None, None, 44100, 3).is_err());
}

#[test]
fn artifact_checks() {
    assert_eq!(
        check_output_artifact("/o.m4a", false, Ok(5000)).unwrap_err().message,
        "Audio output not created: /o.m4a"
    );
    assert_eq!(
        check_output_artifact("/o.m4a", true, Ok(512)).unwrap_err().message,
        "Audio output too small (512 bytes)"
    );
    assert_eq!(
        check_output_artifact("/o.m4a", true, Err("denied".to_string())).unwrap_err().message,
        "Cannot read output metadata: denied"
    );
    assert!(check_output_artifact("/o.m4a", true, Ok(1024)).is_ok());
}

#[test]
fn parity_checksum_values() {
    assert_eq!(parity_checksum(&[]), "0000000000000000");
    assert_eq!(parity_checksum(&[1]), "0000000000000001");
    assert_eq!(parity_checksum(&[1, 2]), format!("{:016x}", 31u64 + 2));
    let data: Vec<u8> = (0..3000u32).map(|i| (i % 251) as u8).collect();
    let mut h: u64 = 0;
    for chunk in data.chunks(1024) {
        for &b in chunk {
            h = h.wrapping_mul(31).wrapping_add(b as u64);
        }
    }
    assert_eq!(parity_checksum(&data), format!("{:016x}", h));
}

#[test]
fn orchestrator_timer_records_into_profiler() {
    let mut orchestrator = AudioOrchestrator::with_profiler(Profiler::new());
    let timer = orchestrator.start_timer("audio_plan_build");
    let ms = timer.stop(&mut orchestrator);
    let profiler = orchestrator.into_profiler().unwrap();
    let report = profiler.generate_report();
    assert_eq!(report.operation_count, 1);
    assert_eq!(report.total_cpu_time_ms, ms);

    let mut bare = AudioOrchestrator::new();
    let t = bare.start_timer("x");
    t.stop(&mut bare);
    assert!(bare.into_profiler().is_none());
}

#[test]
fn test_pipeline_config_normal_mode() {
    let config = PipelineConfig { mode: PipelineMode::Normal, allow_intermediate_files: true, ..Default::default() };
    // Intermediate files are not allowed in normal mode.
    assert!(config.check_intermediate_files().is_err());
}

#[test]
fn orchestration_step_outcomes() {
    let failed = AudioOrchestrationResult::step_failed(
        MediaError::new(MediaErrorCode::IoFileNotFound, "Base video not found: b.mp4").with_path("b.mp4"),
    );
    assert!(!failed.success);
    let e = failed.error.unwrap();
    assert_eq!(e.stage, Some("audio".to_string()));
    assert_eq!(e.path, Some("b.mp4".to_string()));
    assert_eq!(e.code, MediaErrorCode::IoFileNotFound);

    let bake = AudioOrchestrationResult::bake_failed("FFmpeg failed");
    let e = bake.error.unwrap();
    assert_eq!(e.code, MediaErrorCode::AudioMixFailed);
    assert_eq!(e.message, "FFmpeg failed");
    assert_eq!(e.stage, Some("audio".to_string()));

    let drift = DriftMetrics { drift_frames_max_bits: 0.5f64.to_bits(), ..DriftMetrics::new() };
    let done = AudioOrchestrationResult::success("/tmp/out.m4a", 48000, 1.0f64.to_bits(), 48000)
        .completed(Some("00000000000000ff".to_string()), drift);
    assert!(done.success);
    assert_eq!(done.output_checksum, Some("00000000000000ff".to_string()));
    assert_eq!(done.drift, drift);
    let unread = AudioOrchestrationResult::success("/tmp/out.m4a", 1, 0, 48000).completed(None, DriftMetrics::new());
    assert_eq!(unread.output_checksum, None);
}

#[test]
fn stage_failure_keeps_fallback_flag() {
    let mut run = PipelineRun::start(Profiler::new());
    run.stage_passed(1);
    let error = MediaError::new(MediaErrorCode::DecodeFailed, "x").with_fallback();
    let (result, _profiler) = run.stage_failed(error, 2);
    assert!(result.fallback_used);
}
