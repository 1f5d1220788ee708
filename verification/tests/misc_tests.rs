use ruststream_core::errors::MediaErrorCode;
use ruststream_core::render_graph::config::check_graph_id;
use ruststream_core::timeline::{check_effects, check_output, check_timeline_structure};
use ruststream_core::audio_graph::drift_exceeded_error;
use ruststream_core::video::concat::{check_fused_concat_request, concat_route, ConcatRoute};
use ruststream_core::audio::{build_audio_delay_filter, build_concat_audio_filter, native_decoding_available};
use ruststream_core::batch_scheduler::{cost_order, run_scheduled, Job};
use ruststream_core::io::{splice_available, FfmpegCommand, FileStat};
use ruststream_core::server::{start_server, ServerConfig};
use ruststream_core::thread_pool::{build_pool, pool_plan, worker_name, worker_threads_for};
use ruststream_core::timeline::{SimdLevel, ThreadConfig, Timebase};
use ruststream_core::video::{check_base_video_path, default_allow_stream_copy, default_codec, default_crf, escape_filter_path, ConcatConfig};
use ruststream_core::info::library_info;
use ruststream_core::{LibraryFeatures, VERSION};
use std::time::Duration;

#[test]
fn test_native_decoding_flag() {
    let _ = native_decoding_available();
}

#[test]
fn test_timebase_validate() {
    let valid = Timebase::new(1, 1000);
    assert!(valid.validate().is_ok());

    let invalid = Timebase::new(1, 0);
    assert!(invalid.validate().is_err());
}

#[test]
fn timebase_presets() {
    assert_eq!(Timebase::milliseconds(), Timebase::new(1, 1000));
    assert_eq!(Timebase::audio_44100().den, 44100);
    assert_eq!(Timebase::audio_48000().den, 48000);
    assert!(Timebase::new(0, 5).validate().is_err());
    let _ = SimdLevel::default();
    let threads = ThreadConfig::default();
    assert_eq!(threads.decode_threads, 4);
}

#[test]
fn test_splice_available() {
    assert!(splice_available());
}

#[test]
fn test_ffmpeg_command_builder() {
    let cmd = FfmpegCommand::new().arg("-y").args(&["-version"]).timeout(Duration::from_secs(5));
    assert_eq!(cmd.args[0], "-y");
    assert_eq!(cmd.args[1], "-version");
    assert_eq!(cmd.timeout, Duration::from_secs(5));
}

#[test]
fn ffmpeg_command_inputs_and_output() {
    let cmd = FfmpegCommand::new()
        .args(&["-y", "-i", "a.mp4", "-i", "b.mp4", "-c", "copy", "out.mp4"])
        .output_file("out.mp4");
    assert_eq!(cmd.input_files(), vec!["a.mp4".to_string(), "b.mp4".to_string()]);
    assert_eq!(cmd.output_path, Some("out.mp4".to_string()));
    assert_eq!(FfmpegCommand::new().timeout, Duration::from_secs(600));

    let args: Vec<String> = vec!["-i".into(), "x.wav".into(), "y.m4a".into()];
    let c = FfmpegCommand::for_args(&args);
    assert_eq!(c.output_path, Some("y.m4a".to_string()));
    assert_eq!(c.args.len(), 3);
    let flags: Vec<String> = vec!["-version".into()];
    assert!(FfmpegCommand::for_args(&flags).output_path.is_none());
}

#[test]
fn file_stat_fields() {
    let s = FileStat { size_bytes: 1, mtime_secs: -2, mtime_nsecs: 3 };
    assert_eq!(s, FileStat { size_bytes: 1, mtime_secs: -2, mtime_nsecs: 3 });
}

#[test]
fn test_version() {
    assert!(!VERSION.is_empty());
}

#[test]
fn test_version_not_empty() {
    assert!(!VERSION.is_empty(), "Version string should not be empty");
    assert!(VERSION.contains('.'), "Version should contain dot separator");
}

#[test]
fn test_server_config_defaults() {
    let config = ServerConfig::default();
    assert_eq!(config.host, "127.0.0.1");
    assert_eq!(config.port, 3000);
}

#[test]
fn server_is_not_implemented() {
    assert_eq!(start_server(ServerConfig::default()), Err("HTTP server not implemented".to_string()));
}

#[test]
fn test_escape_filter_path() {
    assert_eq!(escape_filter_path("/tmp/test.mp4"), "/tmp/test.mp4");
    assert_eq!(escape_filter_path("/tmp/test:file.mp4"), "/tmp/test\\:file.mp4");
    assert_eq!(escape_filter_path("C:\\Users\\test.mp4"), "C\\:\\\\Users\\\\test.mp4");
}

#[test]
fn escape_quotes() {
    assert_eq!(escape_filter_path("it's"), "it\\'s");
    assert_eq!(escape_filter_path(""), "");
}

#[test]
fn concat_config_defaults() {
    let c = ConcatConfig::default();
    assert_eq!(c.codec, "libx264");
    assert_eq!(c.crf, 23);
    assert!(c.allow_stream_copy);
    assert!(c.inputs.is_empty());
    assert_eq!(default_codec(), "libx264");
    assert_eq!(default_crf(), 23);
    assert!(default_allow_stream_copy());
}

#[test]
fn audio_filters() {
    assert_eq!(build_audio_delay_filter(250), "adelay=250|250");
    assert_eq!(build_audio_delay_filter(-5), "adelay=-5|-5");
    let inputs: Vec<String> = vec!["a".into(), "b".into(), "c".into()];
    assert_eq!(build_concat_audio_filter(&inputs, true), "[0:a][a1][a2]concat=n=3:v=0:a=1[aout]");
    assert_eq!(build_concat_audio_filter(&[], false), "concat=n=0:v=0:a=1[aout]");
}

#[test]
fn test_run_scheduled_preserves_order() {
    let jobs: Vec<Job<usize>> = (0..10usize).rev().map(|i| Job::new(i as u64, i)).collect();
    let results = run_scheduled(jobs, |x| x * 2);
    let expected: Vec<usize> = (0..10usize).rev().map(|i| i * 2).collect();
    assert_eq!(results, expected);
}

#[test]
fn run_scheduled_empty_and_ties() {
    let none: Vec<Job<u8>> = Vec::new();
    assert!(run_scheduled(none, |x| x).is_empty());
    let jobs = vec![Job::new(5, "a"), Job::new(5, "b"), Job::new(1, "c")];
    assert_eq!(run_scheduled(jobs, |s| s.to_uppercase()), vec!["A", "B", "C"]);
}

#[test]
fn cost_order_sorts_indices() {
    let costs = vec![30u64, 10, 20, 10];
    let order = cost_order(&costs);
    let mut seen = order.clone();
    seen.sort();
    assert_eq!(seen, vec![0, 1, 2, 3]);
    let sorted: Vec<u64> = order.iter().map(|&i| costs[i]).collect();
    assert_eq!(sorted, vec![10, 10, 20, 30]);
}

#[test]
fn pool_sizing() {
    assert_eq!(worker_threads_for(0), 1);
    assert_eq!(worker_threads_for(1), 1);
    assert_eq!(worker_threads_for(2), 1);
    assert_eq!(worker_threads_for(3), 2);
    assert_eq!(worker_threads_for(16), 15);
    let built = pool_plan(8, 4, true);
    assert_eq!(built.config.num_threads, 3);
    assert_eq!(built.warmup_tasks, 3);
    assert_eq!(built.config.logical_cpus, 8);
    let failed = pool_plan(8, 4, false);
    assert_eq!(failed.warmup_tasks, 0);
    assert!(!failed.initialised);
}

#[test]
fn library_info_reports_version() {
    let features = LibraryFeatures { avx512: false, avx2: true, sse41: true, fma: false, http_server: false };
    let info = library_info(features);
    assert_eq!(info.version, VERSION);
    assert!(info.cpu_cores > 0);
    assert!(info.physical_cores > 0);
    assert_eq!(info.features, features);
}

#[test]
fn test_library_info() {
    let features = LibraryFeatures { avx512: false, avx2: false, sse41: false, fma: false, http_server: false };
    let info = library_info(features);

    assert_eq!(info.version, VERSION);
    assert!(info.cpu_cores > 0);
    assert!(info.physical_cores > 0);
}

#[test]
fn worker_names() {
    assert_eq!(worker_name(0), "ruststream-worker-0");
    assert_eq!(worker_name(12), "ruststream-worker-12");
}

#[test]
fn test_pool_info_non_zero() {
    let info = build_pool(|_index: usize, _physical: usize| {});
    assert!(info.config.num_threads >= 1);
    assert!(info.config.logical_cpus >= 1);
    assert!(info.config.physical_cpus >= 1);
}

#[test]
fn test_worker_count() {
    let info = build_pool(|_index: usize, _physical: usize| {});
    assert!(info.config.num_threads >= 1);
}

#[test]
fn test_video_track_validate() {
    assert!(ruststream_core::timeline::check_video_track("main", 0).is_err());
    assert!(ruststream_core::timeline::check_video_track("main", 1).is_ok());
    assert_eq!(
        ruststream_core::timeline::check_video_track("main", 0).unwrap_err().message,
        "Video track 'main' has no segments"
    );
}

#[test]
fn test_media_timeline_plan_validate() {
    let none: Vec<(String, usize)> = Vec::new();
    let e = check_timeline_structure(&none, &Timebase::default(), "").unwrap_err();
    assert_eq!(e.message, "MediaTimelinePlan must have at least one video track");
    let tracks = vec![("main".to_string(), 1usize)];
    assert!(check_timeline_structure(&tracks, &Timebase::default(), "/tmp/output.mp4").is_ok());
}

#[test]
fn timeline_structure_checks_in_order() {
    let tracks = vec![("a".to_string(), 2usize), ("b".to_string(), 0usize), ("c".to_string(), 0usize)];
    let bad_tb = check_timeline_structure(&tracks, &Timebase::new(1, 0), "").unwrap_err();
    assert_eq!(bad_tb.code, MediaErrorCode::TimelineInvalidTimebase);
    assert_eq!(bad_tb.message, "Timebase denominator cannot be zero");
    let no_output = check_timeline_structure(&tracks, &Timebase::new(1, 30), "").unwrap_err();
    assert_eq!(no_output.message, "Output path must be set");
    let empty_track = check_timeline_structure(&tracks, &Timebase::new(1, 30), "o.mp4").unwrap_err();
    assert_eq!(empty_track.code, MediaErrorCode::TimelineEmptyTracks);
    assert_eq!(empty_track.message, "Video track 'b' has no segments");
}

#[test]
fn test_render_graph_empty_id() {
    assert_eq!(check_graph_id("").unwrap_err().message, "RenderGraph ID cannot be empty");
    assert!(check_graph_id("test-graph").is_ok());
}

#[test]
fn concat_routes() {
    assert_eq!(concat_route(1, true, true), ConcatRoute::CopySingle);
    assert_eq!(concat_route(1, false, false), ConcatRoute::CopySingle);
    assert_eq!(concat_route(3, true, true), ConcatRoute::StreamCopy);
    assert_eq!(concat_route(3, true, false), ConcatRoute::Transcode);
    assert_eq!(concat_route(3, false, true), ConcatRoute::Transcode);
}

#[test]
fn effects_check_first_failure_decides() {
    let fine = vec![("blur".to_string(), None), ("fade".to_string(), None)];
    assert!(check_effects(&fine, MediaErrorCode::EffectsFailed).is_ok());
    assert!(check_effects(&Vec::new(), MediaErrorCode::EffectsFailed).is_ok());

    let untyped = vec![("blur".to_string(), None), (String::new(), Some("2 -> 1".to_string()))];
    let e = check_effects(&untyped, MediaErrorCode::EffectsFailed).unwrap_err();
    assert_eq!(e.code, MediaErrorCode::EffectsFailed);
    assert_eq!(e.message, "Effect type cannot be empty");
    assert_eq!(e.stage.as_deref(), Some("effects"));
    assert_eq!(e.path, None);

    let inverted = vec![("fade".to_string(), Some(format!("{} -> {}", 5.0f64, 2.5f64)))];
    let e = check_effects(&inverted, MediaErrorCode::PipelineStageFailed).unwrap_err();
    assert_eq!(e.code, MediaErrorCode::PipelineStageFailed);
    assert_eq!(e.message, "Effect 'fade' has invalid time range: 5 -> 2.5");
    assert_eq!(e.stage.as_deref(), Some("effects"));
}

#[test]
fn output_check_messages() {
    assert!(check_output(1920, 1080, true, "30", 22).is_ok());
    assert!(check_output(1920, 1080, true, "30", 51).is_ok());

    let e = check_output(0, 1080, false, "0", 99).unwrap_err();
    assert_eq!(e.code, MediaErrorCode::EncodeFailed);
    assert_eq!(e.message, "Invalid output dimensions: 0x1080");
    assert_eq!(e.stage.as_deref(), Some("encode"));

    let e = check_output(1280, 720, false, &format!("{}", -1.5f64), 22).unwrap_err();
    assert_eq!(e.message, "Invalid output FPS: -1.5");

    let e = check_output(1280, 720, true, "25", 52).unwrap_err();
    assert_eq!(e.message, "Invalid CRF value: 52 (max 51)");
    assert_eq!(e.stage.as_deref(), Some("encode"));
    assert!(!e.fallback_triggered);
}

#[test]
fn drift_error_names_threshold() {
    let e = drift_exceeded_error(&format!("{}", 1.25f64));
    assert_eq!(e.code, MediaErrorCode::AudioDriftExceeded);
    assert_eq!(e.message, "Max drift threshold too high: 1.25 frames (max 1.0)");
    assert_eq!(e.stage, None);
}

#[test]
fn fused_concat_request_checks() {
    let e = check_fused_concat_request(0, "/out.mp4").unwrap_err();
    assert_eq!(e.code, MediaErrorCode::TimelineEmptyTracks);
    assert_eq!(e.message, "fused_concat: no input files");
    let e = check_fused_concat_request(2, "").unwrap_err();
    assert_eq!(e.code, MediaErrorCode::TimelineInvalidPlan);
    assert_eq!(e.message, "fused_concat: no output path");
    assert!(check_fused_concat_request(1, "/out.mp4").is_ok());
}

#[test]
fn base_video_path_required() {
    assert_eq!(check_base_video_path(""), Err("base_video_path is required".to_string()));
    assert_eq!(check_base_video_path("/base.mp4"), Ok(()));
}
