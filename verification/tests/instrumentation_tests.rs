use ruststream_core::instrumentation::{FastCounters, Profiler, StageMetrics, StageTimer};
use std::sync::Mutex;

#[test]
fn test_stage_timer_batched() {
    let profiler = Mutex::new(Profiler::new());
    let mut batch = Vec::new();
    let t1 = StageTimer::start("decode");
    let t2 = StageTimer::start("encode");
    t1.stop_batched(&mut batch);
    t2.stop_batched(&mut batch);
    profiler.lock().unwrap().flush_batch(batch);
    assert!(profiler.lock().unwrap().get_stage_time("decode").is_some());
    assert!(profiler.lock().unwrap().get_stage_time("encode").is_some());
}

#[test]
fn test_fast_counters_no_lock() {
    let counters = FastCounters::new();
    counters.add_samples(1024);
    counters.add_frames(1);
    assert!(counters.samples() > 0);
}

#[test]
fn test_profiler_basic() {
    let mut profiler = Profiler::new();
    profiler.record_stage_time("decode", 100);
    profiler.record_stage_time("encode", 200);
    profiler.record_cpu_time("mix_audio", 50);

    assert_eq!(profiler.get_stage_time("decode"), Some(100));
    assert_eq!(profiler.get_stage_time("encode"), Some(200));
    assert_eq!(profiler.get_stage_time("invalid"), None);

    let report = profiler.generate_report();
    assert_eq!(report.operation_count, 1);
}

#[test]
fn profiler_later_record_replaces_earlier() {
    let mut profiler = Profiler::new();
    profiler.record_stage_time("decode", 100);
    profiler.record_stage_time("decode", 7);
    assert_eq!(profiler.get_stage_time("decode"), Some(7));
    let report = profiler.generate_report();
    assert_eq!(report.stage_times.len(), 1);
}

#[test]
fn flush_batch_matches_recording_in_order() {
    let mut batched = Profiler::new();
    batched.flush_batch(vec![
        ("a".to_string(), 1),
        ("b".to_string(), 2),
        ("a".to_string(), 3),
    ]);
    let mut direct = Profiler::new();
    direct.record_stage_time("a", 1);
    direct.record_stage_time("b", 2);
    direct.record_stage_time("a", 3);
    assert_eq!(batched.get_stage_time("a"), direct.get_stage_time("a"));
    assert_eq!(batched.get_stage_time("b"), direct.get_stage_time("b"));
    assert_eq!(batched.get_stage_time("a"), Some(3));
}

#[test]
fn report_totals_cpu_time() {
    let mut profiler = Profiler::new();
    profiler.record_cpu_time("x", 10);
    profiler.record_cpu_time("y", 32);
    let report = profiler.generate_report();
    assert_eq!(report.total_cpu_time_ms, 42);
    assert_eq!(report.operation_count, 2);
}

#[test]
fn test_stage_metrics() {
    let metrics = StageMetrics {
        decode_ms: 100,
        effects_ms: 50,
        overlay_ms: 30,
        audio_ms: 200,
        encode_ms: 150,
        total_ms: 530,
    };
    assert!(metrics.has_any());
    assert_eq!(metrics.total_ms, 530);
}

#[test]
fn stage_timer_stop_records_into_profiler() {
    let mut profiler = Profiler::new();
    let timer = StageTimer::start("probe");
    let ms = timer.stop(&mut profiler);
    assert_eq!(profiler.get_stage_time("probe"), Some(ms));
}

#[test]
fn profiler_forwards_to_its_counters() {
    let shared = std::sync::Arc::new(FastCounters::new());
    let mut profiler = Profiler::with_counters(shared.clone());
    profiler.record_stage_time("decode", 5);
    profiler.record_samples_processed(480);
    assert!(std::sync::Arc::ptr_eq(profiler.counters(), &shared));
    assert_eq!(shared.samples(), 480);
}

fn rate_text(report: &ruststream_core::instrumentation::ProfilingReport) -> (String, String, String) {
    let secs = report.total_elapsed_ms as f64 / 1000.0;
    let (cpu, bps, fps) = if report.total_elapsed_ms == 0 {
        (0.0, 0.0, 0.0)
    } else {
        (
            report.total_cpu_time_ms as f64 / report.total_elapsed_ms as f64 * 100.0,
            report.bytes_processed as f64 / secs,
            report.frames_processed as f64 / secs,
        )
    };
    (format!("{:.1}", cpu), format!("{:.1}", bps), format!("{:.1}", fps))
}

#[test]
fn test_profiling_report_format() {
    let mut profiler = Profiler::new();
    profiler.record_stage_time("test", 100);
    let report = profiler.generate_report();
    let (cpu, bps, fps) = rate_text(&report);
    let formatted = report.format(&cpu, &bps, &fps);
    assert!(formatted.contains("Profiling Report"));
    assert!(formatted.contains("test"));
    assert!(formatted.contains("100 ms"));
}

#[test]
fn report_format_orders_stages_slowest_first() {
    let mut profiler = Profiler::new();
    profiler.record_stage_time("decode", 20);
    profiler.record_stage_time("encode", 300);
    profiler.record_stage_time("audio", 5);
    profiler.record_cpu_time("mix", 7);
    let report = profiler.generate_report();
    let formatted = report.format("1.0", "2.0", "3.0");
    assert!(formatted.starts_with("=== Profiling Report ===\nTotal elapsed: "));
    assert!(formatted.contains("Total CPU time: 7 ms\nCPU utilization: 1.0%\n"));
    assert!(formatted.contains("Throughput: 2.0 bytes/sec\nFrame rate: 3.0 fps\nOperations: 1\n"));
    assert!(formatted.ends_with("\nStage Times:\n  encode: 300 ms\n  decode: 20 ms\n  audio: 5 ms\n"));
}
