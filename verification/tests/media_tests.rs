use ruststream_core::audio::sample_buffer::COMPACTION_THRESHOLD;
use ruststream_core::audio::SampleBuffer;
use ruststream_core::probe::LruIndex;
use ruststream_core::video::concat::{check_concat_request, concat_list_contents, stream_copy_args, transcode_args};
use ruststream_core::video::ConcatConfig;

fn strings(items: &[&str]) -> Vec<String> {
    items.iter().map(|s| s.to_string()).collect()
}

#[test]
fn sample_buffer_consume_and_read() {
    let mut buf: SampleBuffer<f32> = SampleBuffer::new(2, 16);
    buf.extend(0, &[1.0, 2.0, 3.0, 4.0]);
    buf.extend(1, &[5.0, 6.0, 7.0, 8.0]);
    assert_eq!(buf.available(), 4);
    assert_eq!(buf.read(0, 2), &[1.0, 2.0]);
    buf.consume(1);
    assert_eq!(buf.available(), 3);
    assert_eq!(buf.len(1), 3);
    assert_eq!(buf.read(0, 2), &[2.0, 3.0]);
    assert_eq!(buf.read(1, 3), &[6.0, 7.0, 8.0]);
}

#[test]
fn sample_buffer_compact_keeps_pending() {
    let mut buf: SampleBuffer<i16> = SampleBuffer::new(1, 4);
    buf.extend(0, &[10, 20, 30]);
    buf.consume(2);
    buf.compact();
    assert_eq!(buf.available(), 1);
    assert_eq!(buf.read(0, 1), &[30]);
    buf.compact();
    assert_eq!(buf.read(0, 1), &[30]);
}

#[test]
fn sample_buffer_resize_pads_and_truncates() {
    let mut buf: SampleBuffer<u8> = SampleBuffer::new(2, 0);
    buf.extend(0, &[1, 2, 3]);
    buf.consume(1);
    buf.resize(0, 4, 9);
    assert_eq!(buf.len(0), 4);
    assert_eq!(buf.read(0, 4), &[2, 3, 9, 9]);
    buf.resize(0, 1, 0);
    assert_eq!(buf.read(0, 1), &[2]);
    assert_eq!(buf.len(0), 1);
    assert_eq!(buf.len(1), 0);
}

#[test]
fn sample_buffer_threshold_compaction() {
    let mut buf: SampleBuffer<u8> = SampleBuffer::new(1, 0);
    let data = vec![7u8; COMPACTION_THRESHOLD + 3];
    buf.extend(0, &data);
    buf.consume(COMPACTION_THRESHOLD);
    assert_eq!(buf.available(), 3);
    assert_eq!(buf.read(0, 3), &[7, 7, 7]);
}

#[test]
fn concat_request_checks() {
    let mut config = ConcatConfig::default();
    assert_eq!(check_concat_request(&config), Err("No input files specified".to_string()));
    config.inputs = strings(&["a.mp4"]);
    assert_eq!(check_concat_request(&config), Err("No output file specified".to_string()));
    config.output = "out.mp4".to_string();
    assert_eq!(check_concat_request(&config), Ok(()));
}

#[test]
fn concat_list_file() {
    let inputs = strings(&["/v/a.mp4", "/v/b.mp4"]);
    assert_eq!(concat_list_contents(&inputs), "file '/v/a.mp4'\nfile '/v/b.mp4'\n");
    assert_eq!(concat_list_contents(&Vec::new()), "");
}

#[test]
fn concat_argument_lists() {
    assert_eq!(
        stream_copy_args("list.txt", "out.mp4"),
        strings(&["-y", "-f", "concat", "-safe", "0", "-i", "list.txt", "-c", "copy", "-movflags", "+faststart", "out.mp4"])
    );
    let config = ConcatConfig {
        inputs: strings(&["a.mp4"]),
        output: "o.mp4".to_string(),
        codec: "libx265".to_string(),
        crf: 28,
        allow_stream_copy: false,
    };
    assert_eq!(
        transcode_args("l.txt", 6, &config),
        strings(&[
            "-f", "concat", "-safe", "0", "-i", "l.txt", "-threads", "6", "-c:v", "libx265", "-preset", "fast",
            "-crf", "28", "-tune", "film", "-c:a", "aac", "-b:a", "128k", "-movflags", "+faststart", "-y", "o.mp4",
        ])
    );
}

#[test]
fn lru_index_size_accumulates() {
    let mut lru = LruIndex::new();
    assert_eq!(lru.size_bytes(), 0);
    lru.insert("a", 100);
    lru.insert("a", 50);
    assert_eq!(lru.size_bytes(), 150);
    assert_eq!(lru.len(), 1);
    lru.remove("a");
    assert_eq!(lru.size_bytes(), 150);
    lru.clear();
    assert_eq!(lru.size_bytes(), 0);
}
