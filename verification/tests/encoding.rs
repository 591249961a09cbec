use whisperlite::chunker::{frames_per_chunk, ChunkAccumulator};
use whisperlite::codec::encode_chunk_le;
use whisperlite::text::{assemble_fragment, trim_spaces};
use whisperlite::timefmt::{save_file_name, ClockTime};

#[test]
fn default_configuration_chunk_size() {
    // 16 000 Hz, mono, 1.5 s per chunk.
    assert_eq!(frames_per_chunk(16_000, 1), 24_000);
    assert_eq!(frames_per_chunk(16_000, 2), 48_000);
    assert_eq!(frames_per_chunk(44_100, 1), 66_150);
}

#[test]
fn accumulator_emits_full_chunks_in_order() {
    let mut acc = ChunkAccumulator::new(4);
    let data: Vec<i16> = (0..10).collect();
    let chunks = acc.accept(&data);
    assert_eq!(chunks, vec![vec![0, 1, 2, 3], vec![4, 5, 6, 7]]);

    // The two samples left pending lead the next chunk.
    let more: Vec<i16> = (10..13).collect();
    let chunks = acc.accept(&more);
    assert_eq!(chunks, vec![vec![8, 9, 10, 11]]);

    // Nothing is emitted while less than one chunk is pending.
    let chunks = acc.accept(&[]);
    assert!(chunks.is_empty());
}

#[test]
fn accumulator_emits_several_chunks_per_callback() {
    let mut acc = ChunkAccumulator::new(2);
    let data: Vec<i16> = vec![5; 7];
    let chunks = acc.accept(&data);
    assert_eq!(chunks.len(), 3);
    for c in &chunks {
        assert_eq!(c, &vec![5, 5]);
    }
}

#[test]
fn samples_encode_little_endian_twos_complement() {
    let chunk: Vec<i16> = vec![0, 1, -1, 256, -32768, 32767];
    let bytes = encode_chunk_le(&chunk);
    assert_eq!(
        bytes,
        vec![0, 0, 1, 0, 255, 255, 0, 1, 0, 128, 255, 127]
    );
}

#[test]
fn empty_chunk_encodes_to_nothing() {
    assert_eq!(encode_chunk_le(&Vec::new()), Vec::<u8>::new());
}

#[test]
fn trim_removes_outer_whitespace_only() {
    assert_eq!(trim_spaces("  hello world \t\n"), "hello world");
    assert_eq!(trim_spaces("unchanged"), "unchanged");
    assert_eq!(trim_spaces(" \t \n "), "");
    assert_eq!(trim_spaces(""), "");
}

#[test]
fn fragment_concatenates_segments_then_trims() {
    let segs = vec![" hello".to_string(), " world ".to_string()];
    assert_eq!(assemble_fragment(&segs), "hello world");
    let empty: Vec<String> = Vec::new();
    assert_eq!(assemble_fragment(&empty), "");
}

#[test]
fn save_file_name_is_timestamped() {
    let t = ClockTime { year: 2024, month: 1, day: 5, hour: 3, minute: 7, second: 9 };
    assert_eq!(save_file_name(&t), "whisperlite_transcript_20240105_030709.txt");
}
