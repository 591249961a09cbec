use whisperlite::batch::{batch_transcript, parse_batch_bytes, BatchError};
use whisperlite::timefmt::{batch_file_name, ClockTime};

fn bytes(s: &str) -> Vec<u8> {
    s.as_bytes().to_vec()
}

#[test]
fn single_segment_renders_hello() {
    // The batch input of one segment: the rendered transcript holds
    // the segment's text, ready to be written under the output
    // directory with its path printed.
    let input = bytes(r#"[{"start": "00:00:00.000", "end": "00:00:01.000", "text": "hello"}]"#);
    let out = batch_transcript(&input).expect("valid batch input");
    let text = String::from_utf8(out).unwrap();
    assert!(text.contains("hello"));
    assert_eq!(text, "[00:00:00.000 - 00:00:01.000] hello\n");
}

#[test]
fn several_segments_render_in_order() {
    let input = bytes(
        r#"[{"start": "00:00:00.000", "end": "00:00:01.500", "text": "one"},
            {"start": "00:00:01.500", "end": "00:00:03.000", "text": "two"}]"#,
    );
    let out = batch_transcript(&input).expect("valid batch input");
    let text = String::from_utf8(out).unwrap();
    assert_eq!(
        text,
        "[00:00:00.000 - 00:00:01.500] one\n[00:00:01.500 - 00:00:03.000] two\n"
    );
}

#[test]
fn empty_array_renders_empty() {
    let out = batch_transcript(&bytes("[]")).expect("empty array is valid");
    assert_eq!(out, Vec::<u8>::new());
    let out = batch_transcript(&bytes("  [ ]  ")).expect("whitespace is allowed");
    assert_eq!(out, Vec::<u8>::new());
}

#[test]
fn string_escapes_are_decoded() {
    let input = bytes(r#"[{"start": "00:00:00.000", "end": "00:00:01.000", "text": "a\"b\\c\nd"}]"#);
    let segs = parse_batch_bytes(&input).expect("escapes are valid");
    assert_eq!(segs.len(), 1);
    assert_eq!(segs[0].text, b"a\"b\\c\nd".to_vec());
}

#[test]
fn malformed_input_is_invalid_json() {
    for bad in [
        "",
        "[",
        "{}",
        r#"[{"start": "00:00:00.000"}]"#,
        r#"[{"end": "00:00:00.000", "start": "00:00:01.000", "text": "x"}]"#,
        r#"[{"start": "00:00:00.000", "end": "00:00:01.000", "text": "x"}] extra"#,
        r#"[{"start": "00:00:00.000", "end": "00:00:01.000", "text": "x"},]"#,
        r#"[{"start": "00:00:00.000", "end": "00:00:01.000", "text": "x"#,
    ] {
        assert_eq!(batch_transcript(&bytes(bad)).unwrap_err(), BatchError::InvalidJson);
    }
}

#[test]
fn malformed_timestamp_is_rejected() {
    let input = bytes(r#"[{"start": "0:00:00.000", "end": "00:00:01.000", "text": "x"}]"#);
    assert_eq!(batch_transcript(&input).unwrap_err(), BatchError::InvalidTimestamp);
    let input = bytes(r#"[{"start": "00:00:00.000", "end": "00-00-01.000", "text": "x"}]"#);
    assert_eq!(batch_transcript(&input).unwrap_err(), BatchError::InvalidTimestamp);
}

#[test]
fn batch_file_name_carries_user_and_stamp() {
    let t = ClockTime { year: 2024, month: 3, day: 9, hour: 15, minute: 4, second: 59 };
    let name = batch_file_name(&"testuser".to_string(), &t);
    assert_eq!(name, "testuser_20240309_150459.txt");
    assert!(name.starts_with("testuser_"));
}
