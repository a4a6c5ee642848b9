use dictation::text::u64_to_string;
use dictation::transcript::{concat_segments, finish_transcription, trim_whitespace};

#[test]
fn decimal_rendering_is_exact() {
    assert_eq!(u64_to_string(0), "0");
    assert_eq!(u64_to_string(7), "7");
    assert_eq!(u64_to_string(42), "42");
    assert_eq!(u64_to_string(1000), "1000");
    assert_eq!(u64_to_string(1_530_000_000), "1530000000");
    assert_eq!(u64_to_string(u64::MAX), "18446744073709551615");
}

#[test]
fn segments_concatenate_in_order() {
    let segs = vec![" Hello".to_string(), ", ".to_string(), "world".to_string()];
    assert_eq!(concat_segments(&segs), " Hello, world");
    assert_eq!(concat_segments(&Vec::new()), "");
}

#[test]
fn trim_removes_surrounding_whitespace_only() {
    assert_eq!(trim_whitespace("  hello world \n"), "hello world");
    assert_eq!(trim_whitespace("\t\r\n  \t"), "");
    assert_eq!(trim_whitespace(""), "");
    assert_eq!(trim_whitespace("inner  spaces kept"), "inner  spaces kept");
    assert_eq!(trim_whitespace("no-trim"), "no-trim");
}

#[test]
fn transcription_is_joined_then_trimmed() {
    let segs = vec![
        " The quick".to_string(),
        " brown fox".to_string(),
        " jumps. ".to_string(),
    ];
    assert_eq!(finish_transcription(&segs), "The quick brown fox jumps.");
    assert_eq!(finish_transcription(&vec![" ".to_string(), "\n".to_string()]), "");
    assert_eq!(finish_transcription(&Vec::new()), "");
}
