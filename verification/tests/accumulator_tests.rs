use meeting_transcriber::accumulator::{TranscriptAccumulator, TranscriptSegment};
use meeting_transcriber::text::clean_segment_text;
use meeting_transcriber::timefmt::format_time_range;

fn seg(text: &str, t0_ms: u64, t1_ms: u64) -> TranscriptSegment {
    TranscriptSegment { text: text.to_string(), t0_ms, t1_ms }
}

#[test]
fn hello_world_sentence_emitted_once() {
    let mut acc = TranscriptAccumulator::new(0);
    let first = acc.add_segment(&seg("Hello", 0, 1000), 10);
    assert!(first.is_none());
    let second = acc.add_segment(&seg("world.", 500, 1500), 20);
    let update = second.expect("terminal segment should flush the sentence");
    assert_eq!(update.text, "Hello world.");
    assert_eq!(update.timestamp, "0.0 - 1.5");
    assert_eq!(update.source, "Mixed Audio");
    assert!(acc.current_sentence.is_empty());
}

#[test]
fn short_segment_alone_produces_no_output() {
    let mut acc = TranscriptAccumulator::new(0);
    let r = acc.add_segment(&seg("Hi", 0, 300), 10);
    assert!(r.is_none());
    assert!(acc.current_sentence.is_empty());
}

#[test]
fn emitted_update_never_has_empty_trimmed_text() {
    let mut acc = TranscriptAccumulator::new(0);
    assert!(acc.add_segment(&seg("[BLANK_AUDIO]", 0, 2000), 10).is_none());
    assert!(acc.add_segment(&seg("   ", 0, 2000), 20).is_none());
    assert!(acc.add_segment(&seg("[AUDIO OUT] ", 0, 2000), 30).is_none());
    let r = acc.add_segment(&seg("  Done.  ", 0, 2000), 40);
    let update = r.expect("cleaned non-empty terminal segment flushes");
    assert_eq!(update.text, "Done.");
    assert!(!update.text.trim().is_empty());
}

#[test]
fn duplicate_segment_is_ignored() {
    let mut acc = TranscriptAccumulator::new(0);
    assert!(acc.add_segment(&seg("Hello", 0, 1000), 10).is_none());
    // Same raw text, same timestamps: re-delivered across a chunk boundary.
    assert!(acc.add_segment(&seg("Hello", 0, 1000), 20).is_none());
    let held: String = acc.current_sentence.iter().collect();
    assert_eq!(held, "Hello");
    let update = acc.add_segment(&seg("again.", 1000, 2000), 30).unwrap();
    assert_eq!(update.text, "Hello again.");
}

#[test]
fn same_text_at_new_times_is_not_a_duplicate() {
    let mut acc = TranscriptAccumulator::new(0);
    assert!(acc.add_segment(&seg("go", 0, 1000), 10).is_none());
    assert!(acc.add_segment(&seg("go", 1000, 2000), 20).is_none());
    let held: String = acc.current_sentence.iter().collect();
    assert_eq!(held, "go go");
}

#[test]
fn timeout_flushes_exactly_once() {
    let mut acc = TranscriptAccumulator::new(0);
    assert!(acc.add_segment(&seg("Almost there", 0, 1500), 100).is_none());
    // Not yet past the 1000ms inactivity timeout.
    assert!(acc.check_timeout(1100).is_none());
    let update = acc.check_timeout(1101).expect("flush once the timeout passes");
    assert_eq!(update.text, "Almost there");
    // Estimated end: sentence start plus the timeout.
    assert_eq!(update.timestamp, "0.0 - 1.0");
    assert!(acc.check_timeout(1102).is_none());
    assert!(acc.current_sentence.is_empty());
}

#[test]
fn question_and_exclamation_also_terminate() {
    let mut acc = TranscriptAccumulator::new(0);
    let u1 = acc.add_segment(&seg("Ready?", 0, 1200), 10).unwrap();
    assert_eq!(u1.text, "Ready?");
    let u2 = acc.add_segment(&seg("Go!", 1200, 2400), 20).unwrap();
    assert_eq!(u2.text, "Go!");
    assert_eq!(u2.timestamp, "1.2 - 2.4");
}

#[test]
fn markers_removed_and_whitespace_trimmed() {
    let cleaned: String =
        clean_segment_text("  [BLANK_AUDIO] Hello [AUDIO OUT] world.  ").iter().collect();
    assert_eq!(cleaned, "Hello  world.");
}

#[test]
fn marker_removal_is_sequential() {
    // Removing the silent-audio marker first exposes a dropped-audio marker.
    let cleaned: String = clean_segment_text("[AUDIO[BLANK_AUDIO] OUT]x").iter().collect();
    assert_eq!(cleaned, "x");
}

#[test]
fn time_range_formatting_rounds_to_tenths() {
    assert_eq!(format_time_range(0, 1500), "0.0 - 1.5");
    assert_eq!(format_time_range(1549, 1550), "1.5 - 1.6");
    assert_eq!(format_time_range(65432, 999), "65.4 - 1.0");
    assert_eq!(format_time_range(123456, 123456), "123.5 - 123.5");
}

#[test]
fn sentence_start_kept_from_first_accepted_segment() {
    let mut acc = TranscriptAccumulator::new(0);
    assert!(acc.add_segment(&seg("One", 2000, 3200), 10).is_none());
    assert!(acc.add_segment(&seg("two", 3200, 4400), 20).is_none());
    let update = acc.add_segment(&seg("three.", 4400, 5600), 30).unwrap();
    assert_eq!(update.text, "One two three.");
    assert_eq!(update.timestamp, "2.0 - 5.6");
}
