use emoji_logger::elapsed::format_elapsed;
use emoji_logger::elapsed::u64_digits;
use emoji_logger::label::derive_label;
use emoji_logger::level::tag_bytes;
use emoji_logger::level::Level;
use emoji_logger::render::render_line;
use emoji_logger::WidthState;

fn find(haystack: &[u8], needle: &[u8]) -> Option<usize> {
    if needle.is_empty() {
        return Some(0);
    }
    if haystack.len() < needle.len() {
        return None;
    }
    (0..=haystack.len() - needle.len()).find(|&i| &haystack[i..i + needle.len()] == needle)
}

fn count(haystack: &[u8], needle: &[u8]) -> usize {
    let mut n = 0;
    let mut i = 0;
    while let Some(j) = find(&haystack[i..], needle) {
        n += 1;
        i += j + needle.len();
    }
    n
}

fn render(level: Level, target: &[u8], message: &[u8]) -> Vec<u8> {
    let mut state = WidthState { max_width: 0, since_increase: 0 };
    render_line(level, target, message, 0, 0, &mut state)
}

#[test]
fn tags_are_fixed_per_level() {
    let cases = [
        (Level::Trace, " \u{1F913} T "),
        (Level::Debug, " \u{1F914} D "),
        (Level::Info, " \u{1F60B} I "),
        (Level::Warn, " \u{1F625} W "),
        (Level::Error, " \u{1F621} E "),
    ];
    for (level, tag) in cases {
        assert_eq!(tag_bytes(level), tag.as_bytes().to_vec());
        let line = render(level, b"app", b"hi");
        assert!(find(&line, tag.as_bytes()).is_some());
        for (other, other_tag) in cases {
            if other != level {
                assert!(find(&line, other_tag.as_bytes()).is_none());
            }
        }
    }
}

#[test]
fn rendered_line_is_styled() {
    let line = render(Level::Info, b"app", b"hi");
    assert!(find(&line, b"\x1b[").is_some());
}

#[test]
fn label_single_segment() {
    assert_eq!(derive_label(b"app"), b" app ".to_vec());
}

#[test]
fn label_multi_segment() {
    assert_eq!(derive_label(b"app::net::http"), b" app:http ".to_vec());
    assert_eq!(derive_label(b"a::b"), b" a:b ".to_vec());
}

#[test]
fn label_edge_cases() {
    assert_eq!(derive_label(b""), b"  ".to_vec());
    assert_eq!(derive_label(b"a::"), b" a: ".to_vec());
    assert_eq!(derive_label(b"::b"), b" :b ".to_vec());
    assert_eq!(derive_label(b"a:::b"), b" a::b ".to_vec());
}

#[test]
fn width_growth_sequence() {
    let mut state = WidthState { max_width: 0, since_increase: 0 };
    for _ in 0..6 {
        state.update(3);
    }
    assert_eq!(state.max_width, 3);
    assert_eq!(state.since_increase, 0);
    state.update(10);
    assert_eq!(state.max_width, 10);
    assert_eq!(state.since_increase, 0);
}

#[test]
fn width_shrink_sequence() {
    let mut state = WidthState { max_width: 0, since_increase: 0 };
    state.update(10);
    assert_eq!(state.max_width, 10);
    for k in 1..=5u32 {
        state.update(3);
        assert_eq!(state.max_width, 10);
        assert_eq!(state.since_increase, k as usize);
    }
    state.update(3);
    assert_eq!(state.max_width, 3);
    assert_eq!(state.since_increase, 6);
}

#[test]
fn padded_label_width_is_applied() {
    let mut state = WidthState { max_width: 0, since_increase: 0 };
    render_line(Level::Info, b"something::longer", b"x", 0, 0, &mut state);
    let line = render_line(Level::Info, b"app", b"x", 0, 0, &mut state);
    // " app " padded with spaces up to the previous width of 18.
    assert!(find(&line, b" app              ").is_some());
}

#[test]
fn multiline_message() {
    let line = render(Level::Info, b"app", b"line1\nline2");
    let tag = " \u{1F60B} I ";
    assert!(find(&line, b"line1\n").is_some());
    assert!(find(&line, b"line2").is_some());
    assert_eq!(count(&line, tag.as_bytes()), 2);
    assert!(find(&line, b"line1\nline2").is_none());
    let after_break = find(&line, b"line1\n").unwrap() + b"line1\n".len();
    let second_tag = find(&line[after_break..], tag.as_bytes()).unwrap() + after_break;
    let line2_at = find(&line, b"line2").unwrap();
    assert!(second_tag < line2_at);
}

#[test]
fn elapsed_idempotent() {
    let first = format_elapsed(1, 500);
    let second = format_elapsed(1, 500);
    assert_eq!(first, second);
    assert_eq!(first, b"1.50".to_vec());
}

#[test]
fn elapsed_exact_values() {
    assert_eq!(format_elapsed(12, 340), b"12.34".to_vec());
    assert_eq!(format_elapsed(0, 50), b"0.05".to_vec());
    assert_eq!(format_elapsed(0, 999), b"0.99".to_vec());
    assert_eq!(u64_digits(0), b"0".to_vec());
    assert_eq!(u64_digits(907), b"907".to_vec());
}

#[test]
fn end_to_end_info_record() {
    let mut state = WidthState { max_width: 0, since_increase: 0 };
    let line = render_line(Level::Info, b"myapp::db::pool", b"connected", 0, 50, &mut state);
    let tag_at = find(&line, " \u{1F60B} I ".as_bytes()).expect("info tag");
    let badge_at = find(&line, b" 0.05 ").expect("elapsed badge");
    let label_at = find(&line, b"myapp:pool").expect("label");
    let message_at = find(&line, b"> connected").expect("message");
    assert!(tag_at < badge_at);
    assert!(badge_at < label_at);
    assert!(label_at < message_at);
    assert_eq!(line.last(), Some(&b'\n'));
}
