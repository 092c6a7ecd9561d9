use rabbit::number::{parse_bool, parse_i32, parse_i64, parse_u16, parse_u8};
use rabbit::text::{chars_of, split_char, trim_lines, trim_vec};
use rabbit::ui_misc::{truncate, Colors, Spacing, UiEvent};

fn v(s: &str) -> Vec<char> {
    chars_of(s)
}

#[test]
fn truncation() {
    assert_eq!(truncate("hello", 10), "hello");
    assert_eq!(truncate("hello world", 8), "hello...");
    assert_eq!(truncate("hello", 2), "...");
    assert_eq!(truncate("héllo wörld", 6), "hé...");
    assert!(truncate("a long sentence here", 10).len() <= 10);
}

#[test]
fn spacing_and_events() {
    let s = Spacing::new();
    assert_eq!((s.margin, s.padding, s.row_height, s.button_width), (5, 4, 28, 60));
    assert_eq!(Spacing::default(), s);
    let e = UiEvent::PlanRemove { id: "task-1".to_string() };
    match e.clone() {
        UiEvent::PlanRemove { id } => assert_eq!(id, "task-1"),
        _ => panic!("expected PlanRemove"),
    }
    assert!(format!("{:?}", UiEvent::ChatRefresh).contains("ChatRefresh"));
}

#[test]
fn number_parsing() {
    assert_eq!(parse_i64(&v("-9223372036854775808")), Some(i64::MIN));
    assert_eq!(parse_i64(&v("9223372036854775808")), None);
    assert_eq!(parse_i32(&v("+42")), Some(42));
    assert_eq!(parse_i32(&v("4 2")), None);
    assert_eq!(parse_u16(&v("65535")), Some(65535));
    assert_eq!(parse_u16(&v("65536")), None);
    assert_eq!(parse_u8(&v("-1")), None);
    assert_eq!(parse_u8(&v("007")), Some(7));
    assert_eq!(parse_bool(&v("true")), Some(true));
    assert_eq!(parse_bool(&v("True")), None);
}

#[test]
fn text_helpers() {
    let mut s = String::from("a\nb\nc\nd");
    trim_lines(&mut s, 2);
    assert_eq!(s, "c\nd");
    let mut s = String::from("a\nb\n");
    trim_lines(&mut s, 5);
    assert_eq!(s, "a\nb\n");
    let parts = split_char(&v("a;;b"), ';');
    assert_eq!(parts.len(), 3);
    assert_eq!(trim_vec(&v("  x y \t")), v("x y"));
}

#[test]
fn colour_scheme() {
    let c = Colors::new();
    assert_eq!((c.background, c.text, c.accent), (0xF5F5F5, 0x333333, 0x4CAF50));
    assert_eq!((c.highlight, c.input_bg, c.border), (0x90EE90, 0xFFFFFF, 0xCCCCCC));
    assert_eq!(Colors::default(), c);
}
