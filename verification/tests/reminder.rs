use rabbit::reminder::{countdown_text, Reminder, TickAction};

#[test]
fn countdown_runs_out_after_three_minutes() {
    let mut r = Reminder::new("Tea");
    assert_eq!(r.triggered_line(), "Reminder triggered: Tea");
    match r.tick() {
        TickAction::ShowCountdown(l) => assert_eq!(l, "02:59"),
        _ => panic!("expected a countdown"),
    }
    for _ in 0..178 {
        assert!(matches!(r.tick(), TickAction::ShowCountdown(_)));
    }
    assert_eq!(r.remaining(), 1);
    match r.tick() {
        TickAction::Close(line) => assert_eq!(line, "Reminder auto-closed after countdown: Tea"),
        _ => panic!("expected the reminder to close"),
    }
    assert!(r.is_closed());
    assert!(matches!(r.tick(), TickAction::Nothing));
    assert_eq!(r.close_by_user(), None);
}

#[test]
fn double_click_closes_once() {
    let mut r = Reminder::new("Call");
    assert_eq!(r.close_by_user(), Some("Reminder closed by user double-click: Call".to_string()));
    assert_eq!(r.close_by_user(), None);
    assert!(matches!(r.tick(), TickAction::Nothing));
}

#[test]
fn countdown_labels() {
    assert_eq!(countdown_text(180), "03:00");
    assert_eq!(countdown_text(65), "01:05");
    assert_eq!(countdown_text(0), "00:00");
}
