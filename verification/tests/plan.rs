use rabbit::plan::{
    format_plan_entry, parse_plan_entry, plan_entry_matches, plan_tasks_from_entries,
    remove_plan_entry, unit_name, upsert_plan_entry,
};
use rabbit::tabs::{plan_cycle, plan_fill, plan_input_error, plan_log_line, plan_removal_text};
use rabbit::calendar::get_days_in_month;

#[test]
fn entry_format() {
    assert_eq!(
        format_plan_entry("Standup", "2026/05/06", "12:00", 2, "hour"),
        "Standup (Repeat every 2 hour)\t@2026/05/06 12:00"
    );
    assert_eq!(
        format_plan_entry("Once", "2026/05/06", "08:30", 0, "minute"),
        "Once\t@2026/05/06 08:30"
    );
}

#[test]
fn entry_reads_back() {
    let e = format_plan_entry("Standup", "2026/05/06", "12:00", 2, "hour");
    let t = parse_plan_entry(&e).unwrap();
    assert_eq!((t.msg.as_str(), t.date.as_str(), t.time.as_str(), t.cycle, t.unit.as_str()),
        ("Standup", "2026/05/06", "12:00", 2, "hour"));
    let t = parse_plan_entry("Once\t@2026/05/06 08:30").unwrap();
    assert_eq!((t.cycle, t.unit.as_str()), (0, "minute"));
    assert!(parse_plan_entry("no tab here").is_none());
    assert!(parse_plan_entry("msg\t@nodatetime").is_none());
}

#[test]
fn entries_match_by_message() {
    assert!(plan_entry_matches("Standup (Repeat every 2 hour)\t@d t", "Standup"));
    assert!(plan_entry_matches("Standup\t@d t", "Standup"));
    assert!(!plan_entry_matches("Standups\t@d t", "Standup"));
    assert!(!plan_entry_matches("Standup", "Standup"));
}

#[test]
fn upsert_and_remove() {
    let mut entries: Vec<String> = Vec::new();
    upsert_plan_entry(&mut entries, "a", "a\t@d1 t1");
    upsert_plan_entry(&mut entries, "b", "b\t@d2 t2");
    upsert_plan_entry(&mut entries, "a", "a (Repeat every 1 day)\t@d3 t3");
    assert_eq!(entries, vec!["a (Repeat every 1 day)\t@d3 t3".to_string(), "b\t@d2 t2".to_string()]);
    assert!(remove_plan_entry(&mut entries, "a"));
    assert!(!remove_plan_entry(&mut entries, "zzz"));
    assert_eq!(entries, vec!["b\t@d2 t2".to_string()]);
    let tasks = plan_tasks_from_entries(&entries);
    assert_eq!(tasks.len(), 1);
    assert_eq!(tasks[0].msg, "b");
}

#[test]
fn plan_tab_inputs() {
    assert_eq!(unit_name(0), "minute");
    assert_eq!(unit_name(1), "hour");
    assert_eq!(unit_name(2), "day");
    assert_eq!(unit_name(9), "minute");
    assert_eq!(plan_input_error("d", "t", ""), Some("Msg is empty"));
    assert_eq!(plan_input_error("", "t", "m"), Some("Date or time is empty"));
    assert_eq!(plan_input_error("d", "t", "m"), None);
    assert_eq!(plan_cycle("15"), 15);
    assert_eq!(plan_cycle("x"), 0);
    assert_eq!(plan_log_line("10:00:00", "Added: x"), "[10:00:00] Added: x\n");
    assert_eq!(plan_removal_text("x", true), "Removed: x");
    assert_eq!(plan_removal_text("x", false), "Not found: x");
}

#[test]
fn plan_fill_from_entry() {
    let f = plan_fill("Standup (Repeat every 2 hour)\t@2026/05/06 12:00").unwrap();
    assert_eq!(f.msg, "Standup");
    assert_eq!(f.date_time, Some(("2026/05/06".to_string(), "12:00".to_string())));
    assert_eq!(f.repeat, Some(("2".to_string(), 1)));
    assert!(!f.reset_cycle);
    let f = plan_fill("Once\t@2026/05/06 08:30").unwrap();
    assert_eq!(f.msg, "Once");
    assert!(f.repeat.is_none());
    assert!(f.reset_cycle);
    assert!(plan_fill("nothing").is_none());
}

#[test]
fn month_lengths() {
    assert_eq!(get_days_in_month(2024, 2), 29);
    assert_eq!(get_days_in_month(2023, 2), 28);
    assert_eq!(get_days_in_month(1900, 2), 28);
    assert_eq!(get_days_in_month(2000, 2), 29);
    assert_eq!(get_days_in_month(2026, 12), 31);
    assert_eq!(get_days_in_month(2026, 4), 30);
    assert_eq!(get_days_in_month(-4, 2), 29);
}
