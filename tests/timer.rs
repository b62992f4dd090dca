use mirumi::{format_tray_title, TimerState};

#[test]
fn tray_title_with_short_label() {
    assert_eq!(format_tray_title("Write report", 90), "Write report 01:30");
}

#[test]
fn tray_title_truncates_long_label() {
    assert_eq!(format_tray_title("Write the quarterly report", 5), "Write the qu… 00:05");
}

#[test]
fn tray_title_counts_characters_not_bytes() {
    assert_eq!(format_tray_title("보고서 작성하기 오늘 중으로", 61), "보고서 작성하기 오늘 … 01:01");
    assert_eq!(format_tray_title("보고서", 0), "보고서 00:00");
}

#[test]
fn tray_title_without_label_uses_glyph() {
    assert_eq!(format_tray_title("", 0), "⏱ 00:00");
    assert_eq!(format_tray_title("", 3599), "⏱ 59:59");
}

#[test]
fn tray_title_minutes_are_not_capped() {
    assert_eq!(format_tray_title("", 6000), "⏱ 100:00");
    assert_eq!(format_tray_title("A", 36005), "A 600:05");
}

#[test]
fn countdown_ends_once_on_last_tick() {
    let mut t = TimerState::new();
    let shown = t.start(90, String::from("Write report"));
    assert_eq!(shown, "Write report 01:30");
    let mut ended_at = Vec::new();
    for k in 1..=91u64 {
        let out = t.tick();
        if out.ended {
            ended_at.push(k);
        }
        if k < 90 {
            assert_eq!(out.shown, Some(format_tray_title("Write report", 90 - k)));
        }
        if k == 90 {
            assert_eq!(out.shown.as_deref(), Some("미루미"));
        }
        if k == 91 {
            assert!(out.shown.is_none());
        }
    }
    assert_eq!(ended_at, vec![90]);
    assert_eq!(t.query(), (0, false));
}

#[test]
fn stop_without_reset_keeps_label_and_time() {
    let mut t = TimerState::new();
    t.start(30, String::from("X"));
    for _ in 0..3 {
        t.tick();
    }
    let out = t.stop(false);
    assert_eq!(out.remaining_secs, 27);
    assert_eq!(out.shown, "X 00:27");
    assert_eq!(t.query(), (27, false));
    let again = t.tick();
    assert!(again.shown.is_none());
    assert!(!again.ended);
    assert_eq!(t.query(), (27, false));
}

#[test]
fn stop_with_reset_shows_idle() {
    let mut t = TimerState::new();
    t.start(10, String::from("Y"));
    let out = t.stop(true);
    assert_eq!(out.remaining_secs, 10);
    assert_eq!(out.shown, "미루미");
}

#[test]
fn sync_pushes_only_while_running() {
    let mut t = TimerState::new();
    assert_eq!(t.sync(40), None);
    assert_eq!(t.query(), (40, false));
    t.start(40, String::from("Z"));
    assert_eq!(t.sync(75).as_deref(), Some("Z 01:15"));
    assert_eq!(t.query(), (75, true));
}

#[test]
fn update_retargets_running_timer() {
    let mut t = TimerState::new();
    t.start(100, String::from("First"));
    t.tick();
    let shown = t.update(300, String::from("Second"));
    assert_eq!(shown, "Second 05:00");
    assert_eq!(t.query(), (300, true));
    let out = t.tick();
    assert_eq!(out.shown.as_deref(), Some("Second 04:59"));
}

#[test]
fn idle_timer_does_not_tick() {
    let mut t = TimerState::default();
    let out = t.tick();
    assert!(out.shown.is_none());
    assert!(!out.ended);
    assert_eq!(t.query(), (0, false));
    t.start(0, String::from("Zero"));
    let out = t.tick();
    assert!(out.shown.is_none());
    assert!(!out.ended);
    assert_eq!(t.query(), (0, true));
}
