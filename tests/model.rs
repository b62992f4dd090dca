use mirumi::listing::{is_listed_before, select_for_listing};
use mirumi::store::is_valid_table_name;
use mirumi::{
    count_sidebar, found_task, order_for_listing, plan_memo, plan_note, plan_note_update, plan_run_start,
    plan_table_query, plan_time_extension, DbError, DbState, ExtendTimeInput, SidebarEntry,
    SqlValue, Task, TaskPriority, TaskRecord, TaskStatus,
};

fn record(id: &str, status: &str, important: i64, created_at: &str) -> TaskRecord {
    TaskRecord {
        id: id.to_string(),
        title: format!("task {}", id),
        description: None,
        url: None,
        slack_message_id: None,
        priority: "medium".to_string(),
        status: status.to_string(),
        total_time_spent: 0,
        expected_duration: Some(5),
        remaining_time_seconds: None,
        target_date: None,
        is_important: important,
        created_at: created_at.to_string(),
        updated_at: created_at.to_string(),
        completed_at: None,
        last_paused_at: None,
        last_run_at: None,
    }
}

fn task(id: &str, status: &str, important: bool, created_at: &str) -> Task {
    Task::from_record(record(id, status, if important { 1 } else { 0 }, created_at))
}

fn ids(tasks: &[Task]) -> Vec<&str> {
    tasks.iter().map(|t| t.id.as_str()).collect()
}

#[test]
fn priority_text_round_trip() {
    for p in [TaskPriority::Low, TaskPriority::Medium, TaskPriority::High] {
        assert_eq!(TaskPriority::from(p.to_string().as_str()), p);
    }
    assert_eq!(TaskPriority::from("low"), TaskPriority::Low);
    assert_eq!(TaskPriority::from("High"), TaskPriority::High);
    assert_eq!(TaskPriority::from("urgent"), TaskPriority::Medium);
    assert_eq!(TaskPriority::default(), TaskPriority::Medium);
}

#[test]
fn status_text_round_trip() {
    for s in [
        TaskStatus::Inbox,
        TaskStatus::InProgress,
        TaskStatus::Paused,
        TaskStatus::Completed,
        TaskStatus::Archived,
    ] {
        assert_eq!(TaskStatus::from(s.to_string().as_str()), s);
    }
    assert_eq!(TaskStatus::from("in_progress"), TaskStatus::InProgress);
    assert_eq!(TaskStatus::from("archived"), TaskStatus::Archived);
    assert_eq!(TaskStatus::from("gone"), TaskStatus::Inbox);
    assert_eq!(TaskStatus::from_upper("paused"), TaskStatus::Inbox);
    assert_eq!(TaskStatus::default(), TaskStatus::Inbox);
}

#[test]
fn record_becomes_task() {
    let t = Task::from_record(record("a", "paused", 7, "2025-01-01 00:00:00"));
    assert_eq!(t.status, TaskStatus::Paused);
    assert_eq!(t.priority, TaskPriority::Medium);
    assert!(t.is_important);
    assert!(t.tags.is_empty() && t.memos.is_empty() && t.action_history.is_empty());
    let u = Task::from_record(record("b", "COMPLETED", 0, "2025-01-01 00:00:00"));
    assert!(!u.is_important);
    assert_eq!(u.status, TaskStatus::Completed);
}

#[test]
fn new_important_task_is_listed_first() {
    let tasks = vec![
        task("old", "INBOX", false, "2025-01-01 09:00:00"),
        task("newer", "INBOX", false, "2025-01-02 09:00:00"),
        task("fresh", "INBOX", true, "2025-01-03 09:00:00"),
    ];
    let listed = select_for_listing(tasks, &None);
    assert_eq!(ids(&listed), vec!["fresh", "newer", "old"]);
}

#[test]
fn importance_outranks_recency() {
    let tasks = vec![
        task("starred-old", "INBOX", true, "2024-01-01 00:00:00"),
        task("plain-new", "INBOX", false, "2025-12-31 23:59:59"),
        task("starred-new", "PAUSED", true, "2024-06-01 00:00:00"),
        task("plain-old", "INBOX", false, "2023-01-01 00:00:00"),
    ];
    let listed = order_for_listing(tasks);
    assert_eq!(ids(&listed), vec!["starred-new", "starred-old", "plain-new", "plain-old"]);
    assert!(is_listed_before(&listed[1], &listed[2]));
    assert!(!is_listed_before(&listed[2], &listed[1]));
}

#[test]
fn listing_filters_by_status_text() {
    let tasks = vec![
        task("a", "INBOX", false, "2025-01-01 00:00:00"),
        task("b", "COMPLETED", false, "2025-01-02 00:00:00"),
        task("c", "INBOX", false, "2025-01-03 00:00:00"),
    ];
    let listed = select_for_listing(tasks.clone(), &Some("INBOX".to_string()));
    assert_eq!(ids(&listed), vec!["c", "a"]);
    let done = select_for_listing(tasks.clone(), &Some("COMPLETED".to_string()));
    assert_eq!(ids(&done), vec!["b"]);
    assert!(select_for_listing(tasks, &Some("inbox".to_string())).is_empty());
    assert!(select_for_listing(Vec::new(), &None).is_empty());
}

#[test]
fn table_names_are_allow_listed() {
    assert!(is_valid_table_name("tbl_task"));
    assert!(is_valid_table_name("tbl_task_action_history"));
    assert!(!is_valid_table_name("task"));
    assert!(!is_valid_table_name("tbl"));
    assert!(!is_valid_table_name("tbl_task; DROP TABLE tbl_task"));
    assert!(!is_valid_table_name("tbl_task--"));
    assert!(!is_valid_table_name("TBL_task"));
}

#[test]
fn table_query_defaults_and_errors() {
    let q = plan_table_query("tbl_setting", None, None).expect("valid name");
    assert_eq!(q.sql, "SELECT * FROM tbl_setting LIMIT ?1 OFFSET ?2");
    assert_eq!((q.limit, q.offset), (100, 0));
    let q = plan_table_query("tbl_task", Some(10), Some(20)).expect("valid name");
    assert_eq!((q.limit, q.offset), (10, 20));
    match plan_table_query("sqlite_master", None, None) {
        Err(DbError::Validation(m)) => assert_eq!(m, "유효하지 않은 테이블명입니다."),
        _ => panic!("expected a validation error"),
    }
}

#[test]
fn store_path_resolution() {
    let none = DbState::default();
    assert!(matches!(none.resolve_path(None), Err(DbError::NotConfigured)));
    assert_eq!(none.resolve_path(Some("/c.db".to_string())).unwrap(), "/c.db");
    let chosen = DbState { db_path: Some("/s.db".to_string()) };
    assert_eq!(chosen.resolve_path(Some("/c.db".to_string())).unwrap(), "/s.db");
    assert_eq!(DbError::NotConfigured.message(), "DB가 설정되지 않았습니다.");
    assert_eq!(DbError::Storage("disk I/O error".to_string()).message(), "disk I/O error");
    assert_eq!(DbError::NotFound("no such task".to_string()).message(), "no such task");
}

fn entry(status: TaskStatus, important: bool, day: Option<&str>) -> SidebarEntry {
    SidebarEntry { status, is_important: important, local_target_day: day.map(|d| d.to_string()) }
}

#[test]
fn sidebar_counts() {
    let entries = vec![
        entry(TaskStatus::Inbox, true, Some("2025-03-10")),
        entry(TaskStatus::InProgress, false, Some("2025-03-11")),
        entry(TaskStatus::Paused, true, Some("2025-03-01")),
        entry(TaskStatus::Completed, true, Some("2025-03-01")),
        entry(TaskStatus::Archived, false, Some("2025-03-10")),
        entry(TaskStatus::Inbox, false, None),
    ];
    let c = count_sidebar(&entries, "2025-03-10", "2025-03-11");
    assert_eq!(
        (c.inbox, c.completed, c.starred, c.today, c.tomorrow, c.overdue, c.archive),
        (4, 1, 2, 1, 1, 1, 1)
    );
    let z = count_sidebar(&Vec::new(), "2025-03-10", "2025-03-11");
    assert_eq!((z.inbox, z.overdue, z.archive), (0, 0, 0));
}

#[test]
fn session_rows() {
    let run = plan_run_start("t1");
    assert_eq!(run.task_id, "t1");
    assert_eq!(run.duration, 0);
    assert_eq!(run.end_type, "running");
    assert_eq!(run.id.len(), 36);
    let ext = plan_time_extension(ExtendTimeInput {
        task_id: "t1".to_string(),
        added_minutes: 10,
        previous_duration: 25,
        new_duration: 35,
        reason: Some("scope grew".to_string()),
    });
    assert_eq!((ext.added_minutes, ext.previous_duration, ext.new_duration), (10, 25, 35));
    assert_eq!(ext.reason.as_deref(), Some("scope grew"));
    let memo = plan_memo("t1", "call back".to_string());
    assert_eq!((memo.task_id.as_str(), memo.content.as_str()), ("t1", "call back"));
    let note = plan_note("t1", "Plan".to_string(), "Steps".to_string());
    assert_eq!((note.title.as_str(), note.content.as_str()), ("Plan", "Steps"));
    assert_ne!(memo.id, note.id);
}

#[test]
fn note_update_writes_given_fields() {
    let plan = plan_note_update("n1", None, Some("body".to_string()));
    assert_eq!(
        plan.sql,
        "UPDATE tbl_task_note SET updated_at = datetime('now'), content = ?1 WHERE id = ?2"
    );
    assert_eq!(plan.params.len(), 2);
    assert!(matches!(&plan.params[0], SqlValue::Text(t) if t == "body"));
    assert!(matches!(&plan.params[1], SqlValue::Text(t) if t == "n1"));
    let both = plan_note_update("n2", Some("T".to_string()), Some("C".to_string()));
    assert_eq!(
        both.sql,
        "UPDATE tbl_task_note SET updated_at = datetime('now'), title = ?1, content = ?2 WHERE id = ?3"
    );
    let none = plan_note_update("n3", None, None);
    assert_eq!(none.sql, "UPDATE tbl_task_note SET updated_at = datetime('now') WHERE id = ?1");
}

#[test]
fn lookup_finds_first_row_or_reports_not_found() {
    let t = found_task(vec![task("x", "INBOX", false, "2025-01-01 00:00:00")], "x").unwrap();
    assert_eq!(t.id, "x");
    match found_task(Vec::new(), "missing") {
        Err(DbError::NotFound(m)) => assert_eq!(m, "Task not found: missing"),
        _ => panic!("expected NotFound"),
    }
}
