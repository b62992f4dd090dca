use mirumi::audit::{creation_entry, status_change_entry, target_date_change_entry, target_date_metadata};
use mirumi::{
    plan_create, plan_tag, plan_update, ActionKind, CreateTaskInput, SqlValue, TaskPriority,
    TaskStatus, UpdateTaskInput,
};

fn empty_patch(id: &str) -> UpdateTaskInput {
    UpdateTaskInput {
        id: id.to_string(),
        title: None,
        description: None,
        url: None,
        priority: None,
        status: None,
        total_time_spent: None,
        expected_duration: None,
        remaining_time_seconds: None,
        target_date: None,
        is_important: None,
        completed_at: None,
        last_paused_at: None,
        last_run_at: None,
    }
}

fn text(s: &str) -> SqlValue {
    SqlValue::Text(s.to_string())
}

fn same_value(a: &SqlValue, b: &SqlValue) -> bool {
    match (a, b) {
        (SqlValue::Null, SqlValue::Null) => true,
        (SqlValue::Integer(x), SqlValue::Integer(y)) => x == y,
        (SqlValue::Text(x), SqlValue::Text(y)) => x == y,
        _ => false,
    }
}

fn assert_values(got: &[SqlValue], want: &[SqlValue]) {
    assert_eq!(got.len(), want.len(), "{:?} vs {:?}", got, want);
    for (g, w) in got.iter().zip(want.iter()) {
        assert!(same_value(g, w), "{:?} vs {:?}", got, want);
    }
}

#[test]
fn action_kind_for_every_status() {
    let cases = [
        (TaskStatus::InProgress, ActionKind::Started, "STARTED"),
        (TaskStatus::Paused, ActionKind::Paused, "PAUSED"),
        (TaskStatus::Completed, ActionKind::Completed, "COMPLETED"),
        (TaskStatus::Archived, ActionKind::Archived, "ARCHIVED"),
        (TaskStatus::Inbox, ActionKind::Restored, "RESTORED"),
    ];
    for (status, kind, name) in cases {
        let k = ActionKind::for_status_text(&status.to_string());
        assert_eq!(k, kind);
        assert_eq!(k.to_string(), name);
    }
}

#[test]
fn unknown_status_text_maps_to_status_changed() {
    assert_eq!(ActionKind::for_status_text("DELETED"), ActionKind::StatusChanged);
    assert_eq!(ActionKind::for_status_text("in_progress"), ActionKind::StatusChanged);
    assert_eq!(ActionKind::for_status_text(""), ActionKind::StatusChanged);
    assert_eq!(ActionKind::StatusChanged.to_string(), "STATUS_CHANGED");
    assert_eq!(ActionKind::TargetDateChanged.to_string(), "TARGET_DATE_CHANGED");
    assert_eq!(ActionKind::Created.to_string(), "CREATED");
}

#[test]
fn same_status_records_nothing() {
    let mut p = empty_patch("t1");
    p.status = Some(TaskStatus::Paused);
    let plan = plan_update(&p, &Some("PAUSED".to_string()), &None);
    assert!(plan.audit.is_empty());
}

#[test]
fn new_status_records_one_entry() {
    let mut p = empty_patch("t1");
    p.status = Some(TaskStatus::Completed);
    let plan = plan_update(&p, &Some("IN_PROGRESS".to_string()), &None);
    assert_eq!(plan.audit.len(), 1);
    let e = &plan.audit[0];
    assert_eq!(e.task_id, "t1");
    assert_eq!(e.action, ActionKind::Completed);
    assert_eq!(e.previous_status.as_deref(), Some("IN_PROGRESS"));
    assert_eq!(e.new_status.as_deref(), Some("COMPLETED"));
    assert!(e.metadata.is_none());
    assert_eq!(e.id.len(), 36);
}

#[test]
fn status_of_missing_row_counts_as_change() {
    let e = status_change_entry("t9", &None, TaskStatus::Inbox).expect("an entry");
    assert_eq!(e.action, ActionKind::Restored);
    assert!(e.previous_status.is_none());
    assert_eq!(e.new_status.as_deref(), Some("INBOX"));
}

#[test]
fn target_date_set_where_none_was() {
    let mut p = empty_patch("t2");
    p.target_date = Some(Some("2025-03-01".to_string()));
    let plan = plan_update(&p, &None, &None);
    assert_eq!(plan.audit.len(), 1);
    let e = &plan.audit[0];
    assert_eq!(e.action, ActionKind::TargetDateChanged);
    assert!(e.previous_status.is_none());
    assert!(e.new_status.is_none());
    assert_eq!(e.metadata.as_deref(), Some(r#"{"newTargetDate":"2025-03-01"}"#));
}

#[test]
fn target_date_moved() {
    let e = target_date_change_entry(
        "t2",
        &Some("2025-03-01".to_string()),
        &Some("2025-03-05".to_string()),
    )
    .expect("an entry");
    assert_eq!(
        e.metadata.as_deref(),
        Some(r#"{"previousTargetDate":"2025-03-01","newTargetDate":"2025-03-05"}"#)
    );
}

#[test]
fn target_date_cleared() {
    assert_eq!(
        target_date_metadata(&Some("2025-03-01".to_string()), &None),
        r#"{"previousTargetDate":"2025-03-01","newTargetDate":null}"#
    );
    let mut p = empty_patch("t2");
    p.target_date = Some(None);
    let plan = plan_update(&p, &None, &Some("2025-03-01".to_string()));
    assert_eq!(plan.audit.len(), 1);
}

#[test]
fn same_target_date_records_nothing() {
    let mut p = empty_patch("t3");
    p.target_date = Some(Some("2025-03-01".to_string()));
    let plan = plan_update(&p, &None, &Some("2025-03-01".to_string()));
    assert!(plan.audit.is_empty());
    assert!(target_date_change_entry("t3", &None, &None).is_none());
}

#[test]
fn status_and_target_date_record_two_entries() {
    let mut p = empty_patch("t4");
    p.status = Some(TaskStatus::InProgress);
    p.target_date = Some(Some("2025-04-01".to_string()));
    let plan = plan_update(&p, &Some("INBOX".to_string()), &Some("2025-03-31".to_string()));
    assert_eq!(plan.audit.len(), 2);
    assert_eq!(plan.audit[0].action, ActionKind::Started);
    assert_eq!(plan.audit[1].action, ActionKind::TargetDateChanged);
    assert_ne!(plan.audit[0].id, plan.audit[1].id);
}

#[test]
fn empty_patch_only_stamps_update_time() {
    let p = empty_patch("t5");
    let plan = plan_update(&p, &None, &None);
    assert_eq!(plan.sql, "UPDATE tbl_task SET updated_at = datetime('now') WHERE id = ?1");
    assert_values(&plan.params, &[text("t5")]);
    assert!(plan.audit.is_empty());
}

#[test]
fn patch_writes_only_given_fields() {
    let mut p = empty_patch("t6");
    p.title = Some("New title".to_string());
    p.priority = Some(TaskPriority::High);
    p.is_important = Some(true);
    p.remaining_time_seconds = Some(Some(42));
    p.description = Some(None);
    let plan = plan_update(&p, &None, &None);
    assert_eq!(
        plan.sql,
        "UPDATE tbl_task SET updated_at = datetime('now'), title = ?1, description = ?2, \
         priority = ?3, remaining_time_seconds = ?4, is_important = ?5 WHERE id = ?6"
    );
    assert_values(
        &plan.params,
        &[
            text("New title"),
            SqlValue::Null,
            text("HIGH"),
            SqlValue::Integer(42),
            SqlValue::Integer(1),
            text("t6"),
        ],
    );
}

#[test]
fn patch_with_every_field() {
    let p = UpdateTaskInput {
        id: "t7".to_string(),
        title: Some("T".to_string()),
        description: Some(Some("D".to_string())),
        url: Some(Some("https://example.com".to_string())),
        priority: Some(TaskPriority::Low),
        status: Some(TaskStatus::Paused),
        total_time_spent: Some(600),
        expected_duration: Some(None),
        remaining_time_seconds: Some(Some(120)),
        target_date: Some(Some("2025-05-05".to_string())),
        is_important: Some(false),
        completed_at: Some(None),
        last_paused_at: Some(Some("2025-05-04 10:00:00".to_string())),
        last_run_at: Some(Some("2025-05-04 09:50:00".to_string())),
    };
    let plan = plan_update(&p, &Some("PAUSED".to_string()), &Some("2025-05-05".to_string()));
    assert_eq!(
        plan.sql,
        "UPDATE tbl_task SET updated_at = datetime('now'), title = ?1, description = ?2, url = ?3, \
         priority = ?4, status = ?5, total_time_spent = ?6, expected_duration = ?7, \
         remaining_time_seconds = ?8, target_date = ?9, is_important = ?10, completed_at = ?11, \
         last_paused_at = ?12, last_run_at = ?13 WHERE id = ?14"
    );
    assert_values(
        &plan.params,
        &[
            text("T"),
            text("D"),
            text("https://example.com"),
            text("LOW"),
            text("PAUSED"),
            SqlValue::Integer(600),
            SqlValue::Null,
            SqlValue::Integer(120),
            text("2025-05-05"),
            SqlValue::Integer(0),
            SqlValue::Null,
            text("2025-05-04 10:00:00"),
            text("2025-05-04 09:50:00"),
            text("t7"),
        ],
    );
    assert!(plan.audit.is_empty());
}

#[test]
fn create_uses_defaults() {
    let input = CreateTaskInput {
        title: "Plan".to_string(),
        description: None,
        url: None,
        priority: None,
        expected_duration: None,
        target_date: None,
        tags: None,
    };
    let plan = plan_create(input);
    assert_eq!(plan.task.id.len(), 36);
    assert_eq!(plan.task.title, "Plan");
    assert_eq!(plan.task.priority, TaskPriority::Medium);
    assert_eq!(plan.task.priority.to_string(), "MEDIUM");
    assert_eq!(plan.task.expected_duration, 5);
    assert!(plan.tags.is_empty());
    assert_eq!(plan.audit.task_id, plan.task.id);
    assert_eq!(plan.audit.action, ActionKind::Created);
    assert!(plan.audit.previous_status.is_none());
    assert_eq!(plan.audit.new_status.as_deref(), Some("INBOX"));
}

#[test]
fn create_keeps_given_fields_and_tags() {
    let input = CreateTaskInput {
        title: "Ship".to_string(),
        description: Some("release".to_string()),
        url: Some("https://example.org".to_string()),
        priority: Some(TaskPriority::High),
        expected_duration: Some(25),
        target_date: Some("2025-06-01".to_string()),
        tags: Some(vec!["work".to_string(), "urgent".to_string()]),
    };
    let plan = plan_create(input);
    assert_eq!(plan.task.description.as_deref(), Some("release"));
    assert_eq!(plan.task.url.as_deref(), Some("https://example.org"));
    assert_eq!(plan.task.priority, TaskPriority::High);
    assert_eq!(plan.task.expected_duration, 25);
    assert_eq!(plan.task.target_date.as_deref(), Some("2025-06-01"));
    let tags: Vec<&str> = plan.tags.iter().map(|t| t.tag.as_str()).collect();
    assert_eq!(tags, vec!["work", "urgent"]);
    assert!(plan.tags.iter().all(|t| t.task_id == plan.task.id && t.id.len() == 36));
}

#[test]
fn creation_entry_is_created_inbox() {
    let e = creation_entry("abc");
    assert_eq!(e.task_id, "abc");
    assert_eq!(e.action, ActionKind::Created);
    assert_eq!(e.new_status.as_deref(), Some("INBOX"));
}

#[test]
fn tag_row_under_fresh_id() {
    let a = plan_tag("t1", "home");
    let b = plan_tag("t1", "home");
    assert_eq!(a.tag, "home");
    assert_eq!(a.task_id, "t1");
    assert_eq!(a.id.len(), 36);
    assert_ne!(a.id, b.id);
}
