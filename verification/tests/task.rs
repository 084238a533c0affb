use explorer::tag::Tag;
use explorer::task::{Priority, Status, Task};
use explorer::timestamp::Timestamp;

fn stamp(dt: chrono::DateTime<chrono::Utc>) -> Timestamp {
    Timestamp::from_parts(dt.timestamp(), dt.timestamp_subsec_nanos()).unwrap()
}

fn past() -> Timestamp {
    stamp(chrono::Utc::now() - chrono::Duration::days(2))
}

fn future() -> Timestamp {
    stamp(chrono::Utc::now() + chrono::Duration::days(2))
}

#[test]
fn task_new_defaults() {
    let t = Task::new("Title", "Desc");
    assert!(t.status.is_none());
    assert!(t.priority.is_none());
    assert!(t.due_date.is_none());
    assert!(t.tags.is_empty());
    assert_eq!(t.created_at, t.updated_at);
}

#[test]
fn with_priority_sets_priority() {
    let t = Task::new("T", "").with_priority(Priority::High);
    assert!(matches!(t.priority, Some(Priority::High)));
}

#[test]
fn with_due_date_sets_due_date() {
    let due = future();
    let t = Task::new("T", "").with_due_date(due);
    assert_eq!(t.due_date, Some(due));
}

#[test]
fn with_project_sets_project_id() {
    let t = Task::new("T", "").with_project("proj-1");
    assert_eq!(t.project_id.as_deref(), Some("proj-1"));
}

#[test]
fn with_parent_sets_parent_id() {
    let t = Task::new("T", "").with_parent("parent-1");
    assert_eq!(t.parent_id.as_deref(), Some("parent-1"));
}

#[test]
fn with_recurrence_sets_recurrence_id() {
    let t = Task::new("T", "").with_recurrence("rec-1");
    assert_eq!(t.recurrence_id.as_deref(), Some("rec-1"));
}

#[test]
fn task_set_title_changes_title() {
    let mut t = Task::new("T", "");
    t.set_title("New");
    assert_eq!(t.title, "New");
    assert!(t.updated_at >= t.created_at);
}

#[test]
fn task_set_description_changes_description() {
    let mut t = Task::new("T", "");
    t.set_description("New");
    assert_eq!(t.description, "New");
    assert!(t.updated_at >= t.created_at);
}

#[test]
fn set_priority_changes_priority() {
    let mut t = Task::new("T", "");
    t.set_priority(Some(Priority::Low));
    assert!(matches!(t.priority, Some(Priority::Low)));
    assert!(t.updated_at >= t.created_at);
}

#[test]
fn set_due_date_changes_due_date() {
    let mut t = Task::new("T", "");
    let due = future();
    t.set_due_date(Some(due));
    assert_eq!(t.due_date, Some(due));
    assert!(t.updated_at >= t.created_at);
}

#[test]
fn mark_as_todo_sets_status_and_clears_completed_at() {
    let mut t = Task::new("T", "");
    t.mark_as_done();
    t.mark_as_todo();
    assert!(matches!(t.status, Some(Status::Todo)));
    assert!(t.completed_at.is_none());
}

#[test]
fn mark_as_in_progress_sets_status_and_clears_completed_at() {
    let mut t = Task::new("T", "");
    t.mark_as_done();
    t.mark_as_in_progress();
    assert!(matches!(t.status, Some(Status::InProgress)));
    assert!(t.completed_at.is_none());
}

#[test]
fn mark_as_done_sets_completed_at() {
    let mut t = Task::new("T", "");
    t.mark_as_done();
    assert!(matches!(t.status, Some(Status::Done)));
    assert!(t.completed_at.is_some());
}

#[test]
fn mark_as_cancelled_sets_status_and_clears_completed_at() {
    let mut t = Task::new("T", "");
    t.mark_as_done();
    t.mark_as_cancelled();
    assert!(matches!(t.status, Some(Status::Cancelled)));
    assert!(t.completed_at.is_none());
}

#[test]
fn is_done_only_when_done() {
    let mut t = Task::new("T", "");
    assert!(!t.is_done());
    t.mark_as_done();
    assert!(t.is_done());
}

#[test]
fn is_closed_when_done_or_cancelled() {
    let mut t = Task::new("T", "");
    assert!(!t.is_closed());
    t.mark_as_done();
    assert!(t.is_closed());
    t.mark_as_cancelled();
    assert!(t.is_closed());
}

#[test]
fn is_subtask_when_parent_set() {
    assert!(Task::new("T", "").with_parent("p").is_subtask());
    assert!(!Task::new("T", "").is_subtask());
}

#[test]
fn task_is_recurring_when_recurrence_set() {
    assert!(Task::new("T", "").with_recurrence("r").is_recurring());
    assert!(!Task::new("T", "").is_recurring());
}

#[test]
fn is_overdue_when_past_and_open() {
    let mut t = Task::new("T", "");
    t.due_date = Some(past());
    assert!(t.is_overdue());
}

#[test]
fn is_overdue_false_when_closed() {
    let mut t = Task::new("T", "");
    t.due_date = Some(past());
    t.mark_as_done();
    assert!(!t.is_overdue());
}

#[test]
fn is_overdue_false_without_due_date() {
    assert!(!Task::new("T", "").is_overdue());
}

#[test]
fn is_overdue_false_when_future() {
    let mut t = Task::new("T", "");
    t.due_date = Some(future());
    assert!(!t.is_overdue());
}

#[test]
fn task_add_tag_adds() {
    let mut t = Task::new("T", "");
    t.add_tag(Tag::new("a", None));
    assert_eq!(t.tags.len(), 1);
}

#[test]
fn task_add_tag_ignores_duplicate() {
    let mut t = Task::new("T", "");
    let tag = Tag::new("a", None);
    t.add_tag(tag.clone());
    t.add_tag(tag);
    assert_eq!(t.tags.len(), 1);
}

#[test]
fn task_remove_tag_present_returns_true() {
    let mut t = Task::new("T", "");
    let tag = Tag::new("a", None);
    let id = tag.id.clone();
    t.add_tag(tag);
    assert!(t.remove_tag(&id));
    assert!(t.tags.is_empty());
}

#[test]
fn task_remove_tag_absent_returns_false() {
    let mut t = Task::new("T", "");
    assert!(!t.remove_tag("nope"));
}

#[test]
fn task_has_tag_reflects_membership() {
    let mut t = Task::new("T", "");
    let tag = Tag::new("a", None);
    let id = tag.id.clone();
    t.add_tag(tag);
    assert!(t.has_tag(&id));
    assert!(!t.has_tag("nope"));
}

#[test]
fn is_overdue_at_compares_with_the_given_time() {
    let due = Timestamp::from_parts(1_000, 500).unwrap();
    let t = Task::new("T", "").with_due_date(due);
    assert!(t.is_overdue_at(&Timestamp::from_parts(1_000, 501).unwrap()));
    assert!(!t.is_overdue_at(&Timestamp::from_parts(1_000, 500).unwrap()));
    assert!(!t.is_overdue_at(&Timestamp::from_parts(999, 999_999_999).unwrap()));
}

#[test]
fn closed_task_never_overdue_at_any_time() {
    let mut t = Task::new("T", "").with_due_date(Timestamp::from_parts(0, 0).unwrap());
    t.mark_as_cancelled();
    assert!(!t.is_overdue_at(&Timestamp::from_parts(i64::MAX, 0).unwrap()));
}

#[test]
fn mark_as_done_stamps_completion_with_update_time() {
    let mut t = Task::new("T", "");
    t.mark_as_done();
    assert_eq!(t.completed_at, Some(t.updated_at));
}

#[test]
fn remove_tag_removes_every_copy_and_keeps_others() {
    let mut t = Task::new("T", "");
    let a = Tag::new("a", None);
    let b = Tag::new("b", None);
    let (aid, bid) = (a.id.clone(), b.id.clone());
    t.tags.push(a.clone());
    t.tags.push(b);
    t.tags.push(a);
    assert!(t.remove_tag(&aid));
    assert_eq!(t.tags.len(), 1);
    assert_eq!(t.tags[0].id, bid);
}

#[test]
fn removing_a_just_added_tag_restores_the_tags() {
    let mut t = Task::new("t", "");
    t.add_tag(Tag::new("keep", None));
    let before: Vec<String> = t.tags.iter().map(|g| g.id.clone()).collect();
    let tag = Tag::new("drop", None);
    let id = tag.id.clone();
    t.add_tag(tag);
    assert!(t.remove_tag(&id));
    let after: Vec<String> = t.tags.iter().map(|g| g.id.clone()).collect();
    assert_eq!(after, before);
}
