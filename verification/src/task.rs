//! Tasks: a title and description with an optional status, priority, due
//! date, parent task, project, recurrence rule and tags.
use vstd::prelude::*;
use crate::ident::{fresh_id, is_ulid_text};
use crate::keyed::{contains_key, has_key, holds_text, remove_all_by_key, without_key, Keyed};
use crate::tag::Tag;
use crate::timestamp::{is_clock_reading, Timestamp};

verus! {

/// Where a task stands.
#[derive(Debug, Clone, Copy, PartialEq, Eq, Structural)]
pub enum Status {
    Todo,
    InProgress,
    Done,
    Cancelled,
}

/// How pressing a task is.
#[derive(Debug, Clone, Copy, PartialEq, Eq, Structural)]
pub enum Priority {
    Low,
    Medium,
    High,
    Urgent,
}

/// A unit of work.
#[derive(Debug, Clone)]
pub struct Task {
    pub id: String,
    pub created_at: Timestamp,
    pub updated_at: Timestamp,
    pub recurrence_id: Option<String>,
    pub parent_id: Option<String>,
    pub project_id: Option<String>,
    pub completed_at: Option<Timestamp>,
    pub title: String,
    pub description: String,
    pub status: Option<Status>,
    pub priority: Option<Priority>,
    pub due_date: Option<Timestamp>,
    pub tags: Vec<Tag>,
}

impl Keyed for Task {
    open spec fn key(&self) -> Seq<char> {
        self.id@
    }

    fn key_text(&self) -> (r: &String) {
        &self.id
    }
}

impl Task {
    /// Status is `Done`.
    pub open spec fn spec_is_done(&self) -> bool {
        self.status == Some(Status::Done)
    }

    /// Status is `Done` or `Cancelled`: nothing left to act on.
    pub open spec fn spec_is_closed(&self) -> bool {
        self.status == Some(Status::Done) || self.status == Some(Status::Cancelled)
    }

    /// Still open, with a due date strictly before `now`.
    pub open spec fn spec_is_overdue_at(&self, now: Timestamp) -> bool {
        &&& !self.spec_is_closed()
        &&& self.due_date matches Some(due) && due.total_nanos() < now.total_nanos()
    }

    /// A new task with a fresh id, stamped now; every optional field unset
    /// and no tags.
    pub fn new(title: &str, description: &str) -> (t: Task)
        ensures
            is_ulid_text(t.id@),
            is_clock_reading(t.created_at),
            t.created_at == t.updated_at,
            t.title@ == title@,
            t.description@ == description@,
            t.recurrence_id is None,
            t.parent_id is None,
            t.project_id is None,
            t.completed_at is None,
            t.status is None,
            t.priority is None,
            t.due_date is None,
            t.tags@ == Seq::<Tag>::empty(),
    {
        let now = Timestamp::now();
        Task {
            id: fresh_id(),
            created_at: now,
            updated_at: now,
            recurrence_id: None,
            parent_id: None,
            project_id: None,
            completed_at: None,
            title: title.to_string(),
            description: description.to_string(),
            status: None,
            priority: None,
            due_date: None,
            tags: Vec::new(),
        }
    }

    /// Stamps `updated_at` with the current time.
    fn touch(&mut self)
        ensures
            is_clock_reading(final(self).updated_at),
            *final(self) == (Task { updated_at: final(self).updated_at, ..*old(self) }),
    {
        self.updated_at = Timestamp::now();
    }

    /// The same task with the given priority.
    pub fn with_priority(self, priority: Priority) -> (t: Task)
        ensures
            t == (Task { priority: Some(priority), ..self }),
    {
        let mut t = self;
        t.priority = Some(priority);
        t
    }

    /// The same task with the given due date.
    pub fn with_due_date(self, due_date: Timestamp) -> (t: Task)
        ensures
            t == (Task { due_date: Some(due_date), ..self }),
    {
        let mut t = self;
        t.due_date = Some(due_date);
        t
    }

    /// The same task filed under project `project_id`.
    pub fn with_project(self, project_id: &str) -> (t: Task)
        ensures
            holds_text(t.project_id, project_id@),
            t == (Task { project_id: t.project_id, ..self }),
    {
        let mut t = self;
        t.project_id = Some(project_id.to_string());
        t
    }

    /// The same task as a subtask of `parent_id`.
    pub fn with_parent(self, parent_id: &str) -> (t: Task)
        ensures
            holds_text(t.parent_id, parent_id@),
            t == (Task { parent_id: t.parent_id, ..self }),
    {
        let mut t = self;
        t.parent_id = Some(parent_id.to_string());
        t
    }

    /// The same task repeating by rule `recurrence_id`.
    pub fn with_recurrence(self, recurrence_id: &str) -> (t: Task)
        ensures
            holds_text(t.recurrence_id, recurrence_id@),
            t == (Task { recurrence_id: t.recurrence_id, ..self }),
    {
        let mut t = self;
        t.recurrence_id = Some(recurrence_id.to_string());
        t
    }

    /// Retitles the task and stamps `updated_at`.
    pub fn set_title(&mut self, title: &str)
        ensures
            final(self).title@ == title@,
            is_clock_reading(final(self).updated_at),
            *final(self) == (Task {
                title: final(self).title,
                updated_at: final(self).updated_at,
                ..*old(self)
            }),
    {
        self.title = title.to_string();
        self.touch();
    }

    /// Rewrites the description and stamps `updated_at`.
    pub fn set_description(&mut self, description: &str)
        ensures
            final(self).description@ == description@,
            is_clock_reading(final(self).updated_at),
            *final(self) == (Task {
                description: final(self).description,
                updated_at: final(self).updated_at,
                ..*old(self)
            }),
    {
        self.description = description.to_string();
        self.touch();
    }

    /// Sets or clears the priority and stamps `updated_at`.
    pub fn set_priority(&mut self, priority: Option<Priority>)
        ensures
            is_clock_reading(final(self).updated_at),
            *final(self) == (Task { priority, updated_at: final(self).updated_at, ..*old(self) }),
    {
        self.priority = priority;
        self.touch();
    }

    /// Sets or clears the due date and stamps `updated_at`.
    pub fn set_due_date(&mut self, due_date: Option<Timestamp>)
        ensures
            is_clock_reading(final(self).updated_at),
            *final(self) == (Task { due_date, updated_at: final(self).updated_at, ..*old(self) }),
    {
        self.due_date = due_date;
        self.touch();
    }

    /// Moves the task to `Todo`, clearing any completion time.
    pub fn mark_as_todo(&mut self)
        ensures
            is_clock_reading(final(self).updated_at),
            *final(self) == (Task {
                status: Some(Status::Todo),
                completed_at: None,
                updated_at: final(self).updated_at,
                ..*old(self)
            }),
    {
        self.status = Some(Status::Todo);
        self.completed_at = None;
        self.touch();
    }

    /// Moves the task to `InProgress`, clearing any completion time.
    pub fn mark_as_in_progress(&mut self)
        ensures
            is_clock_reading(final(self).updated_at),
            *final(self) == (Task {
                status: Some(Status::InProgress),
                completed_at: None,
                updated_at: final(self).updated_at,
                ..*old(self)
            }),
    {
        self.status = Some(Status::InProgress);
        self.completed_at = None;
        self.touch();
    }

    /// Moves the task to `Done`; the completion time and `updated_at` are the
    /// same reading of the clock.
    pub fn mark_as_done(&mut self)
        ensures
            is_clock_reading(final(self).updated_at),
            *final(self) == (Task {
                status: Some(Status::Done),
                completed_at: Some(final(self).updated_at),
                updated_at: final(self).updated_at,
                ..*old(self)
            }),
    {
        let now = Timestamp::now();
        self.status = Some(Status::Done);
        self.completed_at = Some(now);
        self.updated_at = now;
    }

    /// Moves the task to `Cancelled`, clearing any completion time.
    pub fn mark_as_cancelled(&mut self)
        ensures
            is_clock_reading(final(self).updated_at),
            *final(self) == (Task {
                status: Some(Status::Cancelled),
                completed_at: None,
                updated_at: final(self).updated_at,
                ..*old(self)
            }),
    {
        self.status = Some(Status::Cancelled);
        self.completed_at = None;
        self.touch();
    }

    /// Attaches `tag` unless a tag with its id is already attached; only an
    /// actual change stamps `updated_at`.
    pub fn add_tag(&mut self, tag: Tag)
        ensures
            has_key(old(self).tags@, tag.id@) ==> *final(self) == *old(self),
            !has_key(old(self).tags@, tag.id@) ==> {
                &&& final(self).tags@ == old(self).tags@.push(tag)
                &&& is_clock_reading(final(self).updated_at)
                &&& *final(self) == (Task {
                    tags: final(self).tags,
                    updated_at: final(self).updated_at,
                    ..*old(self)
                })
            },
    {
        if !contains_key(&self.tags, tag.id.as_str()) {
            self.tags.push(tag);
            self.touch();
        }
    }

    /// Detaches every tag with id `tag_id`; returns whether one was attached.
    /// Only an actual change stamps `updated_at`.
    pub fn remove_tag(&mut self, tag_id: &str) -> (removed: bool)
        ensures
            removed == has_key(old(self).tags@, tag_id@),
            !removed ==> *final(self) == *old(self),
            removed ==> {
                &&& final(self).tags@ == without_key(old(self).tags@, tag_id@)
                &&& is_clock_reading(final(self).updated_at)
                &&& *final(self) == (Task {
                    tags: final(self).tags,
                    updated_at: final(self).updated_at,
                    ..*old(self)
                })
            },
    {
        if contains_key(&self.tags, tag_id) {
            remove_all_by_key(&mut self.tags, tag_id);
            self.touch();
            true
        } else {
            false
        }
    }

    /// Whether a tag with id `tag_id` is attached.
    pub fn has_tag(&self, tag_id: &str) -> (r: bool)
        ensures
            r == has_key(self.tags@, tag_id@),
    {
        contains_key(&self.tags, tag_id)
    }

    /// Status is `Done`.
    pub fn is_done(&self) -> (r: bool)
        ensures
            r == self.spec_is_done(),
    {
        matches!(self.status, Some(Status::Done))
    }

    /// Status is `Done` or `Cancelled`.
    pub fn is_closed(&self) -> (r: bool)
        ensures
            r == self.spec_is_closed(),
    {
        matches!(self.status, Some(Status::Done) | Some(Status::Cancelled))
    }

    /// The task has a parent task.
    pub fn is_subtask(&self) -> (r: bool)
        ensures
            r == self.parent_id is Some,
    {
        self.parent_id.is_some()
    }

    /// The task follows a recurrence rule.
    pub fn is_recurring(&self) -> (r: bool)
        ensures
            r == self.recurrence_id is Some,
    {
        self.recurrence_id.is_some()
    }

    /// Still open with a due date before `now`.
    pub fn is_overdue_at(&self, now: &Timestamp) -> (r: bool)
        ensures
            r == self.spec_is_overdue_at(*now),
    {
        if self.is_closed() {
            return false;
        }
        match &self.due_date {
            Some(due) => due.is_before(now),
            None => false,
        }
    }

    /// Still open with a due date before the current time.
    pub fn is_overdue(&self) -> (r: bool)
        ensures
            exists|now: Timestamp| is_clock_reading(now) && r == #[trigger] self.spec_is_overdue_at(now),
            self.spec_is_closed() ==> !r,
            self.due_date is None ==> !r,
    {
        let now = Timestamp::now();
        self.is_overdue_at(&now)
    }
}

/// A closed task is never overdue, whatever the time.
pub proof fn law_closed_task_not_overdue(t: Task, now: Timestamp)
    requires
        t.spec_is_closed(),
    ensures
        !t.spec_is_overdue_at(now),
{
}


/// A task is done exactly when its status is `Done`: a cancelled,
/// in-progress, to-do or status-less task is not done.
pub proof fn law_done_means_status_done(t: Task)
    ensures
        t.spec_is_done() <==> t.status == Some(Status::Done),
        t.status == Some(Status::Cancelled) ==> !t.spec_is_done(),
{
}

/// A task is closed exactly when it is done or cancelled, and a task is
/// overdue at `now` exactly when it is still open (to do, in progress or
/// without a status) and its due date lies before `now`.
pub proof fn law_overdue_means_open_and_past_due(t: Task, now: Timestamp)
    ensures
        t.spec_is_closed() <==> (t.status == Some(Status::Done) || t.status == Some(Status::Cancelled)),
        t.spec_is_overdue_at(now) <==> ((t.status is None || t.status == Some(Status::Todo) || t.status == Some(
            Status::InProgress)) && t.due_date is Some && t.due_date->0.total_nanos() < now.total_nanos()),
{
    match t.status {
        Some(Status::Todo) => {},
        Some(Status::InProgress) => {},
        Some(Status::Done) => {},
        Some(Status::Cancelled) => {},
        None => {},
    }
}

} // verus!
