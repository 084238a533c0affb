//! Projects: a titled, optionally colored collection of tasks with tags.
use vstd::prelude::*;
use crate::ident::{fresh_id, is_ulid_text};
use crate::keyed::{
    contains_key, find_by_key, find_by_key_mut, has_key, holds_text, index_of, is_first_with_key,
    remove_all_by_key, without_key, Keyed,
};
use crate::tag::{HexColor, Tag};
use crate::task::{Status, Task};
use crate::timestamp::{is_clock_reading, Timestamp};

verus! {

/// A group of tasks.
#[derive(Debug, Clone)]
pub struct Project {
    pub id: String,
    pub created_at: Timestamp,
    pub updated_at: Timestamp,
    pub tasks: Vec<Task>,
    pub is_archived: bool,
    pub title: String,
    pub description: String,
    pub color: Option<HexColor>,
    pub tags: Vec<Tag>,
}

/// How many of `tasks` are done.
pub open spec fn count_done(tasks: Seq<Task>) -> nat
    decreases tasks.len(),
{
    if tasks.len() == 0 {
        0
    } else {
        count_done(tasks.drop_last()) + if tasks.last().spec_is_done() {
            1nat
        } else {
            0nat
        }
    }
}

impl Project {
    /// A new, unarchived project with a fresh id, stamped now; no color,
    /// tasks or tags.
    pub fn new(title: &str, description: &str) -> (p: Project)
        ensures
            is_ulid_text(p.id@),
            is_clock_reading(p.created_at),
            p.created_at == p.updated_at,
            p.title@ == title@,
            p.description@ == description@,
            p.tasks@ == Seq::<Task>::empty(),
            !p.is_archived,
            p.color is None,
            p.tags@ == Seq::<Tag>::empty(),
    {
        let now = Timestamp::now();
        Project {
            id: fresh_id(),
            created_at: now,
            updated_at: now,
            tasks: Vec::new(),
            is_archived: false,
            title: title.to_string(),
            description: description.to_string(),
            color: None,
            tags: Vec::new(),
        }
    }

    fn touch(&mut self)
        ensures
            is_clock_reading(final(self).updated_at),
            *final(self) == (Project { updated_at: final(self).updated_at, ..*old(self) }),
    {
        self.updated_at = Timestamp::now();
    }

    /// The same project with the given color.
    pub fn with_color(self, color: HexColor) -> (p: Project)
        ensures
            p == (Project { color: Some(color), ..self }),
    {
        let mut p = self;
        p.color = Some(color);
        p
    }

    /// Retitles the project and stamps `updated_at`.
    pub fn set_title(&mut self, title: &str)
        ensures
            final(self).title@ == title@,
            is_clock_reading(final(self).updated_at),
            *final(self) == (Project {
                title: final(self).title,
                updated_at: final(self).updated_at,
                ..*old(self)
            }),
    {
        self.title = title.to_string();
        self.touch();
    }

    /// Rewrites the description and stamps `updated_at`.
    pub fn set_description(&mut self, description: &str)
        ensures
            final(self).description@ == description@,
            is_clock_reading(final(self).updated_at),
            *final(self) == (Project {
                description: final(self).description,
                updated_at: final(self).updated_at,
                ..*old(self)
            }),
    {
        self.description = description.to_string();
        self.touch();
    }

    /// Sets or clears the color and stamps `updated_at`.
    pub fn set_color(&mut self, color: Option<HexColor>)
        ensures
            is_clock_reading(final(self).updated_at),
            *final(self) == (Project { color, updated_at: final(self).updated_at, ..*old(self) }),
    {
        self.color = color;
        self.touch();
    }

    /// Archives the project and stamps `updated_at`.
    pub fn archive(&mut self)
        ensures
            is_clock_reading(final(self).updated_at),
            *final(self) == (Project {
                is_archived: true,
                updated_at: final(self).updated_at,
                ..*old(self)
            }),
    {
        self.is_archived = true;
        self.touch();
    }

    /// Brings the project back from the archive and stamps `updated_at`.
    pub fn unarchive(&mut self)
        ensures
            is_clock_reading(final(self).updated_at),
            *final(self) == (Project {
                is_archived: false,
                updated_at: final(self).updated_at,
                ..*old(self)
            }),
    {
        self.is_archived = false;
        self.touch();
    }

    /// Appends `task`, filed under this project, and stamps `updated_at`.
    pub fn add_task(&mut self, task: Task)
        ensures
            final(self).tasks@.len() == old(self).tasks@.len() + 1,
            final(self).tasks@.drop_last() == old(self).tasks@,
            holds_text(final(self).tasks@.last().project_id, old(self).id@),
            final(self).tasks@.last() == (Task { project_id: final(self).tasks@.last().project_id, ..task }),
            is_clock_reading(final(self).updated_at),
            *final(self) == (Project {
                tasks: final(self).tasks,
                updated_at: final(self).updated_at,
                ..*old(self)
            }),
    {
        let mut task = task;
        task.project_id = Some(self.id.clone());
        self.tasks.push(task);
        self.touch();
        proof {
            assert(final(self).tasks@.drop_last() =~= old(self).tasks@);
        }
    }

    /// Takes out the first task with id `task_id`; stamps `updated_at` only
    /// when one was found.
    pub fn remove_task(&mut self, task_id: &str) -> (r: Option<Task>)
        ensures
            r is None <==> !has_key(old(self).tasks@, task_id@),
            r is None ==> *final(self) == *old(self),
            r matches Some(t) ==> exists|i: int|
                {
                    &&& is_first_with_key(old(self).tasks@, task_id@, i)
                    &&& t == old(self).tasks@[i]
                    &&& final(self).tasks@ == old(self).tasks@.remove(i)
                },
            r is Some ==> is_clock_reading(final(self).updated_at),
            r is Some ==> *final(self) == (Project {
                tasks: final(self).tasks,
                updated_at: final(self).updated_at,
                ..*old(self)
            }),
    {
        match index_of(&self.tasks, task_id) {
            Some(i) => {
                let t = self.tasks.remove(i);
                self.touch();
                Some(t)
            },
            None => None,
        }
    }

    /// The first task with id `task_id`, if any.
    pub fn find_task(&self, task_id: &str) -> (r: Option<&Task>)
        ensures
            r is None <==> !has_key(self.tasks@, task_id@),
            r matches Some(t) ==> exists|i: int|
                is_first_with_key(self.tasks@, task_id@, i) && *t == self.tasks@[i],
    {
        find_by_key(&self.tasks, task_id)
    }

    /// Mutable access to the first task with id `task_id`, if any.
    pub fn find_task_mut(&mut self, task_id: &str) -> (r: Option<&mut Task>)
        ensures
            r is None <==> !has_key(old(self).tasks@, task_id@),
            r is None ==> final(self).tasks@ == old(self).tasks@,
            r matches Some(t) ==> exists|i: int|
                {
                    &&& is_first_with_key(old(self).tasks@, task_id@, i)
                    &&& *t == old(self).tasks@[i]
                    &&& final(self).tasks@ == old(self).tasks@.update(i, *final(t))
                },
            *final(self) == (Project { tasks: final(self).tasks, ..*old(self) }),
    {
        find_by_key_mut(&mut self.tasks, task_id)
    }

    /// Number of tasks.
    pub fn task_count(&self) -> (r: usize)
        ensures
            r == self.tasks@.len(),
    {
        self.tasks.len()
    }

    /// Whether the project has no tasks.
    pub fn is_empty(&self) -> (r: bool)
        ensures
            r == (self.tasks@.len() == 0),
    {
        self.tasks.len() == 0
    }

    /// Number of tasks whose status is `Done`.
    pub fn completed_task_count(&self) -> (r: usize)
        ensures
            r == count_done(self.tasks@),
            r <= self.tasks@.len(),
    {
        let mut n: usize = 0;
        let mut i: usize = 0;
        while i < self.tasks.len()
            invariant
                0 <= i <= self.tasks@.len(),
                n == count_done(self.tasks@.take(i as int)),
                n <= i,
            decreases self.tasks@.len() - i,
        {
            proof {
                assert(self.tasks@.take(i as int + 1).drop_last() =~= self.tasks@.take(i as int));
            }
            if self.tasks[i].is_done() {
                n += 1;
            }
            i += 1;
        }
        proof {
            assert(self.tasks@.take(i as int) =~= self.tasks@);
        }
        n
    }

    /// Attaches `tag` unless a tag with its id is already attached; only an
    /// actual change stamps `updated_at`.
    pub fn add_tag(&mut self, tag: Tag)
        ensures
            has_key(old(self).tags@, tag.id@) ==> *final(self) == *old(self),
            !has_key(old(self).tags@, tag.id@) ==> {
                &&& final(self).tags@ == old(self).tags@.push(tag)
                &&& is_clock_reading(final(self).updated_at)
                &&& *final(self) == (Project {
                    tags: final(self).tags,
                    updated_at: final(self).updated_at,
                    ..*old(self)
                })
            },
    {
        if !contains_key(&self.tags, tag.id.as_str()) {
            self.tags.push(tag);
            self.touch();
        }
    }

    /// Detaches every tag with id `tag_id`; returns whether one was attached.
    /// Only an actual change stamps `updated_at`.
    pub fn remove_tag(&mut self, tag_id: &str) -> (removed: bool)
        ensures
            removed == has_key(old(self).tags@, tag_id@),
            !removed ==> *final(self) == *old(self),
            removed ==> {
                &&& final(self).tags@ == without_key(old(self).tags@, tag_id@)
                &&& is_clock_reading(final(self).updated_at)
                &&& *final(self) == (Project {
                    tags: final(self).tags,
                    updated_at: final(self).updated_at,
                    ..*old(self)
                })
            },
    {
        if contains_key(&self.tags, tag_id) {
            remove_all_by_key(&mut self.tags, tag_id);
            self.touch();
            true
        } else {
            false
        }
    }

    /// Whether a tag with id `tag_id` is attached.
    pub fn has_tag(&self, tag_id: &str) -> (r: bool)
        ensures
            r == has_key(self.tags@, tag_id@),
    {
        contains_key(&self.tags, tag_id)
    }
}

/// A project never counts more completed tasks than it has tasks.
pub proof fn law_completed_within_total(tasks: Seq<Task>)
    ensures
        count_done(tasks) <= tasks.len(),
    decreases tasks.len(),
{
    if tasks.len() > 0 {
        law_completed_within_total(tasks.drop_last());
    }
}


/// The completed count goes up by one for each task whose status is `Done`
/// and by nothing for any other task (a cancelled one included); an empty
/// list counts none.
pub proof fn law_completed_counts_status_done(tasks: Seq<Task>, t: Task)
    ensures
        count_done(Seq::<Task>::empty()) == 0,
        count_done(tasks.push(t)) == count_done(tasks) + (if t.status == Some(Status::Done) {
            1int
        } else {
            0int
        }),
{
    assert(tasks.push(t).drop_last() =~= tasks);
}

} // verus!
