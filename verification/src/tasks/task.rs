use super::category::{Category, CategoryView};
use super::text::{erased, lemma_erase_undoes_typing, typed};
use chrono::NaiveDateTime;
use vstd::prelude::*;

verus! {

/// `chrono::NaiveDateTime`, a date and time without a time zone. It is
/// carried as an opaque value: no contract looks into it.
#[verifier::external_type_specification]
#[verifier::external_body]
pub struct ExNaiveDateTime(NaiveDateTime);

/// One to-do item.
///
/// `id` is present once the task has been persisted. `completed` has three
/// states: `None` means that the completion state is unknown, which is not
/// the same as `Some(false)`.
#[derive(Debug, Clone)]
pub struct Task {
    pub title: String,
    pub description: Option<String>,
    pub created_at: Option<NaiveDateTime>,
    pub completed: Option<bool>,
    pub completed_at: Option<NaiveDateTime>,
    pub category: Category,
    pub id: Option<i64>,
}

/// The mathematical value of a [`Task`].
pub struct TaskView {
    pub title: Seq<char>,
    pub description: Option<Seq<char>>,
    pub created_at: Option<NaiveDateTime>,
    pub completed: Option<bool>,
    pub completed_at: Option<NaiveDateTime>,
    pub category: CategoryView,
    pub id: Option<i64>,
}

/// The text field of a task that keystrokes go to while the task is edited.
#[derive(Debug, Clone, Copy, PartialEq, Eq, Structural)]
pub enum EditField {
    Title,
    Description,
}

/// What a task list shows about a task's completion.
#[derive(Debug, Clone, Copy, PartialEq, Eq, Structural)]
pub enum Completion {
    Done,
    Pending,
    Unknown,
}

/// The view of an optional text.
pub open spec fn text_view(text: Option<String>) -> Option<Seq<char>> {
    match text {
        Some(s) => Some(s@),
        None => None,
    }
}

impl View for Task {
    type V = TaskView;

    open spec fn view(&self) -> TaskView {
        TaskView {
            title: self.title@,
            description: text_view(self.description),
            created_at: self.created_at,
            completed: self.completed,
            completed_at: self.completed_at,
            category: self.category@,
            id: self.id,
        }
    }
}

impl EditField {
    /// The other field: switching fields twice comes back to the first.
    pub open spec fn toggled(self) -> EditField {
        match self {
            EditField::Title => EditField::Description,
            EditField::Description => EditField::Title,
        }
    }

    /// Switches to the other field.
    pub fn toggle(self) -> (f: EditField)
        ensures
            f == self.toggled(),
    {
        match self {
            EditField::Title => EditField::Description,
            EditField::Description => EditField::Title,
        }
    }
}

impl TaskView {
    /// The task as it is created at `created_at`, before anything has been
    /// typed into it: empty title, empty description, not completed, filed
    /// under the general category and not yet persisted.
    pub open spec fn blank(created_at: Option<NaiveDateTime>) -> TaskView {
        TaskView {
            title: Seq::empty(),
            description: Some(Seq::empty()),
            created_at,
            completed: Some(false),
            completed_at: None,
            category: CategoryView::general(),
            id: None,
        }
    }

    /// Whether the task is blank, whenever it was created.
    pub open spec fn is_blank(self) -> bool {
        self == TaskView::blank(self.created_at)
    }

    /// The same task under another identity.
    pub open spec fn with_id(self, id: Option<i64>) -> TaskView {
        TaskView { id, ..self }
    }

    /// The task after `c` has been typed into `field`. Typing into a missing
    /// description creates it.
    pub open spec fn push_char(self, field: EditField, c: char) -> TaskView {
        match field {
            EditField::Title => TaskView { title: typed(self.title, c), ..self },
            EditField::Description => TaskView {
                description: Some(
                    typed(
                        match self.description {
                            Some(d) => d,
                            None => Seq::<char>::empty(),
                        },
                        c,
                    ),
                ),
                ..self
            },
        }
    }

    /// The task after the last character of `field` has been erased. An empty
    /// or missing field is left as it is.
    pub open spec fn pop_char(self, field: EditField) -> TaskView {
        match field {
            EditField::Title => TaskView { title: erased(self.title), ..self },
            EditField::Description => TaskView {
                description: match self.description {
                    Some(d) => Some(erased(d)),
                    None => None,
                },
                ..self
            },
        }
    }

    /// What a task list shows about the completion of the task.
    pub open spec fn completion(self) -> Completion {
        match self.completed {
            Some(true) => Completion::Done,
            Some(false) => Completion::Pending,
            None => Completion::Unknown,
        }
    }
}

/// Reads the system clock with `SystemTime::elapsed` on `UNIX_EPOCH`: the
/// time since 1970 in whole seconds and the nanoseconds beyond them, or
/// `None` where the clock reads a time before 1970. Nothing is claimed of the
/// reading.
#[verifier::external_body]
fn unix_time() -> Option<(u64, u32)> {
    let since = std::time::UNIX_EPOCH.elapsed().ok()?;
    Some((since.as_secs(), since.subsec_nanos()))
}

/// `chrono::DateTime::from_timestamp`, then `DateTime::naive_utc`: the date
/// and time in UTC of the instant `seconds` and `nanos` after 1970, or `None`
/// where `chrono` has no date for it. Nothing is claimed of the date.
#[verifier::external_body]
fn utc_at(seconds: i64, nanos: u32) -> Option<NaiveDateTime> {
    chrono::DateTime::from_timestamp(seconds, nanos).map(|at| at.naive_utc())
}

/// The date and time in UTC that the system clock shows, if it shows one
/// that `chrono` has a date for.
fn utc_now() -> Option<NaiveDateTime> {
    match unix_time() {
        Some((seconds, nanos)) => if seconds <= 0x7fff_ffff_ffff_ffff {
            utc_at(seconds as i64, nanos)
        } else {
            None
        },
        None => None,
    }
}

impl Task {
    /// Builds a blank task, stamped with the current time. On a machine
    /// whose clock shows no usable time the task has no creation time.
    pub fn default() -> (t: Task)
        ensures
            t@.is_blank(),
    {
        Task::blank(utc_now())
    }

    /// Builds the blank task that was created at `created_at`.
    pub fn blank(created_at: Option<NaiveDateTime>) -> (t: Task)
        ensures
            t@ == TaskView::blank(created_at),
    {
        Task {
            title: String::new(),
            description: Some(String::new()),
            created_at,
            completed: Some(false),
            completed_at: None,
            category: Category::default(),
            id: None,
        }
    }

    /// Types `c` at the end of `field`.
    pub fn push_char(&mut self, field: EditField, c: char)
        ensures
            final(self)@ == old(self)@.push_char(field, c),
    {
        match field {
            EditField::Title => self.title.push(c),
            EditField::Description => match &mut self.description {
                Some(d) => d.push(c),
                None => {
                    let mut d = String::new();
                    d.push(c);
                    self.description = Some(d);
                },
            },
        }
    }

    /// Erases the last character of `field`, if there is one.
    pub fn pop_char(&mut self, field: EditField)
        ensures
            final(self)@ == old(self)@.pop_char(field),
    {
        match field {
            EditField::Title => {
                self.title.pop();
            },
            EditField::Description => match &mut self.description {
                Some(d) => {
                    d.pop();
                },
                None => {},
            },
        }
    }

    /// What a task list shows about the completion of the task.
    pub fn completion(&self) -> (c: Completion)
        ensures
            c == self@.completion(),
    {
        match self.completed {
            Some(true) => Completion::Done,
            Some(false) => Completion::Pending,
            None => Completion::Unknown,
        }
    }
}

/// Switching the edited field twice comes back to the first field.
pub proof fn lemma_toggle_is_cyclic(field: EditField)
    ensures
        field.toggled().toggled() == field,
        field.toggled() != field,
{
}

/// Erasing undoes typing on a task: a character typed into a field and then
/// erased leaves the task as it was, but that a description that was missing
/// is now there and empty.
pub proof fn lemma_pop_undoes_push(task: TaskView, field: EditField, c: char)
    ensures
        field == EditField::Title || task.description is Some ==> task.push_char(field, c).pop_char(
            field,
        ) == task,
        field == EditField::Description && task.description is None ==> task.push_char(
            field,
            c,
        ).pop_char(field) == (TaskView { description: Some(Seq::<char>::empty()), ..task }),
{
    lemma_erase_undoes_typing(task.title, c);
    if task.description is Some {
        lemma_erase_undoes_typing(task.description->Some_0, c);
    } else {
        lemma_erase_undoes_typing(Seq::<char>::empty(), c);
    }
}

} // verus!
