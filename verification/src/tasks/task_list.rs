use super::task::{EditField, Task, TaskView};
use ratatui::widgets::ListState;
use vstd::prelude::*;

verus! {

/// `ratatui::widgets::ListState`, the selection and scroll state of a list on
/// screen. Its fields are private to `ratatui`; here it is an opaque value
/// that is spoken of through [`list_selected`].
#[verifier::external_type_specification]
#[verifier::external_body]
pub struct ExListState(ListState);

/// The index that a `ListState` holds as selected, if it holds one.
pub uninterp spec fn list_selected(state: ListState) -> Option<usize>;

/// `ListState::default` is a state in which nothing is selected.
#[verifier::external_body]
fn list_state_new() -> (state: ListState)
    ensures
        list_selected(state) is None,
{
    ListState::default()
}

/// `ListState::selected` reads the selected index.
pub assume_specification[ ListState::selected ](state: &ListState) -> (index: Option<usize>)
    ensures
        index == list_selected(*state),
;

/// `ListState::select` stores `index` as the selection, whatever it is: the
/// state knows no length to hold it against.
pub assume_specification[ ListState::select ](state: &mut ListState, index: Option<usize>)
    ensures
        list_selected(*final(state)) == index,
;

/// `ListState::select_next` selects the index after the selected one, stopping
/// at `usize::MAX`, and index 0 where nothing was selected.
pub assume_specification[ ListState::select_next ](state: &mut ListState)
    ensures
        list_selected(*final(state)) == Some(
            match list_selected(*old(state)) {
                Some(i) => if i < usize::MAX {
                    (i + 1) as usize
                } else {
                    i
                },
                None => 0usize,
            },
        ),
;

/// `ListState::select_previous` selects the index before the selected one,
/// stopping at 0, and `usize::MAX` where nothing was selected.
pub assume_specification[ ListState::select_previous ](state: &mut ListState)
    ensures
        list_selected(*final(state)) == Some(
            match list_selected(*old(state)) {
                Some(i) => if i > 0 {
                    (i - 1) as usize
                } else {
                    i
                },
                None => usize::MAX,
            },
        ),
;

/// `ListState::select_first` selects index 0.
pub assume_specification[ ListState::select_first ](state: &mut ListState)
    ensures
        list_selected(*final(state)) == Some(0usize),
;

/// `ListState::select_last` selects `usize::MAX`, which stands for the last
/// item until it is held against a length.
pub assume_specification[ ListState::select_last ](state: &mut ListState)
    ensures
        list_selected(*final(state)) == Some(usize::MAX),
;

/// The views of the tasks of a sequence, in the same order.
pub open spec fn task_views(tasks: Seq<Task>) -> Seq<TaskView> {
    tasks.map_values(|t: Task| t@)
}

/// A requested selection held against a list of `len` items: nothing can be
/// selected in an empty list, and an index past the end means the last item.
pub open spec fn clamp_selection(len: nat, wanted: Option<int>) -> Option<int> {
    match wanted {
        Some(i) => if len == 0 {
            None
        } else if i >= len {
            Some(len - 1)
        } else if i < 0 {
            Some(0)
        } else {
            Some(i)
        },
        None => None,
    }
}

/// One step of moving the selection.
#[derive(Debug, Clone, Copy, PartialEq, Eq, Structural)]
pub enum Navigation {
    Next,
    Previous,
    First,
    Last,
    Clear,
}

/// The mathematical value of a [`TaskList`]: the tasks in display order and
/// the index of the selected one.
pub struct TaskListView {
    pub items: Seq<TaskView>,
    pub selected: Option<int>,
}

impl TaskListView {
    /// The selection, if there is one, is the index of a task.
    pub open spec fn wf(self) -> bool {
        self.selected matches Some(i) ==> 0 <= i < self.items.len()
    }

    /// The list with `wanted` selected, as far as the list reaches.
    pub open spec fn select(self, wanted: Option<int>) -> TaskListView {
        TaskListView { selected: clamp_selection(self.items.len(), wanted), ..self }
    }

    /// The list with nothing selected.
    pub open spec fn select_none(self) -> TaskListView {
        TaskListView { selected: None, ..self }
    }

    /// One step down, stopping at the last task. With nothing selected the
    /// first task is selected.
    pub open spec fn select_next(self) -> TaskListView {
        self.select(
            Some(
                match self.selected {
                    Some(i) => i + 1,
                    None => 0,
                },
            ),
        )
    }

    /// One step up, stopping at the first task. With nothing selected the
    /// last task is selected.
    pub open spec fn select_previous(self) -> TaskListView {
        self.select(
            Some(
                match self.selected {
                    Some(i) => i - 1,
                    None => self.items.len() - 1,
                },
            ),
        )
    }

    /// The first task selected, if there is one.
    pub open spec fn select_first(self) -> TaskListView {
        self.select(Some(0))
    }

    /// The last task selected, if there is one.
    pub open spec fn select_last(self) -> TaskListView {
        self.select(Some(self.items.len() - 1))
    }

    /// The list after one navigation step.
    pub open spec fn navigate(self, step: Navigation) -> TaskListView {
        match step {
            Navigation::Next => self.select_next(),
            Navigation::Previous => self.select_previous(),
            Navigation::First => self.select_first(),
            Navigation::Last => self.select_last(),
            Navigation::Clear => self.select_none(),
        }
    }

    /// The list after a sequence of navigation steps, taken in order.
    pub open spec fn navigate_all(self, steps: Seq<Navigation>) -> TaskListView
        decreases steps.len(),
    {
        if steps.len() == 0 {
            self
        } else {
            self.navigate_all(steps.drop_last()).navigate(steps.last())
        }
    }

    /// The list with `task` appended. The selection stays where it is.
    pub open spec fn push(self, task: TaskView) -> TaskListView {
        TaskListView { items: self.items.push(task), ..self }
    }

    /// The list without the task at `index`. The selection keeps its index
    /// where a task is left there, moves to the last task where not, and is
    /// dropped where the list has become empty.
    pub open spec fn remove(self, index: int) -> TaskListView {
        let items = self.items.remove(index);
        TaskListView { items, selected: clamp_selection(items.len(), self.selected) }
    }

    /// The list with the task at `index` replaced by `task`.
    pub open spec fn update(self, index: int, task: TaskView) -> TaskListView {
        TaskListView { items: self.items.update(index, task), ..self }
    }
}

/// The task store: the tasks in display order, and which of them is
/// highlighted. The highlighted index is kept in a `ratatui` list state, so
/// that it moves exactly as a `ratatui` list moves it; this type holds it
/// against the number of tasks after every change.
#[derive(Debug)]
pub struct TaskList {
    items: Vec<Task>,
    state: ListState,
}

impl View for TaskList {
    type V = TaskListView;

    closed spec fn view(&self) -> TaskListView {
        TaskListView {
            items: task_views(self.items@),
            selected: match list_selected(self.state) {
                Some(i) => Some(i as int),
                None => None,
            },
        }
    }
}

impl TaskList {
    /// A store of `items`, with nothing selected.
    pub fn new(items: Vec<Task>) -> (list: TaskList)
        ensures
            list@.wf(),
            list@.items == task_views(items@),
            list@.selected is None,
    {
        TaskList { items, state: list_state_new() }
    }

    /// The number of tasks.
    pub fn len(&self) -> (n: usize)
        ensures
            n == self@.items.len(),
    {
        self.items.len()
    }

    /// Whether the store holds no task.
    pub fn is_empty(&self) -> (b: bool)
        ensures
            b == (self@.items.len() == 0),
    {
        self.items.len() == 0
    }

    /// The task at `index`.
    pub fn get(&self, index: usize) -> (task: &Task)
        requires
            index < self@.items.len(),
        ensures
            task@ == self@.items[index as int],
    {
        &self.items[index]
    }

    /// The index of the selected task.
    pub fn selected(&self) -> (index: Option<usize>)
        ensures
            (index is Some) == (self@.selected is Some),
            index matches Some(i) ==> self@.selected == Some(i as int),
    {
        self.state.selected()
    }

    /// Holds the selection against the number of tasks, as a `ratatui` list
    /// does when it is drawn.
    fn clamp(&mut self)
        ensures
            final(self).items == old(self).items,
            final(self)@ == old(self)@.select(old(self)@.selected),
            final(self)@.wf(),
    {
        let len = self.items.len();
        match self.state.selected() {
            Some(i) => {
                if len == 0 {
                    self.state.select(None);
                } else if i >= len {
                    self.state.select(Some(len - 1));
                }
            },
            None => {},
        }
    }

    /// Selects `index`; an index past the end selects the last task, and in
    /// an empty store nothing is selected.
    pub fn select(&mut self, index: Option<usize>)
        ensures
            final(self)@ == old(self)@.select(
                match index {
                    Some(i) => Some(i as int),
                    None => None,
                },
            ),
            final(self)@.wf(),
    {
        self.state.select(index);
        self.clamp();
    }

    /// Drops the selection.
    pub fn select_none(&mut self)
        ensures
            final(self)@ == old(self)@.select_none(),
            final(self)@.wf(),
    {
        self.state.select(None);
    }

    /// Moves the selection one task down.
    pub fn select_next(&mut self)
        requires
            old(self)@.wf(),
        ensures
            final(self)@ == old(self)@.select_next(),
            final(self)@.wf(),
    {
        proof {
            // A vector's length is a `usize`, so no index of it is `usize::MAX`.
            assert(self.items.len() == self.items@.len());
        }
        self.state.select_next();
        self.clamp();
    }

    /// Moves the selection one task up.
    pub fn select_previous(&mut self)
        requires
            old(self)@.wf(),
        ensures
            final(self)@ == old(self)@.select_previous(),
            final(self)@.wf(),
    {
        proof {
            // A vector's length is a `usize`, so no index of it is `usize::MAX`.
            assert(self.items.len() == self.items@.len());
        }
        self.state.select_previous();
        self.clamp();
    }

    /// Selects the first task.
    pub fn select_first(&mut self)
        ensures
            final(self)@ == old(self)@.select_first(),
            final(self)@.wf(),
    {
        self.state.select_first();
        self.clamp();
    }

    /// Selects the last task.
    pub fn select_last(&mut self)
        ensures
            final(self)@ == old(self)@.select_last(),
            final(self)@.wf(),
    {
        proof {
            // A vector's length is a `usize`, so no index of it is `usize::MAX`.
            assert(self.items.len() == self.items@.len());
        }
        self.state.select_last();
        self.clamp();
    }

    /// Takes one navigation step.
    pub fn navigate(&mut self, step: Navigation)
        requires
            old(self)@.wf(),
        ensures
            final(self)@ == old(self)@.navigate(step),
            final(self)@.wf(),
    {
        match step {
            Navigation::Next => self.select_next(),
            Navigation::Previous => self.select_previous(),
            Navigation::First => self.select_first(),
            Navigation::Last => self.select_last(),
            Navigation::Clear => self.select_none(),
        }
    }

    /// Appends `task`. The selection stays where it is.
    pub fn push(&mut self, task: Task)
        requires
            old(self)@.wf(),
        ensures
            final(self)@ == old(self)@.push(task@),
            final(self)@.wf(),
    {
        self.items.push(task);
        assert(task_views(self.items@) =~= task_views(old(self).items@).push(task@));
    }

    /// Removes the task at `index` and returns it. The selection is held
    /// against the shorter list.
    pub fn remove(&mut self, index: usize) -> (task: Task)
        requires
            index < old(self)@.items.len(),
        ensures
            task@ == old(self)@.items[index as int],
            final(self)@ == old(self)@.remove(index as int),
            final(self)@.wf(),
    {
        let task = self.items.remove(index);
        assert(task_views(self.items@) =~= task_views(old(self).items@).remove(index as int));
        self.clamp();
        task
    }

    /// Types `c` at the end of `field` of the task at `index`.
    pub fn push_char(&mut self, index: usize, field: EditField, c: char)
        requires
            index < old(self)@.items.len(),
        ensures
            final(self)@ == old(self)@.update(
                index as int,
                old(self)@.items[index as int].push_char(field, c),
            ),
    {
        self.items[index].push_char(field, c);
        assert(task_views(self.items@) =~= task_views(old(self).items@).update(
            index as int,
            old(self).items@[index as int]@.push_char(field, c),
        ));
    }

    /// Erases the last character of `field` of the task at `index`, if there
    /// is one.
    pub fn pop_char(&mut self, index: usize, field: EditField)
        requires
            index < old(self)@.items.len(),
        ensures
            final(self)@ == old(self)@.update(
                index as int,
                old(self)@.items[index as int].pop_char(field),
            ),
    {
        self.items[index].pop_char(field);
        assert(task_views(self.items@) =~= task_views(old(self).items@).update(
            index as int,
            old(self).items@[index as int]@.pop_char(field),
        ));
    }
}

/// Navigation never leaves the selection outside the list: from a list whose
/// selection is valid, every sequence of navigation steps ends in a list with
/// the same tasks whose selection is valid.
pub proof fn lemma_navigation_keeps_selection_valid(list: TaskListView, steps: Seq<Navigation>)
    requires
        list.wf(),
    ensures
        list.navigate_all(steps).wf(),
        list.navigate_all(steps).items == list.items,
    decreases steps.len(),
{
    if steps.len() > 0 {
        lemma_navigation_keeps_selection_valid(list, steps.drop_last());
    }
}

/// Removing one task leaves one task fewer: the tasks before it stay where
/// they are, the tasks after it move up by one, and the selection is valid.
pub proof fn lemma_remove_takes_exactly_one(list: TaskListView, index: int)
    requires
        0 <= index < list.items.len(),
    ensures
        list.remove(index).wf(),
        list.remove(index).items.len() == list.items.len() - 1,
        forall|i: int| 0 <= i < index ==> list.remove(index).items[i] == list.items[i],
        forall|i: int|
            index <= i < list.items.len() - 1 ==> list.remove(index).items[i] == list.items[i + 1],
        list.items.len() == 1 ==> list.remove(index).selected is None,
{
}

} // verus!
