use super::app::Screen;
use crate::tasks::task::{Completion, EditField, TaskView};
use crate::tasks::task_list::{TaskList, TaskListView};
use vstd::prelude::*;
use vstd::string::StringExecFns;

verus! {

/// The line of key hints under the list, by screen.
pub open spec fn hint(screen: Screen) -> Seq<char> {
    match screen {
        Screen::Browsing =>
            "(jk) to move, (h) to unselect, (g)/(G) to top/bottom, (o) to add, (i) to edit, (q) quit"@,
        Screen::Editing(_) => "editing ✍️ (Enter) to save, (Tab) to switch fields"@,
        Screen::ConfirmingExit =>
            "Are you sure you want to quit? (y) to confirm, (q) or (n) to cancel"@,
    }
}

/// The mark in front of the selected task: a writing hand while its title is
/// edited, an arrow otherwise.
pub open spec fn marker(screen: Screen) -> Seq<char> {
    if screen == Screen::Editing(EditField::Title) {
        "✍️"@
    } else {
        ">"@
    }
}

/// The heading of the preview pane: it carries the writing hand while the
/// description is edited.
pub open spec fn heading(screen: Screen) -> Seq<char> {
    if screen == Screen::Editing(EditField::Description) {
        "Preview ✍️"@
    } else {
        "Preview"@
    }
}

/// The description of a task as it is shown: a missing one shows as empty.
pub open spec fn shown_description(task: TaskView) -> Seq<char> {
    match task.description {
        Some(d) => d,
        None => Seq::empty(),
    }
}

/// The text of the preview pane: the description of the selected task behind
/// its completion state, nothing for a task whose state is unknown, and a
/// prompt where no task is selected.
pub open spec fn preview(tasks: TaskListView) -> Seq<char> {
    match tasks.selected {
        Some(i) => match tasks.items[i].completion() {
            Completion::Done => "[x] DONE: "@ + shown_description(tasks.items[i]),
            Completion::Pending => "[ ] TODO: "@ + shown_description(tasks.items[i]),
            Completion::Unknown => Seq::empty(),
        },
        None => "Select an item.."@,
    }
}

/// The line of key hints under the list.
pub fn footer_hint(screen: Screen) -> (text: &'static str)
    ensures
        text@ == hint(screen),
{
    match screen {
        Screen::Browsing =>
            "(jk) to move, (h) to unselect, (g)/(G) to top/bottom, (o) to add, (i) to edit, (q) quit",
        Screen::Editing(_) => "editing ✍️ (Enter) to save, (Tab) to switch fields",
        Screen::ConfirmingExit =>
            "Are you sure you want to quit? (y) to confirm, (q) or (n) to cancel",
    }
}

/// The mark in front of the selected task.
pub fn highlight_symbol(screen: Screen) -> (text: &'static str)
    ensures
        text@ == marker(screen),
{
    match screen {
        Screen::Editing(EditField::Title) => "✍️",
        _ => ">",
    }
}

/// The heading of the preview pane.
pub fn preview_title(screen: Screen) -> (text: &'static str)
    ensures
        text@ == heading(screen),
{
    match screen {
        Screen::Editing(EditField::Description) => "Preview ✍️",
        _ => "Preview",
    }
}

/// The text of the preview pane.
pub fn preview_text(tasks: &TaskList) -> (text: String)
    requires
        tasks@.wf(),
    ensures
        text@ == preview(tasks@),
{
    match tasks.selected() {
        Some(i) => {
            let task = tasks.get(i);
            let mut text = match task.completion() {
                Completion::Done => "[x] DONE: ".to_string(),
                Completion::Pending => "[ ] TODO: ".to_string(),
                Completion::Unknown => {
                    return String::new();
                },
            };
            match &task.description {
                Some(d) => text.append(d.as_str()),
                None => {
                    assert(text@ + Seq::<char>::empty() =~= text@);
                },
            }
            text
        },
        None => "Select an item..".to_string(),
    }
}

} // verus!
