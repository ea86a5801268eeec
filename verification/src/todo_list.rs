//! The Todo view: a checklist with a Display mode (browse with wraparound
//! selection, toggle done, delete) and an Insert mode that stages the text
//! of a new item.

use vstd::prelude::*;

use crate::actions::{Action, ActionQueue, Screen};
use crate::keys::KeyCode;
use crate::selection::{
    select_after_remove_spec, select_next, select_next_spec, select_prev, select_prev_spec,
    sel_wf,
};

verus! {

/// One checklist entry.
pub struct TodoItem {
    /// Whether the entry has been checked off.
    pub is_done: bool,
    /// The entry's text.
    pub description: String,
}

/// The mathematical state of one checklist entry.
#[verifier::ext_equal]
pub struct TodoItemModel {
    /// Whether the entry has been checked off.
    pub is_done: bool,
    /// The entry's text.
    pub description: Seq<char>,
}

impl View for TodoItem {
    type V = TodoItemModel;

    open spec fn view(&self) -> TodoItemModel {
        TodoItemModel { is_done: self.is_done, description: self.description@ }
    }
}

impl DeepView for TodoItem {
    type V = TodoItemModel;

    open spec fn deep_view(&self) -> TodoItemModel {
        self.view()
    }
}

/// What one key in Insert mode asks the owning list to do with the staged
/// entry.
pub enum FormAction {
    /// Keep capturing input.
    Stay,
    /// Commit: append this entry to the list.
    Submit(TodoItem),
    /// Discard the staged input and leave Insert mode.
    Escape,
}

/// Which input handling the Todo view is in.
#[derive(Clone, Copy, PartialEq, Eq, Structural, Debug)]
pub enum TodoListMode {
    /// Browsing the checklist.
    Display,
    /// Capturing the text of a new entry in the staged input buffer.
    Insert,
}

/// The mathematical state of the Todo view.
#[verifier::ext_equal]
pub struct TodoModel {
    /// The entries, in list order.
    pub items: Seq<TodoItemModel>,
    /// The selection cursor.
    pub selected: Option<usize>,
    /// The active mode.
    pub mode: TodoListMode,
    /// The staged input buffer for a new entry.
    pub input: Seq<char>,
}

/// The Todo view state.
pub struct TodoList {
    /// The checklist entries, in insertion order.
    pub items: Vec<TodoItem>,
    /// The selection cursor over `items`.
    pub selected: Option<usize>,
    /// The active mode.
    pub mode: TodoListMode,
    /// The staged input buffer for a new entry.
    pub input_value: String,
}

impl View for TodoList {
    type V = TodoModel;

    open spec fn view(&self) -> TodoModel {
        TodoModel {
            items: self.items.deep_view(),
            selected: self.selected,
            mode: self.mode,
            input: self.input_value@,
        }
    }
}

/// The Todo view invariant: the selection cursor is valid for the item
/// collection.
pub open spec fn todo_wf(m: TodoModel) -> bool {
    sel_wf(m.selected, m.items.len())
}

/// One step of the Todo state machine in Display mode.
pub open spec fn todo_step_display(m: TodoModel, key: KeyCode) -> (TodoModel, Seq<Action>) {
    if key == KeyCode::Down {
        (
            TodoModel { selected: select_next_spec(m.selected, m.items.len() as usize), ..m },
            Seq::<Action>::empty(),
        )
    } else if key == KeyCode::Up {
        (
            TodoModel { selected: select_prev_spec(m.selected, m.items.len() as usize), ..m },
            Seq::<Action>::empty(),
        )
    } else if key == KeyCode::Char('n') {
        (TodoModel { mode: TodoListMode::Insert, ..m }, Seq::<Action>::empty())
    } else if key == KeyCode::Char(' ') {
        match m.selected {
            Some(ix) => if ix < m.items.len() {
                (
                    TodoModel {
                        items: m.items.update(
                            ix as int,
                            TodoItemModel {
                                is_done: !m.items[ix as int].is_done,
                                ..m.items[ix as int]
                            },
                        ),
                        ..m
                    },
                    Seq::<Action>::empty(),
                )
            } else {
                (m, Seq::<Action>::empty())
            },
            None => (m, Seq::<Action>::empty()),
        }
    } else if key == KeyCode::Delete {
        match m.selected {
            Some(ix) => if ix < m.items.len() {
                let items = m.items.remove(ix as int);
                (
                    TodoModel {
                        items,
                        selected: select_after_remove_spec(ix, items.len() as usize),
                        ..m
                    },
                    Seq::<Action>::empty(),
                )
            } else {
                (m, Seq::<Action>::empty())
            },
            None => (m, Seq::<Action>::empty()),
        }
    } else if key == KeyCode::Char('i') {
        (m, seq![Action::ChangeView(Screen::Instruments)])
    } else if key == KeyCode::Char('q') {
        (m, seq![Action::Quit])
    } else {
        (m, Seq::<Action>::empty())
    }
}

/// One step of the Todo state machine while staging a new entry.
pub open spec fn todo_step_insert(m: TodoModel, key: KeyCode) -> (TodoModel, Seq<Action>) {
    match key {
        KeyCode::Char(c) => (TodoModel { input: m.input.push(c), ..m }, Seq::<Action>::empty()),
        KeyCode::Backspace => (
            TodoModel {
                input: if m.input.len() > 0 {
                    m.input.drop_last()
                } else {
                    m.input
                },
                ..m
            },
            Seq::<Action>::empty(),
        ),
        KeyCode::Esc => (
            TodoModel { input: Seq::empty(), mode: TodoListMode::Display, ..m },
            Seq::<Action>::empty(),
        ),
        KeyCode::Enter => (
            TodoModel {
                items: m.items.push(TodoItemModel { is_done: false, description: m.input }),
                input: Seq::empty(),
                mode: TodoListMode::Display,
                ..m
            },
            Seq::<Action>::empty(),
        ),
        _ => (m, Seq::<Action>::empty()),
    }
}

/// One step of the Todo state machine: the new state and the actions the
/// view emits for the dispatcher.
pub open spec fn todo_step(m: TodoModel, key: KeyCode) -> (TodoModel, Seq<Action>) {
    match m.mode {
        TodoListMode::Display => todo_step_display(m, key),
        TodoListMode::Insert => todo_step_insert(m, key),
    }
}

/// Deleting the currently selected entry never leaves the selection at or
/// past the end of the shrunken checklist: while entries remain, the new
/// selection is a valid index, and the selection invariant is preserved.
pub proof fn lemma_todo_delete_keeps_selection_in_bounds(m: TodoModel)
    requires
        todo_wf(m),
        m.items.len() <= usize::MAX,
        m.mode == TodoListMode::Display,
        m.selected is Some,
    ensures
        todo_wf(todo_step(m, KeyCode::Delete).0),
        todo_step(m, KeyCode::Delete).0.items.len() > 0 ==> (todo_step(
            m,
            KeyCode::Delete,
        ).0.selected matches Some(j) && j < todo_step(m, KeyCode::Delete).0.items.len()),
{
}

/// Committing the staged buffer appends exactly one unchecked entry
/// holding it and clears the buffer; discarding with Escape appends
/// nothing and also clears the buffer. Either way the view returns to
/// Display mode.
pub proof fn lemma_todo_commit_and_discard(m: TodoModel)
    requires
        m.mode == TodoListMode::Insert,
    ensures
        todo_step(m, KeyCode::Enter).0.items == m.items.push(
            TodoItemModel { is_done: false, description: m.input },
        ),
        todo_step(m, KeyCode::Enter).0.input == Seq::<char>::empty(),
        todo_step(m, KeyCode::Enter).0.mode == TodoListMode::Display,
        todo_step(m, KeyCode::Esc).0.items == m.items,
        todo_step(m, KeyCode::Esc).0.input == Seq::<char>::empty(),
        todo_step(m, KeyCode::Esc).0.mode == TodoListMode::Display,
{
}

/// The state a fresh Todo view starts in: one placeholder entry, Display
/// mode, no selection, an empty staged buffer.
pub open spec fn todo_init() -> TodoModel {
    TodoModel {
        items: seq![TodoItemModel { is_done: false, description: " add new items here "@ }],
        selected: None,
        mode: TodoListMode::Display,
        input: Seq::<char>::empty(),
    }
}

impl Default for TodoList {
    /// A fresh Todo view in the [`todo_init`] state.
    fn default() -> (r: TodoList)
        ensures
            r@ =~~= todo_init(),
            r.wf(),
    {
        let mut items: Vec<TodoItem> = Vec::new();
        items.push(
            TodoItem { is_done: false, description: String::from_str(" add new items here ") },
        );
        TodoList {
            items,
            selected: None,
            mode: TodoListMode::Display,
            input_value: String::new(),
        }
    }
}

impl TodoList {
    /// The view invariant, see [`todo_wf`].
    pub open spec fn wf(&self) -> bool {
        todo_wf(self@)
    }

    /// Consume one key press, stepping the state machine and enqueueing the
    /// emitted actions.
    pub fn on_event(&mut self, key: KeyCode, q: &mut ActionQueue)
        requires
            old(self).wf(),
        ensures
            final(self)@ =~~= todo_step(old(self)@, key).0,
            final(q)@ =~= old(q)@ + todo_step(old(self)@, key).1,
            final(self).wf(),
    {
        match self.mode {
            TodoListMode::Display => {
                if key == KeyCode::Down {
                    self.selected = select_next(self.selected, self.items.len());
                } else if key == KeyCode::Up {
                    self.selected = select_prev(self.selected, self.items.len());
                } else if key == KeyCode::Char('n') {
                    self.mode = TodoListMode::Insert;
                } else if key == KeyCode::Char(' ') {
                    if let Some(ix) = self.selected {
                        let item = &mut self.items[ix];
                        item.is_done = !item.is_done;
                    }
                } else if key == KeyCode::Delete {
                    if let Some(ix) = self.selected {
                        self.items.remove(ix);
                        let new_len = self.items.len();
                        self.selected = if new_len == 0 {
                            None
                        } else if ix < new_len {
                            Some(ix)
                        } else {
                            Some(new_len - 1)
                        };
                    }
                } else if key == KeyCode::Char('i') {
                    q.push(Action::ChangeView(Screen::Instruments));
                } else if key == KeyCode::Char('q') {
                    q.push(Action::Quit);
                }
            },
            TodoListMode::Insert => {
                match TodoListMode::handle_list_insert(self, key) {
                    FormAction::Stay => {},
                    FormAction::Submit(item) => {
                        self.items.push(item);
                        self.input_value.clear();
                        self.mode = TodoListMode::Display;
                    },
                    FormAction::Escape => {
                        self.mode = TodoListMode::Display;
                        self.input_value.clear();
                    },
                }
            },
        }
    }
}

impl TodoListMode {
    /// Interpret one Insert-mode key press: capture it in the staged input
    /// buffer, or tell the list to commit or discard the staged entry.
    pub fn handle_list_insert(td_list: &mut TodoList, key_event: KeyCode) -> (r: FormAction)
        ensures
            final(td_list)@.items == old(td_list)@.items,
            final(td_list)@.selected == old(td_list)@.selected,
            final(td_list)@.mode == old(td_list)@.mode,
            key_event matches KeyCode::Char(c) ==> final(td_list)@.input == old(
                td_list,
            )@.input.push(c) && r is Stay,
            key_event == KeyCode::Backspace ==> final(td_list)@.input == (if old(
                td_list,
            )@.input.len() > 0 {
                old(td_list)@.input.drop_last()
            } else {
                old(td_list)@.input
            }) && r is Stay,
            key_event == KeyCode::Esc ==> final(td_list)@.input == old(td_list)@.input && r
                is Escape,
            key_event == KeyCode::Enter ==> final(td_list)@.input == old(td_list)@.input && (
            r matches FormAction::Submit(item) && item@.is_done == false && item@.description
                == old(td_list)@.input),
            !(key_event matches KeyCode::Char(_)) && key_event != KeyCode::Backspace && key_event
                != KeyCode::Esc && key_event != KeyCode::Enter ==> final(td_list)@.input == old(
                td_list,
            )@.input && r is Stay,
    {
        match key_event {
            KeyCode::Char(c) => {
                td_list.input_value.push(c);
                FormAction::Stay
            },
            KeyCode::Backspace => {
                td_list.input_value.pop();
                FormAction::Stay
            },
            KeyCode::Esc => FormAction::Escape,
            KeyCode::Enter => FormAction::Submit(
                TodoItem { is_done: false, description: td_list.input_value.clone() },
            ),
            _ => FormAction::Stay,
        }
    }
}

} // verus!
