//! The Notes view: a list of free-form notes with a Display mode (browse
//! with wraparound selection, delete, jump into editing) and two text-entry
//! modes (staging a new note, editing an existing one in place).

use vstd::prelude::*;
use vstd::string::{StrSliceExecFns, StringExecFns};

use crate::actions::{Action, ActionQueue, Screen};
use crate::keys::KeyCode;
use crate::selection::{
    select_after_remove_spec, select_next, select_next_spec, select_prev, select_prev_spec,
    sel_wf,
};

verus! {

/// A free-form note. It has no identity beyond its position in the owning
/// list.
pub struct Note {
    /// The note's text.
    pub content: String,
}

impl View for Note {
    type V = Seq<char>;

    open spec fn view(&self) -> Seq<char> {
        self.content@
    }
}

impl DeepView for Note {
    type V = Seq<char>;

    open spec fn deep_view(&self) -> Seq<char> {
        self.content@
    }
}

/// The first characters of a note's content, at most 20 of them, with a
/// trailing ellipsis: the caption shown for the note in the list.
pub open spec fn title_spec(content: Seq<char>) -> Seq<char> {
    (if content.len() <= 20 {
        content
    } else {
        content.take(20)
    }) + seq!['.', '.', '.']
}

impl Note {
    /// The caption shown for this note in the list.
    pub fn title(&self) -> (r: String)
        ensures
            r@ == title_spec(self.content@),
    {
        let s = self.content.as_str();
        let n = s.unicode_len();
        let k = if n <= 20 {
            n
        } else {
            20
        };
        let head = s.substring_char(0, k);
        let r = head.to_owned().concat("...");
        proof {
            reveal_strlit("...");
            assert(("..."@) =~= seq!['.', '.', '.']);
            assert(r@ =~= title_spec(self.content@));
        }
        r
    }
}

/// Which input handling the Notes view is in.
#[derive(Clone, Copy, PartialEq, Eq, Structural, Debug)]
pub enum NotesMode {
    /// Browsing the list of notes.
    DisplayList,
    /// Capturing the text of a new note in the staged input buffer.
    AddNew,
    /// Editing the content of the note at `selected_ix` in place.
    Edit {
        /// Index of the note being edited.
        selected_ix: usize,
    },
}

/// The mathematical state of the Notes view.
#[verifier::ext_equal]
pub struct NotesModel {
    /// The notes' contents, in list order.
    pub items: Seq<Seq<char>>,
    /// The selection cursor.
    pub selected: Option<usize>,
    /// The active mode.
    pub mode: NotesMode,
    /// The staged input buffer for a new note.
    pub input: Seq<char>,
}

/// The Notes view state.
pub struct Notes {
    /// The notes, in insertion order.
    pub items: Vec<Note>,
    /// The selection cursor over `items`.
    pub selected: Option<usize>,
    /// The active mode.
    pub mode: NotesMode,
    /// The staged input buffer for a new note.
    pub input_value: String,
}

impl View for Notes {
    type V = NotesModel;

    open spec fn view(&self) -> NotesModel {
        NotesModel {
            items: self.items.deep_view(),
            selected: self.selected,
            mode: self.mode,
            input: self.input_value@,
        }
    }
}

/// The Notes view invariant: the selection cursor is valid for the item
/// collection (absent when the collection is empty, in bounds otherwise).
pub open spec fn notes_wf(m: NotesModel) -> bool {
    sel_wf(m.selected, m.items.len())
}

/// One step of the Notes state machine in Display mode.
pub open spec fn notes_step_display(m: NotesModel, key: KeyCode) -> (NotesModel, Seq<Action>) {
    if key == KeyCode::Char('j') || key == KeyCode::Down {
        (
            NotesModel { selected: select_next_spec(m.selected, m.items.len() as usize), ..m },
            Seq::<Action>::empty(),
        )
    } else if key == KeyCode::Char('k') || key == KeyCode::Up {
        (
            NotesModel { selected: select_prev_spec(m.selected, m.items.len() as usize), ..m },
            Seq::<Action>::empty(),
        )
    } else if key == KeyCode::Char('n') {
        (NotesModel { mode: NotesMode::AddNew, ..m }, Seq::<Action>::empty())
    } else if key == KeyCode::Char('l') {
        match m.selected {
            Some(ix) => (
                NotesModel { mode: NotesMode::Edit { selected_ix: ix }, ..m },
                Seq::<Action>::empty(),
            ),
            None => (NotesModel { mode: NotesMode::AddNew, ..m }, Seq::<Action>::empty()),
        }
    } else if key == KeyCode::Char('d') {
        match m.selected {
            Some(ix) => if ix < m.items.len() {
                let items = m.items.remove(ix as int);
                (
                    NotesModel {
                        items,
                        selected: select_after_remove_spec(ix, items.len() as usize),
                        ..m
                    },
                    Seq::<Action>::empty(),
                )
            } else {
                (m, Seq::<Action>::empty())
            },
            None => (m, Seq::<Action>::empty()),
        }
    } else if key == KeyCode::Char('I') {
        (m, seq![Action::ChangeView(Screen::Instruments)])
    } else if key == KeyCode::Char('q') {
        (m, seq![Action::Quit])
    } else {
        (m, Seq::<Action>::empty())
    }
}

/// One step of the Notes state machine while staging a new note.
pub open spec fn notes_step_add_new(m: NotesModel, key: KeyCode) -> (NotesModel, Seq<Action>) {
    match key {
        KeyCode::Char(c) => (NotesModel { input: m.input.push(c), ..m }, Seq::<Action>::empty()),
        KeyCode::Backspace => (
            NotesModel {
                input: if m.input.len() > 0 {
                    m.input.drop_last()
                } else {
                    m.input
                },
                ..m
            },
            Seq::<Action>::empty(),
        ),
        KeyCode::Esc => (
            NotesModel { input: Seq::empty(), mode: NotesMode::DisplayList, ..m },
            Seq::<Action>::empty(),
        ),
        KeyCode::Enter => (
            NotesModel {
                items: m.items.push(m.input),
                input: Seq::empty(),
                mode: NotesMode::DisplayList,
                ..m
            },
            Seq::<Action>::empty(),
        ),
        _ => (m, Seq::<Action>::empty()),
    }
}

/// One step of the Notes state machine while editing the note at `ix`.
pub open spec fn notes_step_edit(m: NotesModel, key: KeyCode, ix: usize) -> (
    NotesModel,
    Seq<Action>,
) {
    if ix < m.items.len() {
        match key {
            KeyCode::Char(c) => (
                NotesModel { items: m.items.update(ix as int, m.items[ix as int].push(c)), ..m },
                Seq::<Action>::empty(),
            ),
            KeyCode::Backspace => (
                NotesModel {
                    items: m.items.update(
                        ix as int,
                        if m.items[ix as int].len() > 0 {
                            m.items[ix as int].drop_last()
                        } else {
                            m.items[ix as int]
                        },
                    ),
                    ..m
                },
                Seq::<Action>::empty(),
            ),
            KeyCode::Enter => (
                NotesModel { mode: NotesMode::DisplayList, ..m },
                Seq::<Action>::empty(),
            ),
            KeyCode::Esc => (
                NotesModel { mode: NotesMode::DisplayList, ..m },
                Seq::<Action>::empty(),
            ),
            _ => (m, Seq::<Action>::empty()),
        }
    } else {
        (NotesModel { mode: NotesMode::DisplayList, ..m }, Seq::<Action>::empty())
    }
}

/// One step of the Notes state machine: the new state and the actions the
/// view emits for the dispatcher.
pub open spec fn notes_step(m: NotesModel, key: KeyCode) -> (NotesModel, Seq<Action>) {
    match m.mode {
        NotesMode::DisplayList => notes_step_display(m, key),
        NotesMode::AddNew => notes_step_add_new(m, key),
        NotesMode::Edit { selected_ix } => notes_step_edit(m, key, selected_ix),
    }
}

/// Deleting the currently selected note never leaves the selection at or
/// past the end of the shrunken list: while notes remain, the new
/// selection is a valid index, and the selection invariant is preserved.
pub proof fn lemma_notes_delete_keeps_selection_in_bounds(m: NotesModel)
    requires
        notes_wf(m),
        m.items.len() <= usize::MAX,
        m.mode == NotesMode::DisplayList,
        m.selected is Some,
    ensures
        notes_wf(notes_step(m, KeyCode::Char('d')).0),
        notes_step(m, KeyCode::Char('d')).0.items.len() > 0 ==> (notes_step(
            m,
            KeyCode::Char('d'),
        ).0.selected matches Some(j) && j < notes_step(m, KeyCode::Char('d')).0.items.len()),
{
}

/// Committing the staged buffer appends exactly one note holding it and
/// clears the buffer; discarding with Escape appends nothing and also
/// clears the buffer. Either way the view returns to Display mode.
pub proof fn lemma_notes_commit_and_discard(m: NotesModel)
    requires
        m.mode == NotesMode::AddNew,
    ensures
        notes_step(m, KeyCode::Enter).0.items == m.items.push(m.input),
        notes_step(m, KeyCode::Enter).0.input == Seq::<char>::empty(),
        notes_step(m, KeyCode::Enter).0.mode == NotesMode::DisplayList,
        notes_step(m, KeyCode::Esc).0.items == m.items,
        notes_step(m, KeyCode::Esc).0.input == Seq::<char>::empty(),
        notes_step(m, KeyCode::Esc).0.mode == NotesMode::DisplayList,
{
}

/// The state a fresh Notes view starts in: one placeholder note, Display
/// mode, no selection, an empty staged buffer.
pub open spec fn notes_init() -> NotesModel {
    NotesModel {
        items: seq!["add new or edit note..."@],
        selected: None,
        mode: NotesMode::DisplayList,
        input: Seq::<char>::empty(),
    }
}

impl Notes {
    /// The view invariant, see [`notes_wf`].
    pub open spec fn wf(&self) -> bool {
        notes_wf(self@)
    }

    /// A fresh Notes view in the [`notes_init`] state.
    pub fn new() -> (r: Notes)
        ensures
            r@ =~~= notes_init(),
            r.wf(),
    {
        let mut items: Vec<Note> = Vec::new();
        items.push(Note { content: String::from_str("add new or edit note...") });
        Notes { items, selected: None, mode: NotesMode::DisplayList, input_value: String::new() }
    }

    /// Consume one key press, stepping the state machine and enqueueing the
    /// emitted actions.
    pub fn on_event(&mut self, key: KeyCode, q: &mut ActionQueue)
        requires
            old(self).wf(),
        ensures
            final(self)@ =~~= notes_step(old(self)@, key).0,
            final(q)@ =~= old(q)@ + notes_step(old(self)@, key).1,
            final(self).wf(),
    {
        match self.mode {
            NotesMode::DisplayList => {
                if key == KeyCode::Char('j') || key == KeyCode::Down {
                    self.selected = select_next(self.selected, self.items.len());
                } else if key == KeyCode::Char('k') || key == KeyCode::Up {
                    self.selected = select_prev(self.selected, self.items.len());
                } else if key == KeyCode::Char('n') {
                    self.mode = NotesMode::AddNew;
                } else if key == KeyCode::Char('l') {
                    match self.selected {
                        Some(ix) => {
                            self.mode = NotesMode::Edit { selected_ix: ix };
                        },
                        None => {
                            self.mode = NotesMode::AddNew;
                        },
                    }
                } else if key == KeyCode::Char('d') {
                    if let Some(ix) = self.selected {
                        self.items.remove(ix);
                        let new_len = self.items.len();
                        self.selected = if new_len == 0 {
                            None
                        } else if ix < new_len {
                            Some(ix)
                        } else {
                            Some(new_len - 1)
                        };
                    }
                } else if key == KeyCode::Char('I') {
                    q.push(Action::ChangeView(Screen::Instruments));
                } else if key == KeyCode::Char('q') {
                    q.push(Action::Quit);
                }
            },
            NotesMode::AddNew => {
                match key {
                    KeyCode::Char(c) => {
                        self.input_value.push(c);
                    },
                    KeyCode::Backspace => {
                        self.input_value.pop();
                    },
                    KeyCode::Esc => {
                        self.input_value.clear();
                        self.mode = NotesMode::DisplayList;
                    },
                    KeyCode::Enter => {
                        let content = self.input_value.clone();
                        self.items.push(Note { content });
                        self.input_value.clear();
                        self.mode = NotesMode::DisplayList;
                    },
                    _ => {},
                }
            },
            NotesMode::Edit { selected_ix } => {
                if selected_ix < self.items.len() {
                    match key {
                        KeyCode::Char(c) => {
                            let note = &mut self.items[selected_ix];
                            note.content.push(c);
                        },
                        KeyCode::Backspace => {
                            let note = &mut self.items[selected_ix];
                            note.content.pop();
                        },
                        KeyCode::Enter | KeyCode::Esc => {
                            self.mode = NotesMode::DisplayList;
                        },
                        _ => {},
                    }
                } else {
                    self.mode = NotesMode::DisplayList;
                }
            },
        }
    }

    /// The Notes view interprets no application-wide actions: consuming one
    /// leaves the view unchanged.
    pub fn on_action(&mut self, _action: Option<Action>)
        ensures
            final(self)@ == old(self)@,
    {
    }
}

} // verus!
