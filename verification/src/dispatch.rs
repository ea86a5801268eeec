//! The dispatcher: the application state that the run loop drives, and the
//! routing of key events and actions to the active view.
//!
//! The run loop itself lives outside this crate (it waits on the terminal
//! and on the action queue); every decision it takes — who consumes an
//! event, what an action does, when the loop must stop — is made here.

use vstd::prelude::*;

use crate::actions::{Action, ActionQueue, Screen};
use crate::instruments::{instruments_step, instruments_wf, Instrument, InstrumentList, InstrumentsModel};
use crate::keys::{KeyEvent, KeyEventKind};
use crate::notes::{notes_init, notes_step, notes_wf, Notes, NotesModel};
use crate::todo_list::{todo_init, todo_step, todo_wf, TodoList, TodoModel};

verus! {

/// The mathematical state of the whole application.
#[verifier::ext_equal]
pub struct StateModel {
    /// The screen that currently consumes input and is rendered.
    pub current_view: Screen,
    /// The Instruments view state.
    pub instruments: InstrumentsModel,
    /// The Notes view state.
    pub notes: NotesModel,
    /// The Todo view state.
    pub todo: TodoModel,
    /// The sole termination signal: once false, the run loop exits after
    /// completing its current iteration.
    pub running: bool,
}

/// The application state: one instance of each view's state, the current
/// view, and the termination signal.
pub struct State {
    /// The screen that currently consumes input and is rendered.
    pub current_view: Screen,
    /// The Instruments view state.
    pub instruments: InstrumentList,
    /// The Notes view state.
    pub notes: Notes,
    /// The Todo view state.
    pub todo: TodoList,
    /// The sole termination signal; the run loop exits once it is false.
    pub running: bool,
}

impl View for State {
    type V = StateModel;

    open spec fn view(&self) -> StateModel {
        StateModel {
            current_view: self.current_view,
            instruments: self.instruments@,
            notes: self.notes@,
            todo: self.todo@,
            running: self.running,
        }
    }
}

/// The application invariant: every view's own invariant holds.
pub open spec fn state_wf(s: StateModel) -> bool {
    &&& instruments_wf(s.instruments)
    &&& notes_wf(s.notes)
    &&& todo_wf(s.todo)
}

/// How one key event steps the application: a release is ignored, a press
/// is delegated to the active view's state machine, which may emit actions.
pub open spec fn step_key(s: StateModel, ev: KeyEvent) -> (StateModel, Seq<Action>) {
    if ev.kind != KeyEventKind::Press {
        (s, Seq::<Action>::empty())
    } else {
        match s.current_view {
            Screen::Instruments => {
                let r = instruments_step(s.instruments, ev.code);
                (StateModel { instruments: r.0, ..s }, r.1)
            },
            Screen::Notes => {
                let r = notes_step(s.notes, ev.code);
                (StateModel { notes: r.0, ..s }, r.1)
            },
            Screen::Todo => {
                let r = todo_step(s.todo, ev.code);
                (StateModel { todo: r.0, ..s }, r.1)
            },
        }
    }
}

/// How one action changes the application: `Quit` clears the termination
/// signal, `ChangeView` atomically replaces the current view, and anything
/// else is delegated to the active view, none of which interprets an
/// action today, so the state is unchanged.
pub open spec fn apply_action(s: StateModel, a: Action) -> StateModel {
    match a {
        Action::Quit => StateModel { running: false, ..s },
        Action::ChangeView(v) => StateModel { current_view: v, ..s },
        Action::RequestChartRefresh => s,
    }
}

impl State {
    /// The application invariant, see [`state_wf`].
    pub open spec fn wf(&self) -> bool {
        state_wf(self@)
    }

    /// The state at startup: the Instruments view over the given catalogue
    /// is current, the other views are freshly constructed, and the run
    /// loop is to keep running.
    pub fn new(catalogue: Vec<Instrument>) -> (r: State)
        ensures
            r@.current_view == Screen::Instruments,
            r@.running == true,
            r@.instruments.instruments =~~= catalogue.deep_view(),
            r@.instruments.selected == (if catalogue@.len() > 0 {
                Some(0usize)
            } else {
                None::<usize>
            }),
            r@.instruments.scroll_position == 0,
            r@.instruments.chart is None,
            r@.notes =~~= notes_init(),
            r@.todo =~~= todo_init(),
            r.wf(),
    {
        State {
            current_view: Screen::Instruments,
            instruments: InstrumentList::new(catalogue),
            notes: Notes::new(),
            todo: TodoList::default(),
            running: true,
        }
    }

    /// Consume one terminal key event: presses go to the active view,
    /// whose emitted actions are enqueued; releases are ignored.
    pub fn on_event(&mut self, ev: KeyEvent, q: &mut ActionQueue)
        requires
            old(self).wf(),
        ensures
            final(self)@ =~~= step_key(old(self)@, ev).0,
            final(q)@ =~= old(q)@ + step_key(old(self)@, ev).1,
            final(self).wf(),
    {
        if let KeyEventKind::Press = ev.kind {
            match self.current_view {
                Screen::Instruments => self.instruments.on_event(ev.code, q),
                Screen::Notes => self.notes.on_event(ev.code, q),
                Screen::Todo => self.todo.on_event(ev.code, q),
            }
        }
    }

    /// Consume one action from the queue, as [`apply_action`] says; a
    /// closed queue (`None`) changes nothing.
    pub fn on_action(&mut self, action: Option<Action>)
        requires
            old(self).wf(),
        ensures
            final(self)@ =~~= (match action {
                Some(a) => apply_action(old(self)@, a),
                None => old(self)@,
            }),
            final(self).wf(),
    {
        match action {
            Some(Action::Quit) => {
                self.running = false;
            },
            Some(Action::ChangeView(v)) => {
                self.current_view = v;
            },
            Some(a) => {
                match self.current_view {
                    Screen::Instruments => self.instruments.on_action(Some(a)),
                    Screen::Notes => self.notes.on_action(Some(a)),
                    Screen::Todo => {},
                }
            },
            None => {},
        }
    }
}

/// Switching to the screen that is already current changes nothing: a
/// `ChangeView` action is idempotent.
pub proof fn lemma_change_view_idempotent(s: StateModel, v: Screen)
    requires
        s.current_view == v,
    ensures
        apply_action(s, Action::ChangeView(v)) == s,
{
    assert(apply_action(s, Action::ChangeView(v)) =~~= s);
}

/// Consuming `Quit` clears the termination signal whatever the active view
/// and its internal mode are, so the run loop exits within the iteration
/// that consumes it.
pub proof fn lemma_quit_stops_loop(s: StateModel)
    ensures
        !apply_action(s, Action::Quit).running,
{
}

} // verus!
