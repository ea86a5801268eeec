use tuidash::actions::{Action, ActionQueue, Screen};
use tuidash::keys::KeyCode;
use tuidash::notes::{Note, Notes, NotesMode};

fn press(notes: &mut Notes, q: &mut ActionQueue, key: KeyCode) {
    notes.on_event(key, q);
}

#[test]
fn new_notes_defaults() {
    let n = Notes::new();
    assert_eq!(n.items.len(), 1);
    assert_eq!(n.items[0].content, "add new or edit note...");
    assert_eq!(n.selected, None);
    assert!(n.mode == NotesMode::DisplayList);
    assert_eq!(n.input_value, "");
}

#[test]
fn title_appends_ellipsis_to_short_content() {
    let note = Note { content: "abc".to_string() };
    assert_eq!(note.title(), "abc...");
}

#[test]
fn title_truncates_to_twenty_chars() {
    let note = Note { content: "abcdefghijklmnopqrstuvwxyz".to_string() };
    assert_eq!(note.title(), "abcdefghijklmnopqrst...");
}

#[test]
fn navigation_wraps_around() {
    let mut n = Notes::new();
    let mut q = ActionQueue::new();
    // grow the list to two notes
    press(&mut n, &mut q, KeyCode::Char('n'));
    press(&mut n, &mut q, KeyCode::Char('x'));
    press(&mut n, &mut q, KeyCode::Enter);
    assert_eq!(n.items.len(), 2);

    press(&mut n, &mut q, KeyCode::Down);
    assert_eq!(n.selected, Some(0));
    press(&mut n, &mut q, KeyCode::Char('j'));
    assert_eq!(n.selected, Some(1));
    press(&mut n, &mut q, KeyCode::Down);
    assert_eq!(n.selected, Some(0));
    press(&mut n, &mut q, KeyCode::Char('k'));
    assert_eq!(n.selected, Some(1));
}

#[test]
fn commit_appends_one_note_and_clears_buffer() {
    let mut n = Notes::new();
    let mut q = ActionQueue::new();
    press(&mut n, &mut q, KeyCode::Char('n'));
    assert!(n.mode == NotesMode::AddNew);
    press(&mut n, &mut q, KeyCode::Char('X'));
    assert_eq!(n.input_value, "X");
    press(&mut n, &mut q, KeyCode::Enter);
    assert_eq!(n.items.len(), 2);
    assert_eq!(n.items[1].content, "X");
    assert_eq!(n.input_value, "");
    assert!(n.mode == NotesMode::DisplayList);
}

#[test]
fn escape_appends_nothing_and_clears_buffer() {
    let mut n = Notes::new();
    let mut q = ActionQueue::new();
    press(&mut n, &mut q, KeyCode::Char('n'));
    press(&mut n, &mut q, KeyCode::Char('X'));
    press(&mut n, &mut q, KeyCode::Esc);
    assert_eq!(n.items.len(), 1);
    assert_eq!(n.input_value, "");
    assert!(n.mode == NotesMode::DisplayList);
}

#[test]
fn backspace_removes_last_staged_char() {
    let mut n = Notes::new();
    let mut q = ActionQueue::new();
    press(&mut n, &mut q, KeyCode::Char('n'));
    press(&mut n, &mut q, KeyCode::Char('a'));
    press(&mut n, &mut q, KeyCode::Char('b'));
    press(&mut n, &mut q, KeyCode::Backspace);
    assert_eq!(n.input_value, "a");
    press(&mut n, &mut q, KeyCode::Backspace);
    press(&mut n, &mut q, KeyCode::Backspace);
    assert_eq!(n.input_value, "");
}

#[test]
fn deleting_last_selected_note_clamps_selection() {
    let mut n = Notes::new();
    let mut q = ActionQueue::new();
    // two notes, select the second
    press(&mut n, &mut q, KeyCode::Char('n'));
    press(&mut n, &mut q, KeyCode::Char('y'));
    press(&mut n, &mut q, KeyCode::Enter);
    press(&mut n, &mut q, KeyCode::Down);
    press(&mut n, &mut q, KeyCode::Down);
    assert_eq!(n.selected, Some(1));

    press(&mut n, &mut q, KeyCode::Char('d'));
    assert_eq!(n.items.len(), 1);
    assert_eq!(n.selected, Some(0));
}

#[test]
fn deleting_only_note_clears_selection() {
    let mut n = Notes::new();
    let mut q = ActionQueue::new();
    press(&mut n, &mut q, KeyCode::Down);
    assert_eq!(n.selected, Some(0));
    press(&mut n, &mut q, KeyCode::Char('d'));
    assert_eq!(n.items.len(), 0);
    assert_eq!(n.selected, None);
}

#[test]
fn edit_mode_changes_note_in_place() {
    let mut n = Notes::new();
    let mut q = ActionQueue::new();
    press(&mut n, &mut q, KeyCode::Down);
    press(&mut n, &mut q, KeyCode::Char('l'));
    assert!(n.mode == NotesMode::Edit { selected_ix: 0 });
    press(&mut n, &mut q, KeyCode::Char('!'));
    assert_eq!(n.items[0].content, "add new or edit note...!");
    press(&mut n, &mut q, KeyCode::Backspace);
    assert_eq!(n.items[0].content, "add new or edit note...");
    press(&mut n, &mut q, KeyCode::Esc);
    assert!(n.mode == NotesMode::DisplayList);
}

#[test]
fn edit_key_without_selection_starts_new_note() {
    let mut n = Notes::new();
    let mut q = ActionQueue::new();
    press(&mut n, &mut q, KeyCode::Char('l'));
    assert!(n.mode == NotesMode::AddNew);
}

#[test]
fn notes_emit_quit_and_view_change() {
    let mut n = Notes::new();
    let mut q = ActionQueue::new();
    press(&mut n, &mut q, KeyCode::Char('I'));
    press(&mut n, &mut q, KeyCode::Char('q'));
    assert_eq!(q.pop_front(), Some(Action::ChangeView(Screen::Instruments)));
    assert_eq!(q.pop_front(), Some(Action::Quit));
    assert_eq!(q.pop_front(), None);
}

#[test]
fn edit_mode_with_stale_index_returns_to_display() {
    let mut n = Notes::new();
    let mut q = ActionQueue::new();
    n.mode = NotesMode::Edit { selected_ix: 99 };
    press(&mut n, &mut q, KeyCode::Char('x'));
    assert!(n.mode == NotesMode::DisplayList);
    assert_eq!(n.items.len(), 1);
    assert_eq!(n.items[0].content, "add new or edit note...");
}
