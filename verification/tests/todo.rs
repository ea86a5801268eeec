use tuidash::actions::{Action, ActionQueue, Screen};
use tuidash::keys::KeyCode;
use tuidash::todo_list::{FormAction, TodoList, TodoListMode};

fn press(td: &mut TodoList, q: &mut ActionQueue, key: KeyCode) {
    td.on_event(key, q);
}

#[test]
fn default_todo_list() {
    let td = TodoList::default();
    assert_eq!(td.items.len(), 1);
    assert_eq!(td.items[0].description, " add new items here ");
    assert!(!td.items[0].is_done);
    assert_eq!(td.selected, None);
    assert!(td.mode == TodoListMode::Display);
    assert_eq!(td.input_value, "");
}

#[test]
fn space_toggles_done_flag() {
    let mut td = TodoList::default();
    let mut q = ActionQueue::new();
    press(&mut td, &mut q, KeyCode::Down);
    assert_eq!(td.selected, Some(0));
    press(&mut td, &mut q, KeyCode::Char(' '));
    assert!(td.items[0].is_done);
    press(&mut td, &mut q, KeyCode::Char(' '));
    assert!(!td.items[0].is_done);
}

#[test]
fn insert_flow_appends_unchecked_entry() {
    let mut td = TodoList::default();
    let mut q = ActionQueue::new();
    press(&mut td, &mut q, KeyCode::Char('n'));
    assert!(td.mode == TodoListMode::Insert);
    press(&mut td, &mut q, KeyCode::Char('b'));
    press(&mut td, &mut q, KeyCode::Char('u'));
    press(&mut td, &mut q, KeyCode::Char('y'));
    press(&mut td, &mut q, KeyCode::Enter);
    assert_eq!(td.items.len(), 2);
    assert_eq!(td.items[1].description, "buy");
    assert!(!td.items[1].is_done);
    assert_eq!(td.input_value, "");
    assert!(td.mode == TodoListMode::Display);
}

#[test]
fn escape_discards_staged_entry() {
    let mut td = TodoList::default();
    let mut q = ActionQueue::new();
    press(&mut td, &mut q, KeyCode::Char('n'));
    press(&mut td, &mut q, KeyCode::Char('X'));
    press(&mut td, &mut q, KeyCode::Esc);
    assert_eq!(td.items.len(), 1);
    assert_eq!(td.input_value, "");
    assert!(td.mode == TodoListMode::Display);
}

#[test]
fn delete_removes_selected_entry() {
    let mut td = TodoList::default();
    let mut q = ActionQueue::new();
    press(&mut td, &mut q, KeyCode::Down);
    press(&mut td, &mut q, KeyCode::Delete);
    assert_eq!(td.items.len(), 0);
    assert_eq!(td.selected, None);
}

#[test]
fn delete_clamps_selection_to_new_last_entry() {
    let mut td = TodoList::default();
    let mut q = ActionQueue::new();
    // add a second entry and select it
    press(&mut td, &mut q, KeyCode::Char('n'));
    press(&mut td, &mut q, KeyCode::Char('z'));
    press(&mut td, &mut q, KeyCode::Enter);
    press(&mut td, &mut q, KeyCode::Down);
    press(&mut td, &mut q, KeyCode::Down);
    assert_eq!(td.selected, Some(1));

    press(&mut td, &mut q, KeyCode::Delete);
    assert_eq!(td.items.len(), 1);
    assert_eq!(td.selected, Some(0));
}

#[test]
fn handle_list_insert_captures_and_submits() {
    let mut td = TodoList::default();
    let r = TodoListMode::handle_list_insert(&mut td, KeyCode::Char('a'));
    assert!(matches!(r, FormAction::Stay));
    assert_eq!(td.input_value, "a");

    let r = TodoListMode::handle_list_insert(&mut td, KeyCode::Backspace);
    assert!(matches!(r, FormAction::Stay));
    assert_eq!(td.input_value, "");

    let r = TodoListMode::handle_list_insert(&mut td, KeyCode::Char('o'));
    assert!(matches!(r, FormAction::Stay));
    let r = TodoListMode::handle_list_insert(&mut td, KeyCode::Enter);
    match r {
        FormAction::Submit(item) => {
            assert_eq!(item.description, "o");
            assert!(!item.is_done);
        }
        _ => panic!("Enter must submit the staged entry"),
    }

    let r = TodoListMode::handle_list_insert(&mut td, KeyCode::Esc);
    assert!(matches!(r, FormAction::Escape));
}

#[test]
fn todo_emits_view_change_and_quit() {
    let mut td = TodoList::default();
    let mut q = ActionQueue::new();
    press(&mut td, &mut q, KeyCode::Char('i'));
    press(&mut td, &mut q, KeyCode::Char('q'));
    assert_eq!(q.pop_front(), Some(Action::ChangeView(Screen::Instruments)));
    assert_eq!(q.pop_front(), Some(Action::Quit));
}
