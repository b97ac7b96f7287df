use icedtodo::input::{Directive, Intent, Key};
use icedtodo::session::{EditMode, TodoApp};
use icedtodo::store::{Todo, TodoStore};
use icedtodo::style::SelectedTodo;

fn app_with(ids: &[u128]) -> TodoApp {
    let mut app = TodoApp::new();
    for &id in ids {
        assert!(app.add_todo_with_id(id));
    }
    app
}

fn title(app: &TodoApp, p: usize) -> String {
    app.todo(p).unwrap().title().to_string()
}

#[test]
fn append_twice_from_empty() {
    let mut app = TodoApp::new();
    let a = app.add_new_todo();
    let b = app.add_new_todo();
    assert_eq!(app.len(), 2);
    assert_ne!(a, b);
    assert_eq!(app.id_at(0), Some(a));
    assert_eq!(app.id_at(1), Some(b));
    assert_eq!(app.selected(), None);
    assert_eq!(title(&app, 0), "New Todo");
    assert_eq!(title(&app, 1), "New Todo");
}

#[test]
fn new_todo_defaults() {
    let t = Todo::new(42);
    assert_eq!(t.id(), 42);
    assert_eq!(t.title(), "New Todo");
    assert_eq!(t.description(), "New Todo Description");
    assert_eq!(t.priority(), 0);
}

#[test]
fn move_up_at_top_changes_nothing() {
    let mut app = app_with(&[1, 2, 3]);
    app.move_up();
    assert_eq!(app.selected(), Some(0));
    app.move_up();
    assert_eq!(app.selected(), Some(0));
    assert_eq!(app.mode(), EditMode::Idle);
}

#[test]
fn move_up_on_empty_changes_nothing() {
    let mut app = TodoApp::new();
    app.move_up();
    assert_eq!(app.selected(), None);
    assert_eq!(app.len(), 0);
    assert_eq!(app.mode(), EditMode::Idle);
}

#[test]
fn move_down_stops_at_last() {
    let mut app = app_with(&[1, 2, 3]);
    app.move_down();
    assert_eq!(app.selected(), Some(0));
    app.move_down();
    app.move_down();
    assert_eq!(app.selected(), Some(2));
    app.move_down();
    assert_eq!(app.selected(), Some(2));
}

#[test]
fn moves_on_empty_select_nothing() {
    let mut app = TodoApp::new();
    app.move_down();
    assert_eq!(app.selected(), None);
    app.move_up();
    assert_eq!(app.selected(), None);
}

#[test]
fn move_up_steps_back() {
    let mut app = app_with(&[1, 2, 3]);
    app.move_down();
    app.move_down();
    app.move_down();
    app.move_up();
    assert_eq!(app.selected(), Some(1));
}

#[test]
fn moving_off_the_edited_item_ends_edit() {
    let mut app = app_with(&[10, 20]);
    app.move_down();
    assert_eq!(app.begin_edit(), Directive::FocusField(0));
    assert_eq!(app.mode(), EditMode::Editing(10));
    app.move_down();
    assert_eq!(app.mode(), EditMode::Idle);
    assert_eq!(app.selected(), Some(1));
    assert_eq!(title(&app, 0), "New Todo");
}

#[test]
fn moving_up_at_top_keeps_edit() {
    let mut app = app_with(&[10, 20]);
    app.move_down();
    app.begin_edit();
    app.move_up();
    assert_eq!(app.mode(), EditMode::Editing(10));
    assert_eq!(app.selected(), Some(0));
}

#[test]
fn commit_writes_title() {
    let mut app = app_with(&[10, 20, 30]);
    app.move_down();
    app.move_down();
    app.begin_edit();
    assert_eq!(app.mode(), EditMode::Editing(20));
    app.commit(&"Buy milk".to_string());
    assert_eq!(app.mode(), EditMode::Idle);
    assert_eq!(title(&app, 1), "Buy milk");
    assert_eq!(title(&app, 0), "New Todo");
    assert_eq!(title(&app, 2), "New Todo");
    assert_eq!(app.selected(), Some(1));
}

#[test]
fn commit_when_idle_does_nothing() {
    let mut app = app_with(&[10]);
    app.move_down();
    app.commit(&"Buy milk".to_string());
    assert_eq!(title(&app, 0), "New Todo");
    assert_eq!(app.mode(), EditMode::Idle);
}

#[test]
fn edit_round_trip_keeps_title() {
    let mut app = app_with(&[10, 20]);
    app.move_down();
    let before = title(&app, 0);
    app.begin_edit();
    app.commit(&before);
    assert_eq!(app.mode(), EditMode::Idle);
    assert_eq!(title(&app, 0), "New Todo");
    assert_eq!(title(&app, 1), "New Todo");
    assert_eq!(app.len(), 2);
}

#[test]
fn begin_edit_without_selection_does_nothing() {
    let mut app = app_with(&[10]);
    assert_eq!(app.begin_edit(), Directive::Nothing);
    assert_eq!(app.mode(), EditMode::Idle);
}

#[test]
fn typed_text_goes_to_item_under_edit() {
    let mut app = app_with(&[10, 20]);
    app.move_down();
    app.move_down();
    app.begin_edit();
    app.edit_text(&"Call".to_string());
    assert_eq!(title(&app, 1), "Call");
    assert_eq!(app.mode(), EditMode::Editing(20));
    app.finish_edit();
    assert_eq!(app.mode(), EditMode::Idle);
    assert_eq!(title(&app, 1), "Call");
}

#[test]
fn typed_text_when_idle_is_ignored() {
    let mut app = app_with(&[10]);
    app.edit_text(&"Call".to_string());
    assert_eq!(title(&app, 0), "New Todo");
}

#[test]
fn duplicate_id_is_refused() {
    let mut app = app_with(&[10]);
    assert!(!app.add_todo_with_id(10));
    assert_eq!(app.len(), 1);
}

#[test]
fn append_keeps_selection_and_edit() {
    let mut app = app_with(&[10]);
    app.move_down();
    app.begin_edit();
    assert!(app.add_todo_with_id(11));
    assert_eq!(app.selected(), Some(0));
    assert_eq!(app.mode(), EditMode::Editing(10));
}

#[test]
fn activation_selects_and_edits() {
    let mut app = app_with(&[10, 20, 30]);
    assert_eq!(app.activate(30), Directive::FocusField(2));
    assert_eq!(app.selected(), Some(2));
    assert_eq!(app.mode(), EditMode::Editing(30));
    assert_eq!(app.activate(30), Directive::Nothing);
    assert_eq!(app.mode(), EditMode::Idle);
    assert_eq!(app.selected(), Some(2));
}

#[test]
fn activation_of_unknown_id_does_nothing() {
    let mut app = app_with(&[10]);
    assert_eq!(app.activate(99), Directive::Nothing);
    assert_eq!(app.selected(), None);
    assert_eq!(app.mode(), EditMode::Idle);
}

#[test]
fn key_bindings() {
    assert_eq!(Intent::of(Key::ArrowUp), Intent::MoveUp);
    assert_eq!(Intent::of(Key::Character('k')), Intent::MoveUp);
    assert_eq!(Intent::of(Key::ArrowDown), Intent::MoveDown);
    assert_eq!(Intent::of(Key::Character('j')), Intent::MoveDown);
    assert_eq!(Intent::of(Key::Character('i')), Intent::BeginEdit);
    assert_eq!(Intent::of(Key::Enter), Intent::Confirm);
    assert_eq!(Intent::of(Key::Escape), Intent::Exit);
    assert_eq!(Intent::of(Key::Character('x')), Intent::Ignore);
    assert_eq!(Intent::of(Key::Other), Intent::Ignore);
}

#[test]
fn keys_drive_the_session() {
    let mut app = TodoApp::new();
    assert_eq!(app.handle_key(Key::Enter), Directive::Nothing);
    assert_eq!(app.handle_key(Key::Enter), Directive::Nothing);
    assert_eq!(app.len(), 2);
    assert_eq!(app.selected(), None);
    assert_eq!(app.handle_key(Key::Character('i')), Directive::Nothing);
    app.handle_key(Key::Character('j'));
    app.handle_key(Key::Character('j'));
    assert_eq!(app.selected(), Some(1));
    let id = app.id_at(1).unwrap();
    assert_eq!(app.handle_key(Key::Character('i')), Directive::FocusField(1));
    assert_eq!(app.mode(), EditMode::Editing(id));
    assert_eq!(app.handle_key(Key::Enter), Directive::Nothing);
    assert_eq!(app.mode(), EditMode::Idle);
    assert_eq!(app.len(), 2);
    app.handle_key(Key::Character('k'));
    assert_eq!(app.selected(), Some(0));
    assert_eq!(app.handle_key(Key::Other), Directive::Nothing);
    assert_eq!(app.handle_key(Key::Escape), Directive::CloseWindow);
    assert_eq!(app.len(), 2);
}

#[test]
fn check_editing_keeps_consistent_state() {
    let mut app = app_with(&[10, 20]);
    app.move_down();
    app.begin_edit();
    app.check_editing();
    assert_eq!(app.mode(), EditMode::Editing(10));
    assert_eq!(app.selected(), Some(0));
}

#[test]
fn highlight_follows_selection() {
    let mut app = app_with(&[10, 20]);
    assert!(!SelectedTodo::applies(&app, 0));
    app.move_down();
    app.move_down();
    assert!(SelectedTodo::applies(&app, 1));
    assert!(!SelectedTodo::applies(&app, 0));
}

#[test]
fn edit_field_shows_only_on_item_under_edit() {
    let mut app = app_with(&[10, 20]);
    app.move_down();
    assert!(!app.is_editing(0));
    app.begin_edit();
    assert!(app.is_editing(0));
    assert!(!app.is_editing(1));
    assert!(!app.is_editing(5));
}

#[test]
fn store_lookups() {
    let mut store = TodoStore::new();
    assert_eq!(store.len(), 0);
    assert!(store.append_with_id(5));
    let fresh = store.append();
    assert_ne!(fresh, 5);
    assert_eq!(store.position_of(5), Some(0));
    assert_eq!(store.position_of(fresh), Some(1));
    assert_eq!(store.id_at(1), Some(fresh));
    assert_eq!(store.id_at(2), None);
    assert!(store.get(2).is_none());
    let free = store.unused_id();
    assert_eq!(store.position_of(free), None);
    store.set_title(5, &"Read".to_string());
    assert_eq!(store.get(0).unwrap().title(), "Read");
    assert_eq!(store.get(1).unwrap().title(), "New Todo");
    store.set_title(77, &"Nope".to_string());
    assert_eq!(store.get(0).unwrap().title(), "Read");
}

#[test]
fn generated_ids_are_version_four() {
    let mut app = TodoApp::new();
    let id = app.add_new_todo();
    assert_eq!((id >> 76) & 0xf, 4);
    assert_eq!(app.position_of(id), Some(0));
}
