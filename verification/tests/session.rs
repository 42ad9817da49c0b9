use todo_list::interface::{DrawOp, Key, UI};
use todo_list::session::{Mode, Session};

fn rec(text: &str, done: bool) -> (String, bool) {
    (text.to_string(), done)
}

fn term() -> UI {
    UI::new(24, 80, 1, 0)
}

fn press(session: Session, key: Key) -> Session {
    session.step(&term(), key).0
}

fn type_text(session: Session, text: &str) -> Session {
    let mut session = session;
    for c in text.chars() {
        session = press(session, Key::Character(c));
    }
    session
}

#[test]
fn a_new_session_browses_from_the_top() {
    let session = Session::new(vec![rec("a", false), rec("b", true)]);
    assert_eq!(session.mode(), Mode::Browsing);
    assert_eq!(session.curr_todo(), 0);
    assert_eq!(session.todo_list(), &vec![rec("a", false), rec("b", true)]);
    assert_eq!(session.typed(), &Vec::new());
}

#[test]
fn show_draws_the_list_screen() {
    let list = vec![rec("a", false), rec("b", true)];
    let session = Session::new(list.clone());
    assert_eq!(session.show(&term()), term().show_list(&list, 0));
}

#[test]
fn insert_toggle_store_and_load_again() {
    let mut loaded: Vec<(String, bool)> = Vec::new();
    UI::read_saved_todo(&mut loaded, Some(""));
    assert_eq!(loaded, Vec::new());

    let session = Session::new(loaded);
    let session = press(session, Key::Character('i'));
    assert_eq!(session.mode(), Mode::Inserting);
    let session = type_text(session, "buy milk");
    let session = press(session, Key::Character('\n'));
    assert_eq!(session.mode(), Mode::Browsing);
    assert_eq!(session.todo_list(), &vec![rec("buy milk", false)]);
    assert_eq!(session.curr_todo(), 0);

    let session = press(session, Key::Character('\n'));
    assert_eq!(session.todo_list(), &vec![rec("buy milk", true)]);

    let (session, action) = session.step(&term(), Key::Character('q'));
    assert_eq!(session.mode(), Mode::Finished);
    assert_eq!(action.ops, Vec::new());
    let contents = action.save.unwrap();
    assert_eq!(contents, "buy milk;true\n");

    let mut again: Vec<(String, bool)> = Vec::new();
    UI::read_saved_todo(&mut again, Some(&contents));
    assert_eq!(again, vec![rec("buy milk", true)]);
}

#[test]
fn delete_at_the_last_entry_moves_the_cursor_back() {
    let session = Session::new(vec![rec("a", false), rec("b", false), rec("c", false)]);
    let session = press(session, Key::Character('s'));
    let session = press(session, Key::Character('s'));
    assert_eq!(session.curr_todo(), 2);
    let session = press(session, Key::KeyF2);
    assert_eq!(session.todo_list(), &vec![rec("a", false), rec("b", false)]);
    assert_eq!(session.curr_todo(), 1);
}

#[test]
fn delete_until_the_list_is_empty() {
    let session = Session::new(vec![rec("a", false), rec("b", false)]);
    let session = press(session, Key::KeyF2);
    assert_eq!(session.todo_list(), &vec![rec("b", false)]);
    assert_eq!(session.curr_todo(), 0);
    let session = press(session, Key::KeyF2);
    assert_eq!(session.todo_list(), &Vec::new());
    assert_eq!(session.curr_todo(), 0);
    let session = press(session, Key::KeyF2);
    assert_eq!(session.todo_list(), &Vec::new());
    assert_eq!(session.curr_todo(), 0);
    assert_eq!(session.mode(), Mode::Browsing);
}

#[test]
fn the_cursor_stops_at_both_ends() {
    let session = Session::new(vec![rec("a", false), rec("b", false)]);
    let session = press(session, Key::Character('w'));
    assert_eq!(session.curr_todo(), 0);
    let session = press(session, Key::Character('s'));
    assert_eq!(session.curr_todo(), 1);
    let session = press(session, Key::Character('s'));
    assert_eq!(session.curr_todo(), 1);
    let session = press(session, Key::Character('w'));
    assert_eq!(session.curr_todo(), 0);
}

#[test]
fn the_cursor_stays_on_an_empty_list() {
    let session = Session::new(Vec::new());
    let session = press(session, Key::Character('s'));
    assert_eq!(session.curr_todo(), 0);
    let session = press(session, Key::Character('w'));
    assert_eq!(session.curr_todo(), 0);
}

#[test]
fn inserting_does_not_move_the_cursor() {
    let session = Session::new(vec![rec("a", false), rec("b", false)]);
    let session = press(session, Key::Character('s'));
    let session = press(session, Key::Character('i'));
    let session = type_text(session, "c");
    let session = press(session, Key::Character('\n'));
    assert_eq!(session.curr_todo(), 1);
    assert_eq!(session.todo_list(), &vec![rec("a", false), rec("b", false), rec("c", false)]);
}

#[test]
fn toggling_twice_gives_the_list_back() {
    let list = vec![rec("a", false), rec("b", true)];
    let session = Session::new(list.clone());
    let session = press(session, Key::Character('s'));
    let session = press(session, Key::Character('\n'));
    assert_eq!(session.todo_list(), &vec![rec("a", false), rec("b", false)]);
    let session = press(session, Key::Character('\n'));
    assert_eq!(session.todo_list(), &list);
}

#[test]
fn enter_on_an_empty_list_changes_nothing() {
    let session = Session::new(Vec::new());
    let (session, action) = session.step(&term(), Key::Character('\n'));
    assert_eq!(session.mode(), Mode::Browsing);
    assert_eq!(session.todo_list(), &Vec::new());
    assert_eq!(action.ops, term().show_list(&Vec::new(), 0));
    assert!(action.save.is_none());
}

#[test]
fn a_command_redraws_the_list() {
    let list = vec![rec("a", false), rec("b", false)];
    let session = Session::new(list.clone());
    let (session, action) = session.step(&term(), Key::Character('s'));
    assert_eq!(action.ops, term().show_list(&list, 1));
    let (session, action) = session.step(&term(), Key::Other);
    assert_eq!(action.ops, term().show_list(&list, 1));
    let (_, action) = session.step(&term(), Key::Character('\n'));
    let mut expected = vec![DrawOp::Clear];
    expected.extend(term().show_list(&vec![rec("a", false), rec("b", true)], 1));
    assert_eq!(action.ops, expected);
}

#[test]
fn the_insert_screen_echoes_and_returns_to_the_list() {
    let session = Session::new(vec![rec("a", false)]);
    let (session, action) = session.step(&term(), Key::Character('i'));
    assert_eq!(action.ops, term().enter_insert_mode());
    let (session, action) = session.step(&term(), Key::Character('q'));
    assert_eq!(session.mode(), Mode::Inserting);
    assert_eq!(action.ops, vec![DrawOp::AddCh('q')]);
    assert!(action.save.is_none());
    let (session, action) = session.step(&UI::new(24, 80, 1, 1), Key::KeyBackspace);
    assert_eq!(action.ops, vec![DrawOp::Mv(1, 0), DrawOp::DelCh]);
    assert_eq!(session.typed(), &Vec::new());
    let session = type_text(session, "w");
    let (session, action) = session.step(&term(), Key::Character('\n'));
    let list = vec![rec("a", false), rec("w", false)];
    let mut expected = vec![DrawOp::Clear];
    expected.extend(term().show_list(&list, 0));
    assert_eq!(action.ops, expected);
    assert_eq!(session.todo_list(), &list);
    assert_eq!(session.mode(), Mode::Browsing);
}

#[test]
fn f1_leaves_the_insert_screen_without_an_entry() {
    let list = vec![rec("a", false)];
    let session = Session::new(list.clone());
    let session = press(session, Key::Character('i'));
    let session = type_text(session, "never mind");
    let (session, action) = session.step(&term(), Key::KeyF1);
    assert_eq!(session.mode(), Mode::Browsing);
    assert_eq!(session.todo_list(), &list);
    assert_eq!(action.ops, term().show_list(&list, 0));
}

#[test]
fn a_new_insert_starts_from_an_empty_text() {
    let session = Session::new(Vec::new());
    let session = press(session, Key::Character('i'));
    let session = type_text(session, "left over");
    let session = press(session, Key::KeyF1);
    let session = press(session, Key::Character('i'));
    assert_eq!(session.typed(), &Vec::new());
    let session = press(session, Key::Character('\n'));
    assert_eq!(session.todo_list(), &vec![rec("", false)]);
}

#[test]
fn the_edit_screen_starts_from_the_entry_and_keeps_its_flag() {
    let session = Session::new(vec![rec("a", false), rec("bee", true)]);
    let session = press(session, Key::Character('s'));
    let (session, action) = session.step(&term(), Key::Character('e'));
    assert_eq!(session.mode(), Mode::Editing);
    assert_eq!(session.typed(), &vec!['b', 'e', 'e']);
    assert_eq!(
        action.ops,
        term().enter_edit_mode(&vec![rec("a", false), rec("bee", true)], 1).unwrap().1
    );
    let session = press(session, Key::KeyBackspace);
    let session = type_text(session, "t");
    let session = press(session, Key::KeyF1);
    assert_eq!(session.mode(), Mode::Editing);
    let (session, action) = session.step(&term(), Key::Character('\n'));
    let list = vec![rec("a", false), rec("bet", true)];
    assert_eq!(session.mode(), Mode::Browsing);
    assert_eq!(session.todo_list(), &list);
    assert_eq!(session.curr_todo(), 1);
    assert_eq!(action.ops, term().show_list(&list, 1));
}

#[test]
fn there_is_nothing_to_edit_on_an_empty_list() {
    let session = Session::new(Vec::new());
    let (session, action) = session.step(&term(), Key::Character('e'));
    assert_eq!(session.mode(), Mode::Browsing);
    assert_eq!(action.ops, term().show_list(&Vec::new(), 0));
}

#[test]
fn quit_stores_the_list_and_ends_the_session() {
    let session = Session::new(vec![rec("a", false), rec("b", true)]);
    let (session, action) = session.step(&term(), Key::Character('q'));
    assert_eq!(session.mode(), Mode::Finished);
    assert_eq!(action.save, Some("a;false\nb;true\n".to_string()));
    let (session, action) = session.step(&term(), Key::Character('i'));
    assert_eq!(session.mode(), Mode::Finished);
    assert_eq!(action.ops, Vec::new());
    assert!(action.save.is_none());
    assert_eq!(session.todo_list(), &vec![rec("a", false), rec("b", true)]);
}

#[test]
fn quit_on_an_empty_list_stores_an_empty_text() {
    let (_, action) = Session::new(Vec::new()).step(&term(), Key::Character('q'));
    assert_eq!(action.save, Some(String::new()));
}

#[test]
fn other_keys_do_nothing_in_the_list_screen() {
    let list = vec![rec("a", false)];
    let session = Session::new(list.clone());
    let session = press(session, Key::KeyF1);
    let session = press(session, Key::KeyBackspace);
    let session = press(session, Key::Character('x'));
    let session = press(session, Key::Other);
    assert_eq!(session.mode(), Mode::Browsing);
    assert_eq!(session.todo_list(), &list);
    assert_eq!(session.curr_todo(), 0);
}
