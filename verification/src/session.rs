//! The main loop as a state machine: a session holds the list, the cursor and
//! the screen that is open, and each key press takes it to its next state and
//! says what to draw and whether to store the list.
use vstd::prelude::*;
use crate::codec::encode_items;
use crate::interface::{
    emit_all,
    color_pair_bits, echo_ops, edit_screen_ops, insert_screen_ops, list_frame_ops, typed_after,
    DrawOp, DrawOpView, Key, HIGHLIGHTED_PAIR, REGULAR_PAIR, UI,
};
use crate::store::{
    cursor_after_delete, cursor_in_range, deleted, edited, inserted, moved_down, moved_up,
    navigate_down, navigate_up, toggled,
};

verus! {

/// The screen that is open.
#[derive(Clone, Copy, Debug, PartialEq, Eq, Structural)]
pub enum Mode {
    /// The list, with navigation and the commands on entries.
    Browsing,
    /// The text of a new entry is being typed.
    Inserting,
    /// The text of the entry under the cursor is being retyped.
    Editing,
    /// The list was stored and the program is over.
    Finished,
}

/// A session as the contracts see it.
pub struct SessionView {
    pub items: Seq<(Seq<char>, bool)>,
    pub cursor: int,
    pub mode: Mode,
    pub typed: Seq<char>,
}

/// What a session holds at any time: the cursor selects an entry or rests at
/// zero on an empty list, and an entry is being retyped only if there is one.
pub open spec fn consistent(s: SessionView) -> bool {
    &&& cursor_in_range(s.items.len() as int, s.cursor)
    &&& s.mode == Mode::Editing ==> s.items.len() > 0
}

/// The state after a key in the list screen.
pub open spec fn browse_next(pre: SessionView, key: Key) -> SessionView {
    let len = pre.items.len() as int;
    match key {
        Key::Character(c) => if c == 'w' {
            SessionView { cursor: moved_up(pre.cursor), ..pre }
        } else if c == 's' {
            SessionView { cursor: moved_down(len, pre.cursor), ..pre }
        } else if c == '\n' && len > 0 {
            SessionView { items: toggled(pre.items, pre.cursor), ..pre }
        } else if c == 'i' {
            SessionView { mode: Mode::Inserting, typed: Seq::empty(), ..pre }
        } else if c == 'e' && len > 0 {
            SessionView { mode: Mode::Editing, typed: pre.items[pre.cursor].0, ..pre }
        } else if c == 'q' {
            SessionView { mode: Mode::Finished, ..pre }
        } else {
            pre
        },
        Key::KeyF2 => SessionView {
            items: deleted(pre.items, pre.cursor),
            cursor: cursor_after_delete(len, pre.cursor),
            ..pre
        },
        _ => pre,
    }
}

/// The state after a key in the insert screen.
pub open spec fn insert_next(pre: SessionView, key: Key) -> SessionView {
    if key == Key::Character('\n') {
        SessionView { items: inserted(pre.items, pre.typed), mode: Mode::Browsing, ..pre }
    } else if key == Key::KeyF1 {
        SessionView { mode: Mode::Browsing, ..pre }
    } else {
        SessionView { typed: typed_after(pre.typed, key), ..pre }
    }
}

/// The state after a key in the edit screen.
pub open spec fn edit_next(pre: SessionView, key: Key) -> SessionView {
    if key == Key::Character('\n') {
        SessionView {
            items: edited(pre.items, pre.cursor, pre.typed),
            mode: Mode::Browsing,
            ..pre
        }
    } else {
        SessionView { typed: typed_after(pre.typed, key), ..pre }
    }
}

/// The state after a key.
pub open spec fn next_view(pre: SessionView, key: Key) -> SessionView {
    match pre.mode {
        Mode::Browsing => browse_next(pre, key),
        Mode::Inserting => insert_next(pre, key),
        Mode::Editing => edit_next(pre, key),
        Mode::Finished => pre,
    }
}

/// What is drawn after a key: the screen that was entered, the list screen
/// again after a command or on return to it, the echo of what was typed, and
/// nothing once the list was stored.
pub open spec fn step_ops(
    pre: SessionView,
    key: Key,
    ui: UI,
    regular: u64,
    highlighted: u64,
) -> Seq<DrawOpView> {
    let post = next_view(pre, key);
    let frame = list_frame_ops(
        post.items,
        post.cursor,
        regular,
        highlighted,
        ui.max_y(),
        ui.max_x(),
    );
    match pre.mode {
        Mode::Browsing => match post.mode {
            Mode::Browsing => if key == Key::Character('\n') && pre.items.len() > 0 {
                seq![DrawOpView::Clear] + frame
            } else {
                frame
            },
            Mode::Inserting => insert_screen_ops(ui.max_y()),
            Mode::Editing => edit_screen_ops(ui.max_y(), post.typed),
            Mode::Finished => Seq::empty(),
        },
        Mode::Inserting => if key == Key::Character('\n') {
            seq![DrawOpView::Clear] + frame
        } else if key == Key::KeyF1 {
            frame
        } else {
            echo_ops(key, ui.cur_y(), ui.cur_x())
        },
        Mode::Editing => if key == Key::Character('\n') {
            frame
        } else {
            echo_ops(key, ui.cur_y(), ui.cur_x())
        },
        Mode::Finished => Seq::empty(),
    }
}

/// The text to store after a key: that of the list, on `q` in the list screen.
pub open spec fn step_save(pre: SessionView, key: Key) -> Option<Seq<char>> {
    if pre.mode == Mode::Browsing && key == Key::Character('q') {
        Some(encode_items(pre.items))
    } else {
        None
    }
}

/// Every key takes a consistent session to a consistent one: the cursor
/// always selects an entry, or the list is empty.
pub proof fn lemma_step_consistent(pre: SessionView, key: Key)
    requires
        consistent(pre),
    ensures
        consistent(next_view(pre, key)),
{
}

/// A session ends only on `q` in the list screen, and then stays ended.
pub proof fn lemma_finished_by_quit(pre: SessionView, key: Key)
    ensures
        next_view(pre, key).mode == Mode::Finished <==> pre.mode == Mode::Finished || (pre.mode
            == Mode::Browsing && key == Key::Character('q')),
{
}

/// The enter key leaves the insert and the edit screen for the list screen.
pub proof fn lemma_enter_returns(pre: SessionView)
    requires
        pre.mode == Mode::Inserting || pre.mode == Mode::Editing,
    ensures
        next_view(pre, Key::Character('\n')).mode == Mode::Browsing,
{
}

/// What one key asks of the program around the session.
#[derive(Debug)]
pub struct Action {
    /// What to draw.
    pub ops: Vec<DrawOp>,
    /// The text to store before the program ends, on the key that ends it.
    pub save: Option<String>,
}

/// The list, its cursor, the open screen and the text typed in it.
pub struct Session {
    todo_list: Vec<(String, bool)>,
    curr_todo: usize,
    mode: Mode,
    typed: Vec<char>,
}

impl View for Session {
    type V = SessionView;

    closed spec fn view(&self) -> SessionView {
        SessionView {
            items: self.todo_list.deep_view(),
            cursor: self.curr_todo as int,
            mode: self.mode,
            typed: self.typed@,
        }
    }
}

impl Session {
    #[verifier::type_invariant]
    spec fn well_formed(self) -> bool {
        consistent(self@)
    }

    /// A session on `todo_list`, in the list screen with the cursor at the top.
    pub fn new(todo_list: Vec<(String, bool)>) -> (session: Self)
        ensures
            session@ == (SessionView {
                items: todo_list.deep_view(),
                cursor: 0,
                mode: Mode::Browsing,
                typed: Seq::empty(),
            }),
    {
        Self { todo_list, curr_todo: 0, mode: Mode::Browsing, typed: Vec::new() }
    }

    /// The list.
    pub fn todo_list(&self) -> (todo_list: &Vec<(String, bool)>)
        ensures
            todo_list.deep_view() == self@.items,
    {
        &self.todo_list
    }

    /// The cursor, which selects an entry unless the list is empty.
    pub fn curr_todo(&self) -> (curr_todo: usize)
        ensures
            curr_todo == self@.cursor,
            cursor_in_range(self@.items.len() as int, curr_todo as int),
    {
        proof {
            use_type_invariant(self);
        }
        self.curr_todo
    }

    /// The open screen.
    pub fn mode(&self) -> (mode: Mode)
        ensures
            mode == self@.mode,
    {
        self.mode
    }

    /// The text typed so far in the insert or edit screen.
    pub fn typed(&self) -> (typed: &Vec<char>)
        ensures
            typed@ == self@.typed,
    {
        &self.typed
    }

    /// The list screen for this session.
    pub fn show(&self, ui: &UI) -> (ops: Vec<DrawOp>)
        ensures
            ops.deep_view() == list_frame_ops(
                self@.items,
                self@.cursor,
                color_pair_bits(REGULAR_PAIR as u32),
                color_pair_bits(HIGHLIGHTED_PAIR as u32),
                ui.max_y(),
                ui.max_x(),
            ),
    {
        ui.show_list(&self.todo_list, self.curr_todo)
    }

    /// Takes one key: the session moves to its next state, and the action says
    /// what to draw and, on the key that ends the session, what to store.
    pub fn step(self, ui: &UI, key: Key) -> (next: (Self, Action))
        ensures
            next.0@ == next_view(self@, key),
            consistent(next.0@),
            next.1.ops.deep_view() == step_ops(
                self@,
                key,
                *ui,
                color_pair_bits(REGULAR_PAIR as u32),
                color_pair_bits(HIGHLIGHTED_PAIR as u32),
            ),
            next.1.save.deep_view() == step_save(self@, key),
    {
        proof {
            use_type_invariant(&self);
            lemma_step_consistent(self@, key);
        }
        let Session { todo_list, curr_todo, mode, typed } = self;
        let mut todo_list = todo_list;
        let mut curr_todo = curr_todo;
        let mut typed = typed;
        match mode {
            Mode::Browsing => {
                match key {
                    Key::Character('w') => {
                        curr_todo = navigate_up(curr_todo);
                    },
                    Key::Character('s') => {
                        curr_todo = navigate_down(&todo_list, curr_todo);
                    },
                    Key::Character('\n') => {
                        if todo_list.len() > 0 {
                            let mut ops = ui.toggle_todo(&mut todo_list, curr_todo);
                            emit_all(&mut ops, ui.show_list(&todo_list, curr_todo));
                            let next = Session { todo_list, curr_todo, mode, typed };
                            return (next, Action { ops, save: None });
                        }
                    },
                    Key::KeyF2 => {
                        ui.delete_todo(&mut todo_list, &mut curr_todo);
                    },
                    Key::Character('i') => {
                        let ops = ui.enter_insert_mode();
                        let next = Session {
                            todo_list,
                            curr_todo,
                            mode: Mode::Inserting,
                            typed: Vec::new(),
                        };
                        return (next, Action { ops, save: None });
                    },
                    Key::Character('e') => {
                        match ui.enter_edit_mode(&todo_list, curr_todo) {
                            Some((typed, ops)) => {
                                let next = Session {
                                    todo_list,
                                    curr_todo,
                                    mode: Mode::Editing,
                                    typed,
                                };
                                return (next, Action { ops, save: None });
                            },
                            None => {},
                        }
                    },
                    Key::Character('q') => {
                        let contents = crate::codec::encode(&todo_list);
                        let next = Session { todo_list, curr_todo, mode: Mode::Finished, typed };
                        return (next, Action { ops: Vec::new(), save: Some(contents) });
                    },
                    _ => {},
                }
                let ops = ui.show_list(&todo_list, curr_todo);
                (Session { todo_list, curr_todo, mode, typed }, Action { ops, save: None })
            },
            Mode::Inserting => {
                let step = ui.insert_mode(&mut todo_list, &mut typed, key);
                let mut ops = step.ops;
                let mode = if step.closed {
                    emit_all(&mut ops, ui.show_list(&todo_list, curr_todo));
                    Mode::Browsing
                } else {
                    Mode::Inserting
                };
                (Session { todo_list, curr_todo, mode, typed }, Action { ops, save: None })
            },
            Mode::Editing => {
                let step = ui.edit_mode(&mut todo_list, curr_todo, &mut typed, key);
                let mut ops = step.ops;
                let mode = if step.closed {
                    emit_all(&mut ops, ui.show_list(&todo_list, curr_todo));
                    Mode::Browsing
                } else {
                    Mode::Editing
                };
                (Session { todo_list, curr_todo, mode, typed }, Action { ops, save: None })
            },
            Mode::Finished => {
                let ops: Vec<DrawOp> = Vec::new();
                (Session { todo_list, curr_todo, mode, typed }, Action { ops, save: None })
            },
        }
    }
}

} // verus!
