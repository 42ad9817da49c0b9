//! The terminal's side of the program, as values: the keys that come in, the
//! drawing operations that go out, and the frames of the three screens.
use vstd::prelude::*;
use crate::codec::{decode, encode, encode_items, stored_items};
use crate::store::{cursor_after_delete, deleted, edit, edited, insert, inserted, toggled};
use crate::text::{chars_of, string_from_chars};

verus! {

/// The colour pair in which an entry is drawn when it is not selected.
pub const REGULAR_PAIR: i16 = 0;

/// The colour pair in which the selected entry is drawn.
pub const HIGHLIGHTED_PAIR: i16 = 1;

/// One key press, as far as the program tells keys apart.
#[derive(Clone, Copy, Debug, PartialEq, Eq, Structural)]
pub enum Key {
    /// A key that produces a character; the enter key produces a line feed.
    Character(char),
    KeyBackspace,
    KeyF1,
    KeyF2,
    /// Any other key.
    Other,
}

/// One operation on the terminal window. Rows and columns count from zero, the
/// row first.
#[derive(Debug, PartialEq, Eq)]
pub enum DrawOp {
    /// Blank the window and put the cursor at the top left.
    Clear,
    /// Write a text at the cursor.
    AddStr(String),
    /// Move the cursor to a row and column and write a text there.
    MvAddStr(i32, i32, String),
    /// Write one character at the cursor.
    AddCh(char),
    /// Switch an attribute on for what is written next.
    AttrOn(u64),
    /// Switch an attribute off again.
    AttrOff(u64),
    /// Move the cursor to a row and column.
    Mv(i32, i32),
    /// Delete the character under the cursor.
    DelCh,
}

/// A drawing operation with its text as a sequence of characters.
pub enum DrawOpView {
    Clear,
    AddStr(Seq<char>),
    MvAddStr(i32, i32, Seq<char>),
    AddCh(char),
    AttrOn(u64),
    AttrOff(u64),
    Mv(i32, i32),
    DelCh,
}

impl DeepView for DrawOp {
    type V = DrawOpView;

    open spec fn deep_view(&self) -> DrawOpView {
        match *self {
            DrawOp::Clear => DrawOpView::Clear,
            DrawOp::AddStr(text) => DrawOpView::AddStr(text@),
            DrawOp::MvAddStr(row, col, text) => DrawOpView::MvAddStr(row, col, text@),
            DrawOp::AddCh(c) => DrawOpView::AddCh(c),
            DrawOp::AttrOn(attr) => DrawOpView::AttrOn(attr),
            DrawOp::AttrOff(attr) => DrawOpView::AttrOff(attr),
            DrawOp::Mv(row, col) => DrawOpView::Mv(row, col),
            DrawOp::DelCh => DrawOpView::DelCh,
        }
    }
}

/// Appends one operation to a frame.
pub fn emit(ops: &mut Vec<DrawOp>, op: DrawOp)
    ensures
        final(ops).deep_view() == old(ops).deep_view().push(op.deep_view()),
{
    ops.push(op);
    assert(ops.deep_view() =~= old(ops).deep_view().push(op.deep_view()));
}

/// Appends the operations of `more` to a frame.
pub fn emit_all(ops: &mut Vec<DrawOp>, more: Vec<DrawOp>)
    ensures
        final(ops).deep_view() == old(ops).deep_view() + more.deep_view(),
{
    let mut more = more;
    let ghost added = more.deep_view();
    ops.append(&mut more);
    assert(ops.deep_view() =~= old(ops).deep_view() + added);
}

/// The operation that writes `text` at a row and column.
pub fn put(row: i32, col: i32, text: &str) -> (op: DrawOp)
    ensures
        op.deep_view() == DrawOpView::MvAddStr(row, col, text@),
{
    DrawOp::MvAddStr(row, col, String::from_str(text))
}

/// The attribute bits that stand for a colour pair. They are chosen by the
/// curses backend that the program is built against, so nothing is said of
/// them but that they depend on the pair's number alone.
pub uninterp spec fn color_pair_bits(pair: u32) -> u64;

/// `pancurses::COLOR_PAIR`. Trusted: the attribute that it returns for a pair
/// is a function of the pair's number; the function shifts and masks that
/// number and reads nothing else.
#[verifier::external_body]
fn color_pair(pair: u32) -> (attr: u64)
    ensures
        attr == color_pair_bits(pair),
{
    pancurses::COLOR_PAIR(pair as pancurses::chtype) as u64
}

/// An integer folded into the 32 bits of a signed screen coordinate.
pub open spec fn folded(n: int) -> i32 {
    let low = n % 0x1_0000_0000;
    if low < 0x8000_0000 {
        low as i32
    } else {
        (low - 0x1_0000_0000) as i32
    }
}

/// The row on which the entry at `index` is drawn: one below the title.
pub open spec fn row_of(index: int) -> i32 {
    folded(index + 1)
}

/// The row on which the entry at `index` is drawn.
pub fn screen_row(index: usize) -> (row: i32)
    ensures
        row == row_of(index as int),
{
    let low: u64 = ((index as u64) % 0x1_0000_0000 + 1) % 0x1_0000_0000;
    if low < 0x8000_0000 {
        low as i32
    } else {
        (low as i64 - 0x1_0000_0000) as i32
    }
}

/// What stands in front of an entry's text: a box, ticked if it is done.
pub open spec fn entry_label(item: (Seq<char>, bool)) -> Seq<char> {
    if item.1 {
        "[x] "@ + item.0
    } else {
        "[ ] "@ + item.0
    }
}

/// The operations that draw one entry: the title, then the entry's line under
/// the attribute `attr`.
pub open spec fn entry_ops(index: int, item: (Seq<char>, bool), attr: u64) -> Seq<DrawOpView> {
    seq![
        DrawOpView::MvAddStr(0, 0, "Todos:"@),
        DrawOpView::AttrOn(attr),
        DrawOpView::MvAddStr(row_of(index), 0, entry_label(item)),
        DrawOpView::AttrOff(attr),
    ]
}

/// The operations that draw the first `n` entries, the one under the cursor
/// with the attribute `highlighted`, the others with `regular`.
pub open spec fn entries_ops(
    items: Seq<(Seq<char>, bool)>,
    n: int,
    cursor: int,
    regular: u64,
    highlighted: u64,
) -> Seq<DrawOpView>
    decreases n,
{
    if n <= 0 {
        Seq::empty()
    } else {
        entries_ops(items, n - 1, cursor, regular, highlighted) + entry_ops(
            n - 1,
            items[n - 1],
            if n - 1 == cursor {
                highlighted
            } else {
                regular
            },
        )
    }
}

/// The key help of the list screen, on the row `row`.
pub open spec fn main_menu_ops(row: i32) -> Seq<DrawOpView> {
    seq![
        DrawOpView::MvAddStr(row, 0, "[i]: insert todo"@),
        DrawOpView::MvAddStr(row, 19, "[F2]: delete todo"@),
        DrawOpView::MvAddStr(row, 39, "[e]: edit todo"@),
        DrawOpView::MvAddStr(row, 56, "[w s]: navigation"@),
        DrawOpView::MvAddStr(row, 76, "[q]: Save and exit"@),
    ]
}

/// The prompt and key help of the insert screen, whose last row is `row`; the
/// cursor is left where typing starts.
pub open spec fn insert_menu_ops(row: i32) -> Seq<DrawOpView> {
    seq![
        DrawOpView::MvAddStr(0, 0, "Digit your todo:"@),
        DrawOpView::MvAddStr(row, 0, "[Enter]: insert todo"@),
        DrawOpView::MvAddStr(row, 23, "[F1]: back"@),
        DrawOpView::Mv(1, 0),
    ]
}

/// The prompt and key help of the edit screen, whose last row is `row`.
pub open spec fn edit_menu_ops(row: i32) -> Seq<DrawOpView> {
    seq![
        DrawOpView::MvAddStr(0, 0, "Edit your todo:"@),
        DrawOpView::MvAddStr(row, 0, "[Enter]: save edit"@),
        DrawOpView::MvAddStr(row, 23, "[F1]: back"@),
    ]
}

/// The whole list screen on a window of `max_y` rows and `max_x` columns: the
/// entries or a note that there are none, the key help on the last row, and
/// the cursor parked in the bottom right corner.
pub open spec fn list_frame_ops(
    items: Seq<(Seq<char>, bool)>,
    cursor: int,
    regular: u64,
    highlighted: u64,
    max_y: i32,
    max_x: i32,
) -> Seq<DrawOpView> {
    let body = if items.len() == 0 {
        seq![DrawOpView::AddStr("None todos founded."@)]
    } else {
        entries_ops(items, items.len() as int, cursor, regular, highlighted)
    };
    seq![DrawOpView::Clear] + body + main_menu_ops((max_y - 1) as i32) + seq![
        DrawOpView::Mv((max_y - 1) as i32, (max_x - 1) as i32),
    ]
}

/// What a key press in the insert or edit screen leaves behind.
#[derive(Debug)]
pub struct Capture {
    /// Whether the screen was left: the text was taken over or given up.
    pub closed: bool,
    /// What to draw.
    pub ops: Vec<DrawOp>,
}

/// The text typed so far after one more key: a character is appended, the
/// backspace key takes the last one away if there is one, and any other key,
/// the enter key among them, leaves the text as it is.
pub open spec fn typed_after(typed: Seq<char>, key: Key) -> Seq<char> {
    match key {
        Key::Character(c) => if c == '\n' {
            typed
        } else {
            typed.push(c)
        },
        Key::KeyBackspace => if typed.len() > 0 {
            typed.drop_last()
        } else {
            typed
        },
        _ => typed,
    }
}

/// What a key that changes the typed text draws, with the window's cursor at
/// row `cur_y` and column `cur_x`: a character is written, and the backspace
/// key steps one column back and deletes what stands there.
pub open spec fn echo_ops(key: Key, cur_y: i32, cur_x: i32) -> Seq<DrawOpView> {
    match key {
        Key::Character(c) => if c == '\n' {
            Seq::empty()
        } else {
            seq![DrawOpView::AddCh(c)]
        },
        Key::KeyBackspace => seq![DrawOpView::Mv(cur_y, (cur_x - 1) as i32), DrawOpView::DelCh],
        _ => Seq::empty(),
    }
}

/// The insert screen before anything is typed, on a window of `max_y` rows.
pub open spec fn insert_screen_ops(max_y: i32) -> Seq<DrawOpView> {
    seq![DrawOpView::Clear] + insert_menu_ops((max_y - 1) as i32)
}

/// The edit screen for an entry with the text `text`, on a window of `max_y`
/// rows.
pub open spec fn edit_screen_ops(max_y: i32, text: Seq<char>) -> Seq<DrawOpView> {
    (seq![DrawOpView::Clear] + edit_menu_ops((max_y - 1) as i32)).push(
        DrawOpView::MvAddStr(1, 0, text),
    )
}

/// The terminal window as the program reads it: its size and where its cursor
/// stands. Neither the size nor the cursor's column is the least value of its
/// type, so that the position before each can be computed.
pub struct UI {
    max_y: i32,
    max_x: i32,
    cur_y: i32,
    cur_x: i32,
}

impl UI {
    #[verifier::type_invariant]
    spec fn well_formed(self) -> bool {
        self.max_y > i32::MIN && self.max_x > i32::MIN && self.cur_x > i32::MIN
    }

    /// The number of rows.
    pub closed spec fn max_y(self) -> i32 {
        self.max_y
    }

    /// The number of columns.
    pub closed spec fn max_x(self) -> i32 {
        self.max_x
    }

    /// The row of the cursor.
    pub closed spec fn cur_y(self) -> i32 {
        self.cur_y
    }

    /// The column of the cursor.
    pub closed spec fn cur_x(self) -> i32 {
        self.cur_x
    }

    /// A window of `max_y` rows and `max_x` columns whose cursor stands at row
    /// `cur_y` and column `cur_x`.
    pub fn new(max_y: i32, max_x: i32, cur_y: i32, cur_x: i32) -> (ui: Self)
        requires
            max_y > i32::MIN,
            max_x > i32::MIN,
            cur_x > i32::MIN,
        ensures
            ui.max_y() == max_y,
            ui.max_x() == max_x,
            ui.cur_y() == cur_y,
            ui.cur_x() == cur_x,
    {
        Self { max_y, max_x, cur_y, cur_x }
    }

    /// The key help of the list screen.
    pub fn draw_main_menu_ui(&self) -> (ops: Vec<DrawOp>)
        ensures
            self.max_y() > i32::MIN,
            ops.deep_view() == main_menu_ops((self.max_y() - 1) as i32),
    {
        proof {
            use_type_invariant(self);
        }
        let max_terminal_y = self.max_y - 1;
        let mut ops: Vec<DrawOp> = Vec::new();
        emit(&mut ops, put(max_terminal_y, 0, "[i]: insert todo"));
        emit(&mut ops, put(max_terminal_y, 19, "[F2]: delete todo"));
        emit(&mut ops, put(max_terminal_y, 39, "[e]: edit todo"));
        emit(&mut ops, put(max_terminal_y, 56, "[w s]: navigation"));
        emit(&mut ops, put(max_terminal_y, 76, "[q]: Save and exit"));
        assert(ops.deep_view() =~= main_menu_ops(max_terminal_y));
        ops
    }

    /// The prompt and key help of the insert screen.
    pub fn draw_insert_menu_ui(&self) -> (ops: Vec<DrawOp>)
        ensures
            self.max_y() > i32::MIN,
            ops.deep_view() == insert_menu_ops((self.max_y() - 1) as i32),
    {
        proof {
            use_type_invariant(self);
        }
        let mut ops: Vec<DrawOp> = Vec::new();
        emit(&mut ops, put(0, 0, "Digit your todo:"));
        emit(&mut ops, put(self.max_y - 1, 0, "[Enter]: insert todo"));
        emit(&mut ops, put(self.max_y - 1, 23, "[F1]: back"));
        emit(&mut ops, DrawOp::Mv(1, 0));
        assert(ops.deep_view() =~= insert_menu_ops((self.max_y - 1) as i32));
        ops
    }

    /// The prompt and key help of the edit screen.
    pub fn draw_edit_menu_ui(&self) -> (ops: Vec<DrawOp>)
        ensures
            self.max_y() > i32::MIN,
            ops.deep_view() == edit_menu_ops((self.max_y() - 1) as i32),
    {
        proof {
            use_type_invariant(self);
        }
        let mut ops: Vec<DrawOp> = Vec::new();
        emit(&mut ops, put(0, 0, "Edit your todo:"));
        emit(&mut ops, put(self.max_y - 1, 0, "[Enter]: save edit"));
        emit(&mut ops, put(self.max_y - 1, 23, "[F1]: back"));
        assert(ops.deep_view() =~= edit_menu_ops((self.max_y - 1) as i32));
        ops
    }

    /// The list screen, drawn with the two attributes given.
    pub fn list_frame(
        &self,
        todo_list: &Vec<(String, bool)>,
        curr_todo: usize,
        regular: u64,
        highlighted: u64,
    ) -> (ops: Vec<DrawOp>)
        ensures
            ops.deep_view() == list_frame_ops(
                todo_list.deep_view(),
                curr_todo as int,
                regular,
                highlighted,
                self.max_y(),
                self.max_x(),
            ),
    {
        proof {
            use_type_invariant(self);
        }
        let ghost items = todo_list.deep_view();
        let mut ops: Vec<DrawOp> = Vec::new();
        emit(&mut ops, DrawOp::Clear);
        if todo_list.len() == 0 {
            emit(&mut ops, DrawOp::AddStr(String::from_str("None todos founded.")));
        } else {
            let mut index: usize = 0;
            while index < todo_list.len()
                invariant
                    index <= todo_list.len(),
                    items == todo_list.deep_view(),
                    ops.deep_view() == seq![DrawOpView::Clear] + entries_ops(
                        items,
                        index as int,
                        curr_todo as int,
                        regular,
                        highlighted,
                    ),
                decreases todo_list.len() - index,
            {
                let item = &todo_list[index];
                let ghost before = ops.deep_view();
                emit(&mut ops, put(0, 0, "Todos:"));
                let pair_style = if index == curr_todo {
                    highlighted
                } else {
                    regular
                };
                let mut formatted_todo = if item.1 {
                    String::from_str("[x] ")
                } else {
                    String::from_str("[ ] ")
                };
                formatted_todo.append(item.0.as_str());
                assert(formatted_todo@ == entry_label(items[index as int]));
                emit(&mut ops, DrawOp::AttrOn(pair_style));
                emit(&mut ops, DrawOp::MvAddStr(screen_row(index), 0, formatted_todo));
                emit(&mut ops, DrawOp::AttrOff(pair_style));
                assert(ops.deep_view() =~= before + entry_ops(
                    index as int,
                    items[index as int],
                    pair_style,
                ));
                index += 1;
            }
        }
        emit_all(&mut ops, self.draw_main_menu_ui());
        emit(&mut ops, DrawOp::Mv(self.max_y - 1, self.max_x - 1));
        assert(ops.deep_view() =~= list_frame_ops(
            items,
            curr_todo as int,
            regular,
            highlighted,
            self.max_y,
            self.max_x,
        ));
        ops
    }

    /// The list screen: every entry on a row of its own, the one at
    /// `curr_todo` in the highlighted colour pair and the others in the
    /// regular one.
    pub fn show_list(&self, todo_list: &Vec<(String, bool)>, curr_todo: usize) -> (ops: Vec<
        DrawOp,
    >)
        ensures
            ops.deep_view() == list_frame_ops(
                todo_list.deep_view(),
                curr_todo as int,
                color_pair_bits(REGULAR_PAIR as u32),
                color_pair_bits(HIGHLIGHTED_PAIR as u32),
                self.max_y(),
                self.max_x(),
            ),
    {
        let regular = color_pair(REGULAR_PAIR as u32);
        let highlighted = color_pair(HIGHLIGHTED_PAIR as u32);
        self.list_frame(todo_list, curr_todo, regular, highlighted)
    }

    /// Takes one key into the typed text, and says what to draw for it.
    pub fn type_key(&self, typed: &mut Vec<char>, key: Key) -> (ops: Vec<DrawOp>)
        ensures
            final(typed)@ == typed_after(old(typed)@, key),
            self.cur_x() > i32::MIN,
            ops.deep_view() == echo_ops(key, self.cur_y(), self.cur_x()),
    {
        proof {
            use_type_invariant(self);
        }
        let mut ops: Vec<DrawOp> = Vec::new();
        match key {
            Key::Character(c) => {
                if c != '\n' {
                    typed.push(c);
                    emit(&mut ops, DrawOp::AddCh(c));
                }
            },
            Key::KeyBackspace => {
                typed.pop();
                emit(&mut ops, DrawOp::Mv(self.cur_y, self.cur_x - 1));
                emit(&mut ops, DrawOp::DelCh);
            },
            _ => {},
        }
        assert(typed@ =~= typed_after(old(typed)@, key));
        assert(ops.deep_view() =~= echo_ops(key, self.cur_y, self.cur_x));
        ops
    }

    /// The insert screen as it is drawn on entry; typing starts from an empty
    /// text.
    pub fn enter_insert_mode(&self) -> (ops: Vec<DrawOp>)
        ensures
            ops.deep_view() == insert_screen_ops(self.max_y()),
    {
        let mut ops: Vec<DrawOp> = Vec::new();
        emit(&mut ops, DrawOp::Clear);
        emit_all(&mut ops, self.draw_insert_menu_ui());
        ops
    }

    /// One key in the insert screen. The enter key appends the typed text to
    /// the list as an open entry and leaves the screen, F1 leaves it without
    /// touching the list, and every other key goes into the typed text.
    pub fn insert_mode(
        &self,
        todo_list: &mut Vec<(String, bool)>,
        typed: &mut Vec<char>,
        key: Key,
    ) -> (step: Capture)
        ensures
            step.closed == (key == Key::Character('\n') || key == Key::KeyF1),
            final(todo_list).deep_view() == if key == Key::Character('\n') {
                inserted(old(todo_list).deep_view(), old(typed)@)
            } else {
                old(todo_list).deep_view()
            },
            final(typed)@ == typed_after(old(typed)@, key),
            self.cur_x() > i32::MIN,
            step.ops.deep_view() == if key == Key::Character('\n') {
                seq![DrawOpView::Clear]
            } else {
                echo_ops(key, self.cur_y(), self.cur_x())
            },
    {
        match key {
            Key::Character('\n') => {
                proof {
                    use_type_invariant(self);
                }
                let mut ops: Vec<DrawOp> = Vec::new();
                emit(&mut ops, DrawOp::Clear);
                assert(ops.deep_view() =~= seq![DrawOpView::Clear]);
                insert(todo_list, string_from_chars(typed.as_slice()));
                Capture { closed: true, ops }
            },
            Key::KeyF1 => {
                let ops = self.type_key(typed, key);
                Capture { closed: true, ops }
            },
            _ => {
                let ops = self.type_key(typed, key);
                Capture { closed: false, ops }
            },
        }
    }

    /// The edit screen as it is drawn on entry, and the text from which typing
    /// starts: that of the entry at `curr_todo`. On an empty list there is
    /// nothing to edit.
    pub fn enter_edit_mode(&self, todo_list: &Vec<(String, bool)>, curr_todo: usize) -> (entered:
        Option<(Vec<char>, Vec<DrawOp>)>)
        requires
            todo_list.len() > 0 ==> curr_todo < todo_list.len(),
        ensures
            entered is Some <==> todo_list.len() > 0,
            entered matches Some(start) ==> {
                &&& start.0@ == todo_list.deep_view()[curr_todo as int].0
                &&& start.1.deep_view() == edit_screen_ops(self.max_y(), start.0@)
            },
    {
        if todo_list.len() > 0 {
            let mut ops: Vec<DrawOp> = Vec::new();
            emit(&mut ops, DrawOp::Clear);
            emit_all(&mut ops, self.draw_edit_menu_ui());
            let selected_todo = &todo_list[curr_todo];
            let sel_todo_as_vec = chars_of(selected_todo.0.as_str());
            emit(&mut ops, put(1, 0, selected_todo.0.as_str()));
            Some((sel_todo_as_vec, ops))
        } else {
            None
        }
    }

    /// One key in the edit screen. The enter key puts the typed text in place
    /// of the text of the entry at `curr_todo`, keeps its flag and leaves the
    /// screen; every other key goes into the typed text.
    pub fn edit_mode(
        &self,
        todo_list: &mut Vec<(String, bool)>,
        curr_todo: usize,
        typed: &mut Vec<char>,
        key: Key,
    ) -> (step: Capture)
        requires
            curr_todo < old(todo_list).len(),
        ensures
            step.closed == (key == Key::Character('\n')),
            final(todo_list).deep_view() == if key == Key::Character('\n') {
                edited(old(todo_list).deep_view(), curr_todo as int, old(typed)@)
            } else {
                old(todo_list).deep_view()
            },
            final(typed)@ == typed_after(old(typed)@, key),
            self.cur_x() > i32::MIN,
            step.ops.deep_view() == echo_ops(key, self.cur_y(), self.cur_x()),
    {
        match key {
            Key::Character('\n') => {
                proof {
                    use_type_invariant(self);
                }
                let ops: Vec<DrawOp> = Vec::new();
                assert(ops.deep_view() =~= echo_ops(key, self.cur_y, self.cur_x));
                edit(todo_list, curr_todo, string_from_chars(typed.as_slice()));
                Capture { closed: true, ops }
            },
            _ => {
                let ops = self.type_key(typed, key);
                Capture { closed: false, ops }
            },
        }
    }

    /// Flips the flag of the entry at `curr_todo`, and blanks the window for
    /// the frame that follows.
    pub fn toggle_todo(&self, todo_list: &mut Vec<(String, bool)>, curr_todo: usize) -> (ops: Vec<
        DrawOp,
    >)
        requires
            curr_todo < old(todo_list).len(),
        ensures
            final(todo_list).deep_view() == toggled(old(todo_list).deep_view(), curr_todo as int),
            ops.deep_view() == seq![DrawOpView::Clear],
    {
        let mut ops: Vec<DrawOp> = Vec::new();
        emit(&mut ops, DrawOp::Clear);
        let selected_todo = &todo_list[curr_todo];
        let check_todo = (selected_todo.0.clone(), !selected_todo.1);
        todo_list.set(curr_todo, check_todo);
        assert(todo_list.deep_view() =~= toggled(old(todo_list).deep_view(), curr_todo as int));
        assert(ops.deep_view() =~= seq![DrawOpView::Clear]);
        ops
    }

    /// Removes the entry under the cursor and moves the cursor one back, unless
    /// it is at the top. An empty list and its cursor stay as they are.
    pub fn delete_todo(&self, todo_list: &mut Vec<(String, bool)>, curr_todo: &mut usize)
        requires
            old(todo_list).len() > 0 ==> *old(curr_todo) < old(todo_list).len(),
        ensures
            final(todo_list).deep_view() == deleted(
                old(todo_list).deep_view(),
                *old(curr_todo) as int,
            ),
            *final(curr_todo) == cursor_after_delete(
                old(todo_list).len() as int,
                *old(curr_todo) as int,
            ),
    {
        if todo_list.len() > 0 {
            todo_list.remove(*curr_todo);
            if *curr_todo != 0 {
                *curr_todo -= 1;
            }
            assert(todo_list.deep_view() =~= deleted(
                old(todo_list).deep_view(),
                *old(curr_todo) as int,
            ));
        }
    }

    /// The text to store for `todo_list`: one line per entry, in order.
    pub fn save_and_close(self, todo_list: Vec<(String, bool)>) -> (contents: String)
        ensures
            contents@ == encode_items(todo_list.deep_view()),
    {
        encode(&todo_list)
    }

    /// Appends to `todo_list` the entries that the stored text `file_buf`
    /// holds, in order; lines that are no entry are passed over. Where nothing
    /// was stored yet, the list stays as it is.
    pub fn read_saved_todo(todo_list: &mut Vec<(String, bool)>, file_buf: Option<&str>)
        ensures
            final(todo_list).deep_view() == old(todo_list).deep_view() + stored_items(
                file_buf.deep_view(),
            ),
    {
        match file_buf {
            Some(text) => {
                let mut found = decode(text);
                let ghost added = found.deep_view();
                todo_list.append(&mut found);
                assert(todo_list.deep_view() =~= old(todo_list).deep_view() + added);
            },
            None => {
                assert(todo_list.deep_view() =~= old(todo_list).deep_view() + Seq::empty());
            },
        }
    }
}

} // verus!
