//! The list and its cursor: what each operation does, stated over a sequence of
//! `(text, done)` pairs and an index, and the operations that need no screen.
use vstd::prelude::*;

verus! {

/// Whether `cursor` selects an entry of a list of `len` entries, or rests at
/// zero on an empty list.
pub open spec fn cursor_in_range(len: int, cursor: int) -> bool {
    if len == 0 {
        cursor == 0
    } else {
        0 <= cursor < len
    }
}

/// The cursor after a step towards the top of the list.
pub open spec fn moved_up(cursor: int) -> int {
    if cursor > 0 {
        cursor - 1
    } else {
        cursor
    }
}

/// The cursor after a step towards the end of a list of `len` entries.
pub open spec fn moved_down(len: int, cursor: int) -> int {
    if len != 0 && cursor < len - 1 {
        cursor + 1
    } else {
        cursor
    }
}

/// The list with the flag of the entry at `at` flipped.
pub open spec fn toggled(items: Seq<(Seq<char>, bool)>, at: int) -> Seq<(Seq<char>, bool)> {
    items.update(at, (items[at].0, !items[at].1))
}

/// The list with a new, open entry at its end.
pub open spec fn inserted(items: Seq<(Seq<char>, bool)>, text: Seq<char>) -> Seq<
    (Seq<char>, bool),
> {
    items.push((text, false))
}

/// The list with the text of the entry at `at` replaced and its flag kept.
pub open spec fn edited(items: Seq<(Seq<char>, bool)>, at: int, text: Seq<char>) -> Seq<
    (Seq<char>, bool),
> {
    items.update(at, (text, items[at].1))
}

/// The list without the entry at `at`; an empty list stays as it is.
pub open spec fn deleted(items: Seq<(Seq<char>, bool)>, at: int) -> Seq<(Seq<char>, bool)> {
    if items.len() > 0 {
        items.remove(at)
    } else {
        items
    }
}

/// The cursor after the entry under it was deleted from a list of `len`
/// entries: one back, unless it was at the top or the list was empty.
pub open spec fn cursor_after_delete(len: int, cursor: int) -> int {
    if len > 0 && cursor != 0 {
        cursor - 1
    } else {
        cursor
    }
}

/// Moving up from the first entry, or down from the last, leaves the cursor
/// where it is.
pub proof fn lemma_navigation_stops_at_ends(len: int)
    requires
        len > 0,
    ensures
        moved_up(0) == 0,
        moved_down(len, len - 1) == len - 1,
{
}

/// Navigation keeps a cursor in range.
pub proof fn lemma_navigation_in_range(len: int, cursor: int)
    requires
        cursor_in_range(len, cursor),
    ensures
        cursor_in_range(len, moved_up(cursor)),
        cursor_in_range(len, moved_down(len, cursor)),
{
}

/// Deleting the entry under a cursor below the top moves the cursor one back
/// and shortens the list by one; a cursor at the top stays there.
pub proof fn lemma_delete_moves_cursor_back(items: Seq<(Seq<char>, bool)>, cursor: int)
    requires
        items.len() > 1,
        0 <= cursor < items.len(),
    ensures
        deleted(items, cursor).len() == items.len() - 1,
        cursor > 0 ==> cursor_after_delete(items.len() as int, cursor) == cursor - 1,
        cursor == 0 ==> cursor_after_delete(items.len() as int, cursor) == 0,
{
}

/// Deleting keeps a cursor in range, whatever the list's length.
pub proof fn lemma_delete_in_range(items: Seq<(Seq<char>, bool)>, cursor: int)
    requires
        cursor_in_range(items.len() as int, cursor),
    ensures
        cursor_in_range(
            deleted(items, cursor).len() as int,
            cursor_after_delete(items.len() as int, cursor),
        ),
{
}

/// Toggling an entry twice gives the list back: the flag returns and the text
/// was never touched.
pub proof fn lemma_toggle_twice(items: Seq<(Seq<char>, bool)>, at: int)
    requires
        0 <= at < items.len(),
    ensures
        toggled(toggled(items, at), at) == items,
        toggled(items, at)[at].0 == items[at].0,
        toggled(items, at)[at].1 == !items[at].1,
{
    assert(toggled(toggled(items, at), at) =~= items);
}

/// The cursor one entry up, or where it is at the top.
pub fn navigate_up(curr_todo: usize) -> (moved: usize)
    ensures
        moved == moved_up(curr_todo as int),
{
    if curr_todo > 0 {
        curr_todo - 1
    } else {
        curr_todo
    }
}

/// The cursor one entry down, or where it is at the last entry.
pub fn navigate_down(todo_list: &Vec<(String, bool)>, curr_todo: usize) -> (moved: usize)
    ensures
        moved == moved_down(todo_list.len() as int, curr_todo as int),
{
    if todo_list.len() != 0 && curr_todo < todo_list.len() - 1 {
        curr_todo + 1
    } else {
        curr_todo
    }
}

/// Appends an open entry with this text.
pub fn insert(todo_list: &mut Vec<(String, bool)>, text: String)
    ensures
        final(todo_list).deep_view() == inserted(old(todo_list).deep_view(), text@),
{
    todo_list.push((text, false));
    assert(todo_list.deep_view() =~= inserted(old(todo_list).deep_view(), text@));
}

/// Replaces the text of the entry at `curr_todo`.
pub fn edit(todo_list: &mut Vec<(String, bool)>, curr_todo: usize, text: String)
    requires
        curr_todo < old(todo_list).len(),
    ensures
        final(todo_list).deep_view() == edited(
            old(todo_list).deep_view(),
            curr_todo as int,
            text@,
        ),
{
    let is_checked = todo_list[curr_todo].1;
    todo_list.remove(curr_todo);
    todo_list.insert(curr_todo, (text, is_checked));
    assert(todo_list.deep_view() =~= edited(
        old(todo_list).deep_view(),
        curr_todo as int,
        text@,
    ));
}

} // verus!
