//! The storage format: one record per line, `<text>;<flag>`, where the flag is
//! the word `true` or `false`.
//!
//! The format is stated over sequences of characters. [`encode_items`] is what
//! is written for a list, [`decode_text`] is what is read back from a text, and
//! [`lemma_decode_encode`] relates the two.
use vstd::prelude::*;
use vstd::slice::slice_subrange;
use crate::text::{chars_of, string_from_chars};

verus! {

/// The flag word of a finished item.
pub open spec fn done_word() -> Seq<char> {
    seq!['t', 'r', 'u', 'e']
}

/// The flag word of an item that is still open.
pub open spec fn open_word() -> Seq<char> {
    seq!['f', 'a', 'l', 's', 'e']
}

/// The flag word that stands for `done`.
pub open spec fn flag_word(done: bool) -> Seq<char> {
    if done {
        done_word()
    } else {
        open_word()
    }
}

/// The line written for one item, with its line ending.
pub open spec fn encode_item(item: (Seq<char>, bool)) -> Seq<char> {
    item.0.push(';') + flag_word(item.1).push('\n')
}

/// The text written for a list: the lines of its items, in order.
pub open spec fn encode_items(items: Seq<(Seq<char>, bool)>) -> Seq<char>
    decreases items.len(),
{
    if items.len() == 0 {
        Seq::empty()
    } else {
        encode_item(items.first()) + encode_items(items.drop_first())
    }
}

/// The index of the first `c` in `s`, or the length of `s` where it holds none.
pub open spec fn position(s: Seq<char>, c: char) -> int
    decreases s.len(),
{
    if s.len() == 0 || s.first() == c {
        0
    } else {
        1 + position(s.drop_first(), c)
    }
}

/// The record that one line stands for, if it has the shape `<text>;<flag>`:
/// exactly one `;`, followed by one of the two flag words.
pub open spec fn decode_line(line: Seq<char>) -> Option<(Seq<char>, bool)> {
    let k = position(line, ';');
    if k >= line.len() {
        None
    } else if line.skip(k + 1) == done_word() {
        Some((line.take(k), true))
    } else if line.skip(k + 1) == open_word() {
        Some((line.take(k), false))
    } else {
        None
    }
}

/// A line as a list of records: one record, or none where the line is dropped.
pub open spec fn records_of_line(line: Seq<char>) -> Seq<(Seq<char>, bool)> {
    match decode_line(line) {
        Some(record) => seq![record],
        None => Seq::empty(),
    }
}

/// A line without the carriage return that may precede its line feed.
pub open spec fn trim_carriage_return(line: Seq<char>) -> Seq<char> {
    if line.len() > 0 && line.last() == '\r' {
        line.drop_last()
    } else {
        line
    }
}

/// The records that a text holds.
///
/// The text is cut at each line feed; a carriage return directly before a line
/// feed belongs to the line ending. What follows the last line feed is a line
/// too, unless it is empty. Lines that are no record are passed over.
pub open spec fn decode_text(text: Seq<char>) -> Seq<(Seq<char>, bool)>
    decreases text.len(),
{
    let n = position(text, '\n');
    if text.len() == 0 {
        Seq::empty()
    } else if 0 <= n < text.len() {
        records_of_line(trim_carriage_return(text.take(n))) + decode_text(text.skip(n + 1))
    } else {
        records_of_line(text)
    }
}

/// The list that is stored: the records of the text, or nothing where no text
/// was stored yet.
pub open spec fn stored_items(text: Option<Seq<char>>) -> Seq<(Seq<char>, bool)> {
    match text {
        Some(text) => decode_text(text),
        None => Seq::empty(),
    }
}

/// An index with no `c` before it, and `c` at it or the sequence's end, is the
/// `position` of `c`.
pub proof fn lemma_position_is(s: Seq<char>, c: char, n: int)
    requires
        0 <= n <= s.len(),
        forall|j: int| 0 <= j < n ==> s[j] != c,
        n < s.len() ==> s[n] == c,
    ensures
        position(s, c) == n,
    decreases s.len(),
{
    if s.len() == 0 || s.first() == c {
    } else {
        let rest = s.drop_first();
        assert forall|j: int| 0 <= j < n - 1 implies rest[j] != c by {
            assert(rest[j] == s[j + 1]);
        }
        lemma_position_is(rest, c, n - 1);
    }
}

/// Appending an item to a list appends its line to the text.
pub proof fn lemma_encode_push(items: Seq<(Seq<char>, bool)>, item: (Seq<char>, bool))
    ensures
        encode_items(items.push(item)) == encode_items(items) + encode_item(item),
    decreases items.len(),
{
    let longer = items.push(item);
    if items.len() == 0 {
        assert(longer.drop_first() =~= Seq::empty());
        assert(encode_items(longer.drop_first()) =~= Seq::empty());
        assert(encode_items(longer) =~= encode_items(items) + encode_item(item));
    } else {
        assert(longer.drop_first() =~= items.drop_first().push(item));
        lemma_encode_push(items.drop_first(), item);
        assert(encode_items(longer) =~= encode_items(items) + encode_item(item));
    }
}

/// Reading back what was written gives the list that was written, as long as
/// no item's text holds a `;` or a line feed.
pub proof fn lemma_decode_encode(items: Seq<(Seq<char>, bool)>)
    requires
        forall|i: int|
            0 <= i < items.len() ==> !(#[trigger] items[i]).0.contains(';')
                && !items[i].0.contains('\n'),
    ensures
        decode_text(encode_items(items)) == items,
    decreases items.len(),
{
    if items.len() > 0 {
        let head = items.first();
        let rest = items.drop_first();
        let line = head.0.push(';') + flag_word(head.1);
        let text = encode_items(items);
        let k = head.0.len() as int;
        let n = line.len() as int;
        assert(!head.0.contains(';') && !head.0.contains('\n'));
        assert forall|j: int| 0 <= j < k implies head.0[j] != ';' && head.0[j] != '\n' by {
            assert(head.0.contains(head.0[j]));
        }
        assert(text.len() > n);
        assert forall|j: int| 0 <= j < n implies text[j] == line[j] && line[j] != '\n' by {
            if j > k {
                assert(line[j] == flag_word(head.1)[j - k - 1]);
            }
        }
        assert(text[n] == '\n');
        lemma_position_is(text, '\n', n);
        assert(text.take(n) =~= line);
        assert(line.last() == 'e');
        assert(trim_carriage_return(line) == line);
        lemma_position_is(line, ';', k);
        assert(line.take(k) =~= head.0);
        assert(line.skip(k + 1) =~= flag_word(head.1));
        assert(open_word().len() != done_word().len());
        assert(decode_line(line) == Some(head));
        assert(text.skip(n + 1) =~= encode_items(rest));
        assert forall|i: int| 0 <= i < rest.len() implies !(#[trigger] rest[i]).0.contains(';')
            && !rest[i].0.contains('\n') by {
            assert(rest[i] == items[i + 1]);
        }
        lemma_decode_encode(rest);
        assert(seq![head] + rest =~= items);
    }
}

/// Storing a list twice with no change between gives the same text both
/// times, character by character and byte by byte.
pub proof fn lemma_encode_repeatable(
    items: Seq<(Seq<char>, bool)>,
    first: Seq<char>,
    second: Seq<char>,
)
    requires
        first == encode_items(items),
        second == encode_items(items),
    ensures
        first == second,
        vstd::utf8::encode_utf8(first) == vstd::utf8::encode_utf8(second),
{
}

/// The text that stores `todo_list`.
pub fn encode(todo_list: &Vec<(String, bool)>) -> (text: String)
    ensures
        text@ == encode_items(todo_list.deep_view()),
{
    let mut text = String::new();
    let mut i: usize = 0;
    while i < todo_list.len()
        invariant
            i <= todo_list.len(),
            text@ == encode_items(todo_list.deep_view().take(i as int)),
        decreases todo_list.len() - i,
    {
        let item = &todo_list[i];
        let ghost before = text@;
        text.append(item.0.as_str());
        if item.1 {
            text.append(";true\n");
        } else {
            text.append(";false\n");
        }
        proof {
            reveal_strlit(";true\n");
            reveal_strlit(";false\n");
            let written = todo_list.deep_view().take(i as int);
            let entry = todo_list.deep_view()[i as int];
            assert(entry == (item.0@, item.1));
            lemma_encode_push(written, entry);
            assert(written.push(entry) =~= todo_list.deep_view().take(i + 1));
            assert(text@ =~= before + encode_item(entry));
        }
        i += 1;
    }
    assert(todo_list.deep_view().take(i as int) =~= todo_list.deep_view());
    text
}

/// Whether `line`, from index `from` on, is exactly `word`.
fn rest_is_word(line: &Vec<char>, from: usize, word: &Vec<char>) -> (same: bool)
    requires
        from <= line.len(),
    ensures
        same == (line@.skip(from as int) == word@),
{
    if line.len() - from != word.len() {
        return false;
    }
    let mut j: usize = 0;
    while j < word.len()
        invariant
            j <= word.len(),
            from <= line.len(),
            line.len() - from == word.len(),
            forall|t: int| 0 <= t < j ==> line@[from + t] == word@[t],
        decreases word.len() - j,
    {
        if line[from + j] != word[j] {
            assert(line@.skip(from as int)[j as int] == line@[from + j]);
            return false;
        }
        j += 1;
    }
    assert(line@.skip(from as int) =~= word@);
    true
}

/// The record that `line` stands for, if it is one.
pub fn decode_record(line: &Vec<char>) -> (record: Option<(String, bool)>)
    ensures
        record.deep_view() == decode_line(line@),
{
    let n = line.len();
    let mut k: usize = 0;
    while k < n && line[k] != ';'
        invariant
            k <= n,
            n == line.len(),
            forall|j: int| 0 <= j < k ==> line@[j] != ';',
        decreases n - k,
    {
        k += 1;
    }
    proof {
        lemma_position_is(line@, ';', k as int);
    }
    if k >= n {
        return None;
    }
    let done = chars_of("true");
    let open = chars_of("false");
    proof {
        reveal_strlit("true");
        reveal_strlit("false");
        assert(done@ =~= done_word());
        assert(open@ =~= open_word());
    }
    let is_done = rest_is_word(line, k + 1, &done);
    let is_open = rest_is_word(line, k + 1, &open);
    if is_done || is_open {
        let text = string_from_chars(slice_subrange(line.as_slice(), 0, k));
        assert(text@ =~= line@.take(k as int));
        Some((text, is_done))
    } else {
        None
    }
}

/// Appends `record`, if there is one, to `items`.
fn keep_record(
    items: &mut Vec<(String, bool)>,
    record: Option<(String, bool)>,
    Ghost(line): Ghost<Seq<char>>,
)
    requires
        record.deep_view() == decode_line(line),
    ensures
        final(items).deep_view() == old(items).deep_view() + records_of_line(line),
{
    match record {
        Some(found) => {
            items.push(found);
            assert(items.deep_view() =~= old(items).deep_view() + records_of_line(line));
        },
        None => {
            assert(items.deep_view() =~= old(items).deep_view() + records_of_line(line));
        },
    }
}

/// The records that `text` holds, in order.
pub fn decode(text: &str) -> (items: Vec<(String, bool)>)
    ensures
        items.deep_view() == decode_text(text@),
{
    let chars = chars_of(text);
    let mut items: Vec<(String, bool)> = Vec::new();
    let mut line: Vec<char> = Vec::new();
    let mut i: usize = 0;
    let ghost start: int = 0;
    assert(chars@.skip(0) =~= chars@);
    assert(items.deep_view() + decode_text(chars@) =~= decode_text(chars@));
    while i < chars.len()
        invariant
            0 <= start <= i <= chars.len(),
            line@ == chars@.subrange(start, i as int),
            forall|j: int| start <= j < i ==> chars@[j] != '\n',
            decode_text(chars@) == items.deep_view() + decode_text(chars@.skip(start)),
        decreases chars.len() - i,
    {
        let c = chars[i];
        if c == '\n' {
            let ghost tail = chars@.skip(start);
            let ghost whole = line@;
            proof {
                lemma_position_is(tail, '\n', i - start);
                assert(tail.take(i - start) =~= whole);
                assert(tail.skip(i - start + 1) =~= chars@.skip(i + 1));
            }
            if line.len() > 0 && line[line.len() - 1] == '\r' {
                line.pop();
            }
            assert(line@ =~= trim_carriage_return(whole));
            let record = decode_record(&line);
            keep_record(&mut items, record, Ghost(line@));
            proof {
                start = i + 1;
                assert(decode_text(chars@) =~= items.deep_view() + decode_text(chars@.skip(start)));
            }
            line = Vec::new();
            assert(line@ =~= chars@.subrange(start, i + 1));
        } else {
            line.push(c);
            assert(line@ =~= chars@.subrange(start, i + 1));
        }
        i += 1;
    }
    let ghost tail = chars@.skip(start);
    assert(tail =~= line@);
    if line.len() > 0 {
        proof {
            lemma_position_is(tail, '\n', tail.len() as int);
        }
        let record = decode_record(&line);
        keep_record(&mut items, record, Ghost(line@));
    } else {
        assert(items.deep_view() + decode_text(tail) =~= items.deep_view());
    }
    items
}

} // verus!
