//! The stored form of the two lists, as mathematics: one item per line, each
//! line tagged `TODO: ` or `DONE: `, the todo items before the done items.
//!
//! Texts are sequences of characters, `Seq<char>`, and lists of items are
//! sequences of texts. The functions that read and write real strings are in
//! [`crate::codec`]; their contracts are stated in the terms defined here.

use crate::status::Status;
use vstd::prelude::*;

verus! {

/// The tag that starts the line of an item with the given status.
pub open spec fn prefix_of(status: Status) -> Seq<char> {
    match status {
        Status::Todo => "TODO: "@,
        Status::Done => "DONE: "@,
    }
}

/// The line that stores `item` under `status`: the tag, then the item.
pub open spec fn format_line(status: Status, item: Seq<char>) -> Seq<char> {
    prefix_of(status) + item
}

/// What a line says: the status its tag names and the item after the tag, or
/// `None` where the line starts with neither tag.
pub open spec fn parse_line(line: Seq<char>) -> Option<(Status, Seq<char>)> {
    if prefix_of(Status::Todo).is_prefix_of(line) {
        Some((Status::Todo, line.skip(prefix_of(Status::Todo).len() as int)))
    } else if prefix_of(Status::Done).is_prefix_of(line) {
        Some((Status::Done, line.skip(prefix_of(Status::Done).len() as int)))
    } else {
        None
    }
}

/// How many characters stand before the first line feed of `text`; the whole
/// length where it has none.
pub open spec fn first_line_len(text: Seq<char>) -> nat
    decreases text.len(),
{
    if text.len() == 0 || text[0] == '\n' {
        0
    } else {
        1 + first_line_len(text.drop_first())
    }
}

/// The lines of `text`. A line ends at a line feed, which is not part of it.
/// What follows the last line feed is a line too unless it is empty, so the
/// empty text has no lines and a final line feed adds none.
pub open spec fn lines_of(text: Seq<char>) -> Seq<Seq<char>>
    decreases text.len(),
{
    let k = first_line_len(text) as int;
    if text.len() == 0 {
        Seq::empty()
    } else if k >= text.len() {
        seq![text]
    } else {
        seq![text.take(k)] + lines_of(text.skip(k + 1))
    }
}

/// The items that `lines` store under `status`, in the order of the lines.
/// Lines of the other status, and lines without a tag, contribute nothing.
pub open spec fn items_of(lines: Seq<Seq<char>>, status: Status) -> Seq<Seq<char>>
    decreases lines.len(),
{
    if lines.len() == 0 {
        Seq::empty()
    } else {
        let before = items_of(lines.drop_last(), status);
        match parse_line(lines.last()) {
            Some((tag, item)) => if tag == status {
                before.push(item)
            } else {
                before
            },
            None => before,
        }
    }
}

/// Every line carries one of the two tags.
pub open spec fn all_tagged(lines: Seq<Seq<char>>) -> bool {
    forall|i: int| 0 <= i < lines.len() ==> parse_line(#[trigger] lines[i]) is Some
}

/// Line `number`, counted from 1, carries no tag and every line before it
/// carries one.
pub open spec fn is_first_untagged(lines: Seq<Seq<char>>, number: int) -> bool {
    &&& 1 <= number <= lines.len()
    &&& parse_line(lines[number - 1]) is None
    &&& all_tagged(lines.take(number - 1))
}

/// The stored form of `items` under one status: each item on a line of its
/// own that a line feed ends, in order.
pub open spec fn format_all(status: Status, items: Seq<Seq<char>>) -> Seq<char>
    decreases items.len(),
{
    if items.len() == 0 {
        Seq::empty()
    } else {
        format_all(status, items.drop_last()) + format_line(status, items.last()) + seq!['\n']
    }
}

/// The stored form of the two lists: the todo items first, then the done
/// items.
pub open spec fn stored_text(todos: Seq<Seq<char>>, dones: Seq<Seq<char>>) -> Seq<char> {
    format_all(Status::Todo, todos) + format_all(Status::Done, dones)
}

/// An item that fits on one line: it has no line feed in it.
pub open spec fn storable(item: Seq<char>) -> bool {
    forall|i: int| 0 <= i < item.len() ==> item[i] != '\n'
}

/// Every item of the list fits on one line.
pub open spec fn all_storable(items: Seq<Seq<char>>) -> bool {
    forall|i: int| 0 <= i < items.len() ==> storable(#[trigger] items[i])
}

/// The two tags written out character by character.
pub proof fn lemma_prefixes()
    ensures
        prefix_of(Status::Todo) == seq!['T', 'O', 'D', 'O', ':', ' '],
        prefix_of(Status::Done) == seq!['D', 'O', 'N', 'E', ':', ' '],
{
    reveal_strlit("TODO: ");
    reveal_strlit("DONE: ");
}

/// `first_line_len` is the one position that has no line feed before it and
/// either a line feed at it or the end of the text.
pub proof fn lemma_first_line_len(text: Seq<char>, k: int)
    requires
        0 <= k <= text.len(),
        forall|j: int| 0 <= j < k ==> text[j] != '\n',
        k < text.len() ==> text[k] == '\n',
    ensures
        first_line_len(text) == k,
    decreases text.len(),
{
    if k > 0 {
        let rest = text.drop_first();
        assert forall|j: int| 0 <= j < k - 1 implies rest[j] != '\n' by {
            assert(rest[j] == text[j + 1]);
        }
        lemma_first_line_len(rest, k - 1);
    }
}

/// `first_line_len` stops at the first line feed: nothing before it is one,
/// and it lies within the text.
pub proof fn lemma_first_line_len_bounds(text: Seq<char>)
    ensures
        first_line_len(text) <= text.len(),
        forall|j: int| 0 <= j < first_line_len(text) ==> text[j] != '\n',
        first_line_len(text) < text.len() ==> text[first_line_len(text) as int] == '\n',
    decreases text.len(),
{
    if text.len() > 0 && text[0] != '\n' {
        let rest = text.drop_first();
        lemma_first_line_len_bounds(rest);
        assert forall|j: int| 0 <= j < first_line_len(text) implies text[j] != '\n' by {
            if j > 0 {
                assert(text[j] == rest[j - 1]);
            }
        }
    }
}

/// A formatted line reads back as the status and the item it was made from,
/// whatever the item holds.
pub proof fn lemma_parse_format(status: Status, item: Seq<char>)
    ensures
        parse_line(format_line(status, item)) == Some((status, item)),
{
    lemma_prefixes();
    if status == Status::Done {
        // A done line starts with `D`, so the todo tag does not match it.
        assert(format_line(status, item)[0] != prefix_of(Status::Todo)[0]);
    }
}

/// Where a text ends in a line feed, or is empty, the lines of what follows
/// come after its own.
pub proof fn lemma_lines_of_concat(head: Seq<char>, tail: Seq<char>)
    requires
        head.len() > 0 ==> head.last() == '\n',
    ensures
        lines_of(head + tail) == lines_of(head) + lines_of(tail),
    decreases head.len(),
{
    if head.len() > 0 {
        // The first line of the whole text is the first line of `head`; the
        // rest of `head` ends as `head` does.
        let k = first_line_len(head) as int;
        lemma_first_line_len_bounds(head);
        let whole = head + tail;
        lemma_first_line_len(whole, k);
        assert(whole.take(k) == head.take(k));
        let rest = head.skip(k + 1);
        assert(whole.skip(k + 1) == rest + tail);
        lemma_lines_of_concat(rest, tail);
    }
}

/// The stored form of items that fit on one line splits into one line for
/// each item: the item's formatted line.
pub proof fn lemma_lines_of_format_all(status: Status, items: Seq<Seq<char>>)
    requires
        all_storable(items),
    ensures
        lines_of(format_all(status, items)) == items.map_values(
            |item: Seq<char>| format_line(status, item),
        ),
        format_all(status, items).len() > 0 ==> format_all(status, items).last() == '\n',
    decreases items.len(),
{
    if items.len() > 0 {
        lemma_prefixes();
        let front = items.drop_last();
        assert(all_storable(front)) by {
            assert forall|i: int| 0 <= i < front.len() implies storable(#[trigger] front[i]) by {
                assert(front[i] == items[i]);
            }
        }
        lemma_lines_of_format_all(status, front);
        // The last item's line, with its line feed, is one line of its own.
        let line = format_line(status, items.last());
        let ended = line + seq!['\n'];
        assert(format_all(status, items) == format_all(status, front) + ended);
        lemma_lines_of_concat(format_all(status, front), ended);
        assert forall|j: int| 0 <= j < line.len() implies ended[j] != '\n' by {
            if j >= 6 {
                assert(ended[j] == items.last()[j - 6]);
            }
        }
        lemma_first_line_len(ended, line.len() as int);
        assert(ended.take(line.len() as int) == line);
        assert(ended.skip(line.len() as int + 1) == Seq::<char>::empty());
        assert(lines_of(ended) == seq![line] + lines_of(Seq::<char>::empty()));
    }
}

/// The items of two runs of lines are those of the first run, then those of
/// the second.
pub proof fn lemma_items_of_concat(first: Seq<Seq<char>>, second: Seq<Seq<char>>, status: Status)
    ensures
        items_of(first + second, status) == items_of(first, status) + items_of(second, status),
    decreases second.len(),
{
    if second.len() > 0 {
        lemma_items_of_concat(first, second.drop_last(), status);
        assert((first + second).drop_last() == first + second.drop_last());
    }
}

/// Lines formatted under one status give back their items under that status
/// and nothing under the other, and each of them carries a tag.
pub proof fn lemma_items_of_formatted(tag: Status, items: Seq<Seq<char>>, status: Status)
    ensures
        tag == status ==> items_of(
            items.map_values(|item: Seq<char>| format_line(tag, item)),
            status,
        ) == items,
        tag != status ==> items_of(
            items.map_values(|item: Seq<char>| format_line(tag, item)),
            status,
        ) == Seq::<Seq<char>>::empty(),
        all_tagged(items.map_values(|item: Seq<char>| format_line(tag, item))),
    decreases items.len(),
{
    let lines = items.map_values(|item: Seq<char>| format_line(tag, item));
    assert forall|i: int| 0 <= i < lines.len() implies parse_line(#[trigger] lines[i]) is Some by {
        lemma_parse_format(tag, items[i]);
    }
    if items.len() > 0 {
        lemma_items_of_formatted(tag, items.drop_last(), status);
        lemma_parse_format(tag, items.last());
        assert(lines.drop_last() == items.drop_last().map_values(
            |item: Seq<char>| format_line(tag, item),
        ));
    }
}

/// Round trip: the stored form of two lists whose items fit on one line reads
/// back as the same two lists, item for item and in the same order, and none
/// of its lines lacks a tag.
pub proof fn lemma_round_trip(todos: Seq<Seq<char>>, dones: Seq<Seq<char>>)
    requires
        all_storable(todos),
        all_storable(dones),
    ensures
        all_tagged(lines_of(stored_text(todos, dones))),
        items_of(lines_of(stored_text(todos, dones)), Status::Todo) == todos,
        items_of(lines_of(stored_text(todos, dones)), Status::Done) == dones,
{
    let todo_lines = todos.map_values(|item: Seq<char>| format_line(Status::Todo, item));
    let done_lines = dones.map_values(|item: Seq<char>| format_line(Status::Done, item));
    lemma_lines_of_format_all(Status::Todo, todos);
    lemma_lines_of_format_all(Status::Done, dones);
    lemma_lines_of_concat(format_all(Status::Todo, todos), format_all(Status::Done, dones));
    let lines = lines_of(stored_text(todos, dones));
    lemma_items_of_formatted(Status::Todo, todos, Status::Todo);
    lemma_items_of_formatted(Status::Todo, todos, Status::Done);
    lemma_items_of_formatted(Status::Done, dones, Status::Todo);
    lemma_items_of_formatted(Status::Done, dones, Status::Done);
    lemma_items_of_concat(todo_lines, done_lines, Status::Todo);
    lemma_items_of_concat(todo_lines, done_lines, Status::Done);
    assert forall|i: int| 0 <= i < lines.len() implies parse_line(#[trigger] lines[i]) is Some by {
        if i < todo_lines.len() {
            assert(lines[i] == todo_lines[i]);
        } else {
            assert(lines[i] == done_lines[i - todo_lines.len()]);
        }
    }
}

} // verus!
