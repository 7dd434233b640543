//! Reading and writing the stored form of the two lists.
//!
//! The form itself, and what it means to read it, is defined in
//! [`crate::grammar`]. The functions here work on strings and are proved to
//! compute what is defined there.

use crate::grammar::{
    all_tagged, format_all, is_first_untagged, items_of, lemma_first_line_len, lines_of,
    parse_line, stored_text,
};
use crate::status::Status;
use vstd::prelude::*;
use vstd::std_specs::iter::IteratorSpec;
use vstd::string::{StringExecFns, StringSliceAdditionalSpecFns};
use vstd::utf8::{
    decode_utf8, decode_utf8_split, encode_scalar, encode_utf8, encode_utf8_decode_utf8,
    encode_utf8_valid_utf8, is_char_boundary, is_char_boundary_iff_not_is_continuation_byte,
    pop_first_scalar, valid_utf8, valid_utf8_split,
};

verus! {

/// A line of the stored text that starts with neither tag.
#[derive(Clone, Copy, Debug, PartialEq, Eq, Structural)]
pub struct FormatError {
    /// The number of the offending line, counted from 1.
    pub line: usize,
}

/// The ten digits in order.
pub open spec fn digits() -> Seq<char> {
    "0123456789"@
}

/// `n` written out in decimal digits, without leading zeros.
pub open spec fn decimal(n: nat) -> Seq<char>
    decreases n,
{
    if n < 10 {
        seq![digits()[n as int]]
    } else {
        decimal(n / 10).push(digits()[(n % 10) as int])
    }
}

/// The report of a line without a tag: the path of the file, the number of
/// the line, and what is wrong with it.
pub open spec fn diagnostic_text(file_path: Seq<char>, line: nat) -> Seq<char> {
    file_path + ":"@ + decimal(line) + ": ERROR: item line format incorrectly"@
}

/// Writes `n` out in decimal digits.
fn decimal_text(n: usize) -> (text: String)
    ensures
        text@ == decimal(n as nat),
    decreases n,
{
    proof {
        reveal_strlit("0123456789");
    }
    let last: usize = n % 10;
    let digit = "0123456789".substring_char(last, last + 1);
    if n < 10 {
        String::from_str(digit)
    } else {
        let mut text = decimal_text(n / 10);
        text.append(digit);
        text
    }
}

impl FormatError {
    /// The report of this error for the file at `file_path`.
    pub fn diagnostic(&self, file_path: &str) -> (text: String)
        ensures
            text@ == diagnostic_text(file_path@, self.line as nat),
    {
        let number = decimal_text(self.line);
        let mut text = String::from_str(file_path);
        text.append(":");
        text.append(number.as_str());
        text.append(": ERROR: item line format incorrectly");
        text
    }
}

/// Whether `line` begins with `prefix`, character for character.
fn has_prefix(line: &str, prefix: &str) -> (found: bool)
    ensures
        found == prefix@.is_prefix_of(line@),
{
    let mut rest = line.chars();
    let mut wanted = prefix.chars();
    let ghost mut seen: int = 0;
    loop
        invariant
            0 <= seen <= prefix@.len(),
            seen <= line@.len(),
            rest.remaining() == line@.skip(seen),
            wanted.remaining() == prefix@.skip(seen),
            line@.take(seen) == prefix@.take(seen),
        decreases prefix@.len() - seen,
    {
        match wanted.next() {
            None => {
                return true;
            },
            Some(p) => {
                match rest.next() {
                    None => {
                        return false;
                    },
                    Some(c) => {
                        if c != p {
                            return false;
                        }
                        proof {
                            seen = seen + 1;
                        }
                    },
                }
            },
        }
    }
}

/// The part of `line` after its first `skip` characters.
fn after_prefix(line: &str, skip: usize) -> (rest: &str)
    requires
        skip <= line@.len(),
    ensures
        rest@ == line@.skip(skip as int),
{
    let end: usize = line.unicode_len();
    line.substring_char(skip, end)
}

/// Reads one line: the status its tag names and the text after the tag.
/// A line that starts with neither `TODO: ` nor `DONE: ` gives `None`.
pub fn parse_todo(line: &str) -> (parsed: Option<(Status, &str)>)
    ensures
        parsed is Some <==> parse_line(line@) is Some,
        parsed matches Some((status, title)) ==> parse_line(line@) == Some((status, title@)),
{
    let todo_prefix = "TODO: ";
    let done_prefix = "DONE: ";
    if has_prefix(line, todo_prefix) {
        return Some((Status::Todo, after_prefix(line, todo_prefix.unicode_len())));
    }
    if has_prefix(line, done_prefix) {
        return Some((Status::Done, after_prefix(line, done_prefix.unicode_len())));
    }
    None
}

/// A line feed in a text shows in its UTF-8 bytes as a byte 10.
proof fn lemma_line_feed_byte(text: Seq<char>, at: int) -> (place: int)
    requires
        0 <= at < text.len(),
        text[at] == '\n',
    ensures
        0 <= place < encode_utf8(text).len(),
        encode_utf8(text)[place] == 10u8,
    decreases text.len(),
{
    if at == 0 {
        assert((10u32 & 0x7F) as u8 == 10u8) by (bit_vector);
        0
    } else {
        let later = lemma_line_feed_byte(text.drop_first(), at - 1);
        encode_scalar(text[0] as u32).len() + later
    }
}

/// A text whose UTF-8 bytes hold no byte 10 holds no line feed.
proof fn lemma_no_line_feed(text: Seq<char>)
    requires
        forall|place: int|
            0 <= place < encode_utf8(text).len() ==> encode_utf8(text)[place] != 10u8,
    ensures
        forall|at: int| 0 <= at < text.len() ==> text[at] != '\n',
{
    assert forall|at: int| 0 <= at < text.len() implies text[at] != '\n' by {
        if text[at] == '\n' {
            lemma_line_feed_byte(text, at);
        }
    }
}

/// The text of a string that holds the single byte 10 is a line feed.
proof fn lemma_line_feed_text(bytes: Seq<u8>)
    requires
        bytes == seq![10u8],
        valid_utf8(bytes),
    ensures
        decode_utf8(bytes) == seq!['\n'],
{
    assert((10u8 & 0x7F) as u32 == 10u32) by (bit_vector);
    assert(pop_first_scalar(bytes) == Seq::<u8>::empty());
    assert(decode_utf8(bytes) == seq![10u32 as char] + decode_utf8(Seq::<u8>::empty()));
}

/// Cuts `text` into its lines.
pub fn split_lines(text: &str) -> (lines: Vec<String>)
    ensures
        lines.deep_view() == lines_of(text@),
{
    let mut lines: Vec<String> = Vec::new();
    let mut rest: &str = text;
    loop
        invariant_except_break
            lines_of(text@) == lines.deep_view() + lines_of(rest@),
        ensures
            lines.deep_view() == lines_of(text@),
        decreases rest@.len(),
    {
        // The line feed is looked for among the bytes: in UTF-8 the byte 10
        // stands for a line feed and is part of no other character.
        let bytes = rest.as_bytes();
        proof {
            encode_utf8_valid_utf8(rest@);
            encode_utf8_decode_utf8(rest@);
        }
        let mut end: usize = 0;
        while end < bytes.len() && bytes[end] != 10
            invariant
                end <= bytes.len(),
                forall|place: int| 0 <= place < end ==> bytes@[place] != 10u8,
            decreases bytes.len() - end,
        {
            end = end + 1;
        }
        if end == bytes.len() {
            // No line feed is left: what is left is the last line, or nothing.
            if end > 0 {
                proof {
                    lemma_no_line_feed(rest@);
                    lemma_first_line_len(rest@, rest@.len() as int);
                }
                lines.push(rest.to_owned());
            } else {
                // No byte is left, so no character is: each takes a byte.
                assert(rest@.len() == 0) by {
                    if rest@.len() > 0 {
                        assert(encode_utf8(rest@).len() > 0);
                    }
                }
            }
            break ;
        }
        proof {
            // A byte 10 starts a character, and a character starts after it.
            is_char_boundary_iff_not_is_continuation_byte(bytes@, end as int);
        }
        let (line, after) = rest.split_at(end);
        proof {
            // The text is the text of `line`, then that of `after`.
            valid_utf8_split(bytes@, end as int);
            decode_utf8_split(bytes@, end as int);
            encode_utf8_decode_utf8(line@);
            encode_utf8_decode_utf8(after@);
            reveal_with_fuel(is_char_boundary, 2);
        }
        let (feed, next) = after.split_at(1);
        proof {
            // The text of `after` is a line feed, then the text of `next`;
            // so `line` is the first line of `rest`, and `next` what follows.
            valid_utf8_split(after.spec_bytes(), 1);
            decode_utf8_split(after.spec_bytes(), 1);
            encode_utf8_decode_utf8(feed@);
            encode_utf8_decode_utf8(next@);
            lemma_line_feed_text(feed.spec_bytes());
            lemma_no_line_feed(line@);
            lemma_first_line_len(rest@, line@.len() as int);
            assert(rest@.take(line@.len() as int) == line@);
            assert(rest@.skip(line@.len() as int + 1) == next@);
        }
        lines.push(line.to_owned());
        rest = next;
    }
    lines
}

/// Reads the stored text into the todo items and the done items, each in the
/// order of their lines. The first line without a tag stops the reading and is
/// reported by its number; nothing is returned of the lines before it.
pub fn load_state(text: &str) -> (loaded: Result<(Vec<String>, Vec<String>), FormatError>)
    ensures
        loaded is Ok <==> all_tagged(lines_of(text@)),
        loaded matches Ok((todos, dones)) ==> todos.deep_view() == items_of(
            lines_of(text@),
            Status::Todo,
        ),
        loaded matches Ok((todos, dones)) ==> dones.deep_view() == items_of(
            lines_of(text@),
            Status::Done,
        ),
        loaded matches Err(error) ==> is_first_untagged(lines_of(text@), error.line as int),
{
    let lines = split_lines(text);
    let mut todos: Vec<String> = Vec::new();
    let mut dones: Vec<String> = Vec::new();
    let mut index: usize = 0;
    while index < lines.len()
        invariant
            index <= lines.len(),
            lines.deep_view() == lines_of(text@),
            all_tagged(lines_of(text@).take(index as int)),
            todos.deep_view() == items_of(lines_of(text@).take(index as int), Status::Todo),
            dones.deep_view() == items_of(lines_of(text@).take(index as int), Status::Done),
        decreases lines.len() - index,
    {
        let ghost all = lines_of(text@);
        assert(all.take(index + 1).drop_last() == all.take(index as int));
        match parse_todo(lines[index].as_str()) {
            Some((Status::Todo, title)) => {
                todos.push(title.to_owned());
            },
            Some((Status::Done, title)) => {
                dones.push(title.to_owned());
            },
            None => {
                assert(!all_tagged(all)) by {
                    assert(parse_line(all[index as int]) is None);
                }
                return Err(FormatError { line: index + 1 });
            },
        }
        index = index + 1;
    }
    assert(lines_of(text@).take(index as int) == lines_of(text@));
    Ok((todos, dones))
}

/// Appends the stored form of `items` under `status` to `out`.
fn write_items(out: &mut String, status: Status, items: &Vec<String>)
    ensures
        final(out)@ == old(out)@ + format_all(status, items.deep_view()),
{
    let mut index: usize = 0;
    while index < items.len()
        invariant
            index <= items.len(),
            out@ == old(out)@ + format_all(status, items.deep_view().take(index as int)),
        decreases items.len() - index,
    {
        let ghost all = items.deep_view();
        assert(all.take(index + 1).drop_last() == all.take(index as int));
        match status {
            Status::Todo => out.append("TODO: "),
            Status::Done => out.append("DONE: "),
        }
        out.append(items[index].as_str());
        out.append("\n");
        proof {
            reveal_strlit("\n");
        }
        index = index + 1;
    }
    assert(items.deep_view().take(index as int) == items.deep_view());
}

/// Writes the two lists in their stored form: the todo items, then the done
/// items.
pub fn save_state(todos: &Vec<String>, dones: &Vec<String>) -> (text: String)
    ensures
        text@ == stored_text(todos.deep_view(), dones.deep_view()),
{
    let mut text = String::new();
    write_items(&mut text, Status::Todo, todos);
    write_items(&mut text, Status::Done, dones);
    text
}

} // verus!
