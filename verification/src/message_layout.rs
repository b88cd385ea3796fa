//! Layout of a free-text message into the three lines of the message screen.
//!
//! A message is broken into paragraphs at line breaks and into words at
//! white space. Words are packed greedily into lines of at most
//! [`MESSAGE_LINE_LENGTH`] characters; a word too long for an empty line is
//! cut and ends in `"..."`. Each line is a fixed-capacity string of
//! [`MESSAGE_SIZE`] bytes.

use vstd::prelude::*;
use vstd::string::*;

use crate::text::{char_width, is_line_break, is_white_space, utf8_len};

verus! {

/// Characters that fit in one line of the message screen.
pub const MESSAGE_LINE_LENGTH: usize = 18;

/// Characters of a whole message: three lines.
pub const MESSAGE_LENGTH: usize = MESSAGE_LINE_LENGTH * 3;

/// Bytes that a line buffer holds: a UTF-8 character takes up to four bytes.
pub const MESSAGE_SIZE: usize = MESSAGE_LENGTH * 4;

/// Lines of the message screen.
pub const MESSAGE_LINES: usize = 3;

/// A fixed-capacity line buffer.
pub type MessageLine = heapless::String<MESSAGE_SIZE>;

/// The lines of a laid-out message.
pub type MessageLines = heapless::Vec<MessageLine, MESSAGE_LINES>;

#[verifier::external_type_specification]
#[verifier::external_body]
pub struct ExFixedString<const N: usize>(heapless::String<N>);

#[verifier::external_type_specification]
#[verifier::external_body]
#[verifier::reject_recursive_types(T)]
pub struct ExFixedVec<T, const N: usize>(heapless::Vec<T, N>);

/// The characters that a line buffer holds.
pub uninterp spec fn line_text(line: heapless::String<216>) -> Seq<char>;

/// The characters of each line that a line list holds, in order.
pub uninterp spec fn lines_text(lines: heapless::Vec<heapless::String<216>, 3>) -> Seq<Seq<char>>;

/// Bytes of the `UTF-8` encoding of a character, by its code point.
fn utf8_width(c: char) -> (r: usize)
    ensures
        r == char_width(c),
{
    let v = c as u32;
    if v < 0x80 {
        1
    } else if v < 0x800 {
        2
    } else if v < 0x10000 {
        3
    } else {
        4
    }
}

/// Whether a character has Unicode's `White_Space` property.
fn white_space(c: char) -> (r: bool)
    ensures
        r == is_white_space(c),
{
    let v = c as u32;
    (0x09 <= v && v <= 0x0D) || v == 0x20 || v == 0x85 || v == 0xA0 || v == 0x1680 || (0x2000
        <= v && v <= 0x200A) || v == 0x2028 || v == 0x2029 || v == 0x202F || v == 0x205F || v
        == 0x3000
}

/// `heapless::String::new`: an empty line buffer.
#[verifier::external_body]
fn line_new() -> (r: MessageLine)
    ensures
        line_text(r) == Seq::<char>::empty(),
{
    heapless::String::new()
}

/// `heapless::String::push`: appends `c` when its encoding still fits in the
/// capacity, and leaves the buffer unchanged otherwise.
#[verifier::external_body]
fn line_push(line: &mut MessageLine, c: char) -> (r: Result<(), ()>)
    ensures
        utf8_len(line_text(*old(line))) + char_width(c) <= MESSAGE_SIZE ==> r is Ok
            && line_text(*final(line)) == line_text(*old(line)).push(c),
        utf8_len(line_text(*old(line))) + char_width(c) > MESSAGE_SIZE ==> r is Err
            && line_text(*final(line)) == line_text(*old(line)),
{
    line.push(c)
}

/// `heapless::String::push_str`: appends `s` when its encoding still fits in
/// the capacity, and leaves the buffer unchanged otherwise.
#[verifier::external_body]
fn line_push_str(line: &mut MessageLine, s: &str) -> (r: Result<(), ()>)
    ensures
        utf8_len(line_text(*old(line))) + utf8_len(s@) <= MESSAGE_SIZE ==> r is Ok
            && line_text(*final(line)) == line_text(*old(line)) + s@,
        utf8_len(line_text(*old(line))) + utf8_len(s@) > MESSAGE_SIZE ==> r is Err
            && line_text(*final(line)) == line_text(*old(line)),
{
    line.push_str(s)
}

/// The bytes that the buffer holds: `str::len` of its text, reached through
/// the `Deref` of `heapless::String`.
#[verifier::external_body]
fn line_byte_len(line: &MessageLine) -> (r: usize)
    ensures
        r == utf8_len(line_text(*line)),
{
    line.len()
}

/// `heapless::String::as_str`: the text that the buffer holds.
#[verifier::external_body]
fn line_as_str(line: &MessageLine) -> (r: &str)
    ensures
        r@ == line_text(*line),
{
    line.as_str()
}

/// `heapless::Vec::new`: an empty line list.
#[verifier::external_body]
fn lines_new() -> (r: MessageLines)
    ensures
        lines_text(r) == Seq::<Seq<char>>::empty(),
{
    heapless::Vec::new()
}

/// `heapless::Vec::push`: appends a line while fewer than three are held,
/// and hands the line back otherwise.
#[verifier::external_body]
fn lines_push(lines: &mut MessageLines, line: MessageLine) -> (r: Result<(), MessageLine>)
    ensures
        lines_text(*old(lines)).len() < MESSAGE_LINES ==> r is Ok && lines_text(*final(lines))
            == lines_text(*old(lines)).push(line_text(line)),
        lines_text(*old(lines)).len() >= MESSAGE_LINES ==> r is Err && lines_text(*final(lines))
            == lines_text(*old(lines)),
{
    lines.push(line)
}


/// Position of the first white-space character of `s`.
pub open spec fn first_white_space(s: Seq<char>) -> Option<nat>
    decreases s.len(),
{
    if s.len() == 0 {
        None
    } else if is_white_space(s[0]) {
        Some(0)
    } else {
        match first_white_space(s.drop_first()) {
            Some(i) => Some(i + 1),
            None => None,
        }
    }
}

/// Position of the first line break of `s`.
pub open spec fn first_line_break(s: Seq<char>) -> Option<nat>
    decreases s.len(),
{
    if s.len() == 0 {
        None
    } else if is_line_break(s[0]) {
        Some(0)
    } else {
        match first_line_break(s.drop_first()) {
            Some(i) => Some(i + 1),
            None => None,
        }
    }
}

/// `s` without its leading white space.
pub open spec fn trim_start(s: Seq<char>) -> Seq<char>
    decreases s.len(),
{
    if s.len() > 0 && is_white_space(s[0]) {
        trim_start(s.drop_first())
    } else {
        s
    }
}

/// The first word of `text` and what follows it without leading white space;
/// a text without white space is one word followed by nothing.
pub open spec fn split_white_space_once(text: Seq<char>) -> (Seq<char>, Seq<char>) {
    match first_white_space(text) {
        Some(i) => (text.take(i as int), trim_start(text.skip(i as int + 1))),
        None => (text, Seq::<char>::empty()),
    }
}

/// The first paragraph of `text` and what follows its line break without
/// leading white space; a text without line break is one paragraph.
pub open spec fn split_line_once(text: Seq<char>) -> (Seq<char>, Seq<char>) {
    match first_line_break(text) {
        Some(i) => (text.take(i as int), trim_start(text.skip(i as int + 1))),
        None => (text, Seq::<char>::empty()),
    }
}

/// The ellipsis that ends a cut word.
pub open spec fn ellipsis() -> Seq<char> {
    seq!['.', '.', '.']
}

/// Greedy filling of `line`, which counts `len` characters, with the words
/// of `rest`; `old_rest` is what remained before the last word was taken.
/// The result is the filled line, its length as counted, and what remains of
/// the text. A word too long for an empty line is cut to its first fifteen
/// characters, followed by `"..."`; a word too long for a line that already
/// holds text is left for the next line.
pub open spec fn fill_words_from(line: Seq<char>, len: nat, rest: Seq<char>, old_rest: Seq<char>)
    -> Option<(Seq<char>, nat, Seq<char>)>
    decreases rest.len(),
{
    if utf8_len(line) > MESSAGE_LINE_LENGTH {
        Some((line, len, rest))
    } else {
        let word = split_white_space_once(rest).0;
        let rest2 = split_white_space_once(rest).1;
        if word.len() == 0 {
            Some((line, len, rest2))
        } else {
            let space: nat = if len > 0 {
                1
            } else {
                0
            };
            if len + word.len() + space <= MESSAGE_LINE_LENGTH {
                let line2 = if space > 0 {
                    line.push(' ') + word
                } else {
                    line + word
                };
                proof {
                    lemma_split_white_space_shrinks(rest);
                }
                fill_words_from(line2, len + space + word.len(), rest2, rest2)
            } else if line.len() == 0 {
                let step: nat = (MESSAGE_LINE_LENGTH - space - 3) as nat;
                let spaced = if space > 0 {
                    line.push(' ')
                } else {
                    line
                };
                let part = if word.len() >= step {
                    word.take(step as int)
                } else {
                    word
                };
                Some((spaced + part + ellipsis(), len + space + step + 3, rest2))
            } else {
                Some((line, len, old_rest))
            }
        }
    }
}

/// Filling an empty line with the words of `msg`.
pub open spec fn fill_words(msg: Seq<char>) -> Option<(Seq<char>, nat, Seq<char>)> {
    fill_words_from(Seq::<char>::empty(), 0, msg, msg)
}

/// Number of lines of `lines` that hold some text.
pub open spec fn non_empty_count(lines: Seq<Seq<char>>) -> nat
    decreases lines.len(),
{
    if lines.len() == 0 {
        0
    } else {
        non_empty_count(lines.drop_last()) + if lines.last().len() > 0 {
            1nat
        } else {
            0nat
        }
    }
}

/// The first lines, as many as there are lines with text.
pub open spec fn drop_trailing(lines: Seq<Seq<char>>) -> Seq<Seq<char>> {
    lines.take(non_empty_count(lines) as int)
}

/// Layout that takes the next line for the next paragraph of `rest`.
pub open spec fn layout_from(lines: Seq<Seq<char>>, next: int, rest: Seq<char>) -> Option<Seq<Seq<char>>>
    decreases 4 - next, 0int,
{
    if next >= MESSAGE_LINES || next < 0 {
        Some(drop_trailing(lines))
    } else {
        let para = split_line_once(rest).0;
        let rest2 = split_line_once(rest).1;
        layout_paragraph(lines, next, next + 1, para, rest2)
    }
}

/// Layout of paragraph `para` from line `current` on, `next` being the line
/// after it; `rest` holds the paragraphs that follow.
pub open spec fn layout_paragraph(
    lines: Seq<Seq<char>>,
    current: int,
    next: int,
    para: Seq<char>,
    rest: Seq<char>,
) -> Option<Seq<Seq<char>>>
    decreases 4 - next, 1int,
{
    if next > MESSAGE_LINES || next < 1 {
        None
    } else if para.len() == 0 {
        if rest.len() == 0 {
            Some(drop_trailing(lines))
        } else {
            layout_from(lines, next, rest)
        }
    } else {
        match fill_words(para) {
            None => None,
            Some(filled) => {
                let lines2 = lines.update(current, filled.0);
                if next >= MESSAGE_LINES {
                    Some(lines2)
                } else {
                    layout_paragraph(lines2, next, next + 1, filled.2, rest)
                }
            },
        }
    }
}

/// The lines that a message is laid out into; `None` where laying it out
/// would cut a word inside a character's encoding.
pub open spec fn message_lines(message: Seq<char>) -> Option<Seq<Seq<char>>> {
    layout_from(Seq::new(3, |i: int| Seq::<char>::empty()), 0, message)
}

proof fn lemma_first_white_space_bound(s: Seq<char>)
    ensures
        first_white_space(s) matches Some(i) ==> i < s.len() && is_white_space(s[i as int]),
    decreases s.len(),
{
    if s.len() > 0 {
        lemma_first_white_space_bound(s.drop_first());
    }
}

proof fn lemma_first_line_break_bound(s: Seq<char>)
    ensures
        first_line_break(s) matches Some(i) ==> i < s.len(),
    decreases s.len(),
{
    if s.len() > 0 {
        lemma_first_line_break_bound(s.drop_first());
    }
}

proof fn lemma_trim_start_len(s: Seq<char>)
    ensures
        trim_start(s).len() <= s.len(),
    decreases s.len(),
{
    if s.len() > 0 && is_white_space(s[0]) {
        lemma_trim_start_len(s.drop_first());
    }
}

/// Taking the first word off a text leaves a shorter text, which bounds
/// the greedy filling of a line.
pub proof fn lemma_split_white_space_shrinks(s: Seq<char>)
    ensures
        split_white_space_once(s).0.len() > 0 ==> split_white_space_once(s).1.len() < s.len(),
{
    lemma_first_white_space_bound(s);
    if let Some(i) = first_white_space(s) {
        lemma_trim_start_len(s.skip(i as int + 1));
    }
}


proof fn lemma_first_white_space_at(s: Seq<char>, i: int)
    requires
        0 <= i < s.len(),
        is_white_space(s[i]),
        forall|j: int| 0 <= j < i ==> !is_white_space(#[trigger] s[j]),
    ensures
        first_white_space(s) == Some(i as nat),
    decreases i,
{
    if i > 0 {
        let t = s.drop_first();
        assert forall|j: int| 0 <= j < i - 1 implies !is_white_space(#[trigger] t[j]) by {
            assert(t[j] == s[j + 1]);
        }
        lemma_first_white_space_at(t, i - 1);
    }
}

proof fn lemma_first_white_space_none(s: Seq<char>)
    requires
        forall|j: int| 0 <= j < s.len() ==> !is_white_space(#[trigger] s[j]),
    ensures
        first_white_space(s) is None,
    decreases s.len(),
{
    if s.len() > 0 {
        let t = s.drop_first();
        assert forall|j: int| 0 <= j < t.len() implies !is_white_space(#[trigger] t[j]) by {
            assert(t[j] == s[j + 1]);
        }
        lemma_first_white_space_none(t);
    }
}

proof fn lemma_first_line_break_at(s: Seq<char>, i: int)
    requires
        0 <= i < s.len(),
        is_line_break(s[i]),
        forall|j: int| 0 <= j < i ==> !is_line_break(#[trigger] s[j]),
    ensures
        first_line_break(s) == Some(i as nat),
    decreases i,
{
    if i > 0 {
        let t = s.drop_first();
        assert forall|j: int| 0 <= j < i - 1 implies !is_line_break(#[trigger] t[j]) by {
            assert(t[j] == s[j + 1]);
        }
        lemma_first_line_break_at(t, i - 1);
    }
}

proof fn lemma_first_line_break_none(s: Seq<char>)
    requires
        forall|j: int| 0 <= j < s.len() ==> !is_line_break(#[trigger] s[j]),
    ensures
        first_line_break(s) is None,
    decreases s.len(),
{
    if s.len() > 0 {
        let t = s.drop_first();
        assert forall|j: int| 0 <= j < t.len() implies !is_line_break(#[trigger] t[j]) by {
            assert(t[j] == s[j + 1]);
        }
        lemma_first_line_break_none(t);
    }
}

proof fn lemma_trim_start_at(s: Seq<char>, k: int)
    requires
        0 <= k <= s.len(),
        forall|j: int| 0 <= j < k ==> is_white_space(#[trigger] s[j]),
        k == s.len() || !is_white_space(s[k]),
    ensures
        trim_start(s) == s.skip(k),
    decreases k,
{
    if k == 0 {
        assert(s.skip(0) =~= s);
    } else {
        let t = s.drop_first();
        assert forall|j: int| 0 <= j < k - 1 implies is_white_space(#[trigger] t[j]) by {
            assert(t[j] == s[j + 1]);
        }
        if k < s.len() {
            assert(t[k - 1] == s[k]);
        }
        lemma_trim_start_at(t, k - 1);
        assert(t.skip(k - 1) =~= s.skip(k));
    }
}

proof fn lemma_utf8_len_concat(s: Seq<char>, t: Seq<char>)
    ensures
        utf8_len(s + t) == utf8_len(s) + utf8_len(t),
    decreases t.len(),
{
    if t.len() == 0 {
        assert(s + t =~= s);
    } else {
        lemma_utf8_len_concat(s, t.drop_last());
        assert((s + t).drop_last() =~= s + t.drop_last());
    }
}

proof fn lemma_utf8_len_bounds(s: Seq<char>)
    ensures
        s.len() <= utf8_len(s) <= 4 * s.len(),
    decreases s.len(),
{
    if s.len() > 0 {
        lemma_utf8_len_bounds(s.drop_last());
    }
}

proof fn lemma_fill_words_from_fits(line: Seq<char>, len: nat, rest: Seq<char>, old_rest: Seq<char>)
    requires
        line.len() == len,
        len <= MESSAGE_LINE_LENGTH,
    ensures
        fill_words_from(line, len, rest, old_rest) matches Some(filled) ==> filled.0.len()
            <= MESSAGE_LINE_LENGTH,
    decreases rest.len(),
{
    if utf8_len(line) <= MESSAGE_LINE_LENGTH {
        let word = split_white_space_once(rest).0;
        let rest2 = split_white_space_once(rest).1;
        if word.len() != 0 {
            let space: nat = if len > 0 {
                1
            } else {
                0
            };
            if len + word.len() + space <= MESSAGE_LINE_LENGTH {
                let line2 = if space > 0 {
                    line.push(' ') + word
                } else {
                    line + word
                };
                lemma_split_white_space_shrinks(rest);
                lemma_fill_words_from_fits(line2, len + space + word.len(), rest2, rest2);
            }
        }
    }
}

/// Filling a line always succeeds.
proof fn lemma_fill_words_from_some(line: Seq<char>, len: nat, rest: Seq<char>, old_rest: Seq<char>)
    ensures
        fill_words_from(line, len, rest, old_rest) is Some,
    decreases rest.len(),
{
    if utf8_len(line) <= MESSAGE_LINE_LENGTH {
        let word = split_white_space_once(rest).0;
        let rest2 = split_white_space_once(rest).1;
        if word.len() != 0 {
            let space: nat = if len > 0 {
                1
            } else {
                0
            };
            if len + word.len() + space <= MESSAGE_LINE_LENGTH {
                let line2 = if space > 0 {
                    line.push(' ') + word
                } else {
                    line + word
                };
                lemma_split_white_space_shrinks(rest);
                lemma_fill_words_from_some(line2, len + space + word.len(), rest2, rest2);
            }
        }
    }
}

/// Every character of `s` is encoded in one byte.
pub open spec fn is_ascii_text(s: Seq<char>) -> bool {
    forall|i: int| 0 <= i < s.len() ==> (#[trigger] s[i] as u32) < 0x80
}

proof fn lemma_ascii_utf8_len(s: Seq<char>)
    requires
        is_ascii_text(s),
    ensures
        utf8_len(s) == s.len(),
    decreases s.len(),
{
    if s.len() > 0 {
        let t = s.drop_last();
        assert forall|i: int| 0 <= i < t.len() implies (#[trigger] t[i] as u32) < 0x80 by {
            assert(t[i] == s[i]);
        }
        lemma_ascii_utf8_len(t);
        assert((s[s.len() - 1] as u32) < 0x80);
    }
}

proof fn lemma_ascii_subrange(s: Seq<char>, a: int, b: int)
    requires
        is_ascii_text(s),
        0 <= a <= b <= s.len(),
    ensures
        is_ascii_text(s.subrange(a, b)),
{
    let t = s.subrange(a, b);
    assert forall|i: int| 0 <= i < t.len() implies (#[trigger] t[i] as u32) < 0x80 by {
        assert(t[i] == s[i + a]);
    }
}

/// Trimming leaves an end of the text that does not start with white space.
pub proof fn lemma_trim_start_suffix(s: Seq<char>)
    ensures
        trim_start(s).len() <= s.len(),
        trim_start(s) == s.skip(s.len() - trim_start(s).len()),
        trim_start(s).len() > 0 ==> !is_white_space(trim_start(s)[0]),
    decreases s.len(),
{
    if s.len() > 0 && is_white_space(s[0]) {
        let u = s.drop_first();
        lemma_trim_start_suffix(u);
        let k = u.len() - trim_start(u).len();
        assert(u.skip(k) =~= s.skip(k + 1));
    } else {
        assert(s.skip(0) =~= s);
    }
}

/// The first word is a start of the text, what follows it an end of the
/// text without leading white space; a text that does not start with white
/// space has a non-empty first word.
pub proof fn lemma_split_white_space_parts(s: Seq<char>)
    ensures
        ({
            let (w, r) = split_white_space_once(s);
            &&& w.len() <= s.len()
            &&& w == s.take(w.len() as int)
            &&& r.len() <= s.len()
            &&& r == s.skip(s.len() - r.len())
            &&& r.len() > 0 ==> !is_white_space(r[0])
            &&& s.len() > 0 && !is_white_space(s[0]) ==> w.len() > 0
        }),
{
    lemma_first_white_space_bound(s);
    match first_white_space(s) {
        Some(i) => {
            let u = s.skip(i as int + 1);
            lemma_trim_start_suffix(u);
            let k = u.len() - trim_start(u).len();
            assert(u.skip(k) =~= s.skip(i + 1 + k));
            assert(s.take(i as int).len() == i);
        },
        None => {
            assert(s.take(s.len() as int) =~= s);
            assert(s.skip(s.len() as int) =~= Seq::<char>::empty());
        },
    }
}

proof fn lemma_fill_greedy_from(line: Seq<char>, rest: Seq<char>)
    requires
        line.len() <= MESSAGE_LINE_LENGTH,
        is_ascii_text(line),
        is_ascii_text(rest),
        rest.len() > 0 ==> !is_white_space(rest[0]),
    ensures
        fill_words_from(line, line.len(), rest, rest) matches Some(filled) && {
            &&& filled.1 == filled.0.len()
            &&& line.len() <= filled.0.len()
            &&& filled.0.take(line.len() as int) == line
            &&& filled.2.len() <= rest.len()
            &&& filled.2 == rest.skip(rest.len() - filled.2.len())
            &&& filled.2.len() > 0 ==> filled.1 + 1 + split_white_space_once(filled.2).0.len()
                > MESSAGE_LINE_LENGTH
        },
    decreases rest.len(),
{
    lemma_ascii_utf8_len(line);
    let len = line.len();
    let word = split_white_space_once(rest).0;
    let rest2 = split_white_space_once(rest).1;
    lemma_split_white_space_parts(rest);
    assert(line.take(len as int) =~= line);
    if word.len() == 0 {
        assert(rest.len() == 0);
        assert(rest2.len() == 0);
        assert(rest.skip(rest.len() as int) =~= rest2);
    } else {
        let space: nat = if len > 0 {
            1
        } else {
            0
        };
        if len + word.len() + space <= MESSAGE_LINE_LENGTH {
            let line2 = if space > 0 {
                line.push(' ') + word
            } else {
                line + word
            };
            lemma_ascii_subrange(rest, 0, word.len() as int);
            lemma_ascii_subrange(rest, rest.len() - rest2.len(), rest.len() as int);
            assert(rest.take(word.len() as int) =~= rest.subrange(0, word.len() as int));
            assert(rest.skip(rest.len() - rest2.len()) =~= rest.subrange(
                rest.len() - rest2.len(),
                rest.len() as int,
            ));
            assert forall|i: int| 0 <= i < line2.len() implies (#[trigger] line2[i] as u32)
                < 0x80 by {
                if i < len {
                    assert(line2[i] == line[i]);
                } else if space > 0 && i == len {
                    assert(line2[i] == ' ');
                } else {
                    assert(line2[i] == word[i - len - space]);
                }
            }
            lemma_split_white_space_shrinks(rest);
            lemma_fill_greedy_from(line2, rest2);
            let filled = fill_words_from(line2, line2.len(), rest2, rest2).unwrap();
            assert forall|i: int| 0 <= i < len implies filled.0[i] == line[i] by {
                assert(filled.0.take(line2.len() as int)[i] == line2[i]);
            }
            assert(filled.0.take(len as int) =~= line);
            let k = rest2.len() - filled.2.len();
            assert(rest2.skip(k) =~= rest.skip(rest.len() - filled.2.len()));
        } else if line.len() == 0 {
            assert(word.take(15).len() == 15);
            assert(line.take(0) =~= line);
        } else {
            assert(rest.skip(0) =~= rest);
        }
    }
}

/// Filling a line is greedy. For a text of one-byte characters, a line of
/// at most eighteen characters and a message that does not start with white
/// space: the line only grows at its end, the length returned is that of
/// the filled line, what remains is an end of the message, and when
/// something remains, its first word would not have fitted after a space.
pub proof fn lemma_fill_with_words_is_greedy(line: Seq<char>, msg: Seq<char>)
    requires
        line.len() <= MESSAGE_LINE_LENGTH,
        is_ascii_text(line),
        is_ascii_text(msg),
        msg.len() > 0 ==> !is_white_space(msg[0]),
    ensures
        fill_words_from(line, line.len(), msg, msg) matches Some(filled) && {
            &&& filled.1 == filled.0.len()
            &&& line.len() <= filled.0.len()
            &&& filled.0.take(line.len() as int) == line
            &&& filled.2 == msg.skip(msg.len() - filled.2.len())
            &&& filled.2.len() > 0 ==> filled.1 + 1 + split_white_space_once(filled.2).0.len()
                > MESSAGE_LINE_LENGTH
        },
{
    lemma_fill_greedy_from(line, msg);
}

/// The words of `s`: its runs of characters that are not white space, in
/// order.
pub open spec fn words(s: Seq<char>) -> Seq<Seq<char>>
    decreases s.len(),
{
    let t = trim_start(s);
    if t.len() == 0 {
        Seq::empty()
    } else {
        proof {
            lemma_trim_start_suffix(s);
            lemma_split_white_space_parts(t);
            lemma_split_white_space_shrinks(t);
        }
        seq![split_white_space_once(t).0] + words(split_white_space_once(t).1)
    }
}

/// No word of `s` is longer than a line.
pub open spec fn words_fit_line(s: Seq<char>) -> bool {
    forall|i: int| 0 <= i < words(s).len() ==> (#[trigger] words(s)[i]).len() <= MESSAGE_LINE_LENGTH
}

proof fn lemma_first_white_space_scan(s: Seq<char>)
    ensures
        first_white_space(s) matches Some(i) ==> forall|j: int|
            0 <= j < i ==> !is_white_space(#[trigger] s[j]),
        first_white_space(s) is None ==> forall|j: int|
            0 <= j < s.len() ==> !is_white_space(#[trigger] s[j]),
    decreases s.len(),
{
    if s.len() > 0 {
        let t = s.drop_first();
        lemma_first_white_space_scan(t);
        lemma_first_white_space_bound(t);
        if !is_white_space(s[0]) {
            if let Some(k) = first_white_space(t) {
                assert forall|j: int| 0 <= j < k + 1 implies !is_white_space(#[trigger] s[j]) by {
                    if j > 0 {
                        assert(s[j] == t[j - 1]);
                    }
                }
            } else {
                assert forall|j: int| 0 <= j < s.len() implies !is_white_space(#[trigger] s[j]) by {
                    if j > 0 {
                        assert(s[j] == t[j - 1]);
                    }
                }
            }
        }
    }
}

proof fn lemma_trim_start_idem(s: Seq<char>)
    ensures
        trim_start(trim_start(s)) == trim_start(s),
        words(trim_start(s)) == words(s),
{
    lemma_trim_start_suffix(s);
}

proof fn lemma_trim_start_append(a: Seq<char>, x: Seq<char>)
    ensures
        trim_start(a).len() == 0 ==> trim_start(a + x) == trim_start(x),
        trim_start(a).len() > 0 ==> trim_start(a + x) == trim_start(a) + x,
    decreases a.len(),
{
    if a.len() == 0 {
        assert(a + x =~= x);
    } else if is_white_space(a[0]) {
        lemma_trim_start_append(a.drop_first(), x);
        assert((a + x).drop_first() =~= a.drop_first() + x);
    } else {
        assert((a + x)[0] == a[0]);
    }
}

/// A non-empty text without white space is one word.
proof fn lemma_words_single(w: Seq<char>)
    requires
        w.len() > 0,
        forall|j: int| 0 <= j < w.len() ==> !is_white_space(#[trigger] w[j]),
    ensures
        words(w) == seq![w],
{
    lemma_first_white_space_none(w);
    assert(words(Seq::<char>::empty()) == Seq::<Seq<char>>::empty());
}

/// A white-space character separates the words before it from those after.
proof fn lemma_words_split(a: Seq<char>, c: char, b: Seq<char>)
    requires
        is_white_space(c),
    ensures
        words(a + seq![c] + b) == words(a) + words(b),
    decreases a.len(),
{
    let s = a + seq![c] + b;
    let x = seq![c] + b;
    assert(s =~= a + x);
    lemma_trim_start_append(a, x);
    lemma_trim_start_suffix(a);
    lemma_trim_start_idem(s);
    lemma_trim_start_idem(b);
    lemma_trim_start_idem(a);
    assert(x.drop_first() =~= b);
    if trim_start(a).len() == 0 {
        assert(trim_start(x) == trim_start(b));
        assert(words(a) == Seq::<Seq<char>>::empty());
        assert(words(a) + words(b) =~= words(b));
    } else {
        let ta = trim_start(a);
        assert(trim_start(s) == ta + x);
        lemma_first_white_space_scan(ta);
        lemma_first_white_space_bound(ta);
        match first_white_space(ta) {
            Some(i) => {
                let tail = ta.skip(i as int + 1);
                lemma_first_white_space_at(ta + x, i as int);
                assert((ta + x).skip(i as int + 1) =~= tail + x);
                assert(tail + x =~= tail + seq![c] + b);
                lemma_words_split(tail, c, b);
                lemma_trim_start_idem(tail + x);
                lemma_trim_start_idem(tail);
                assert((ta + x).take(i as int) =~= ta.take(i as int));
                assert(words(s) == seq![ta.take(i as int)] + words(tail + x));
                assert(words(a) == seq![ta.take(i as int)] + words(tail));
                assert(words(s) =~= words(a) + words(b));
            },
            None => {
                lemma_first_white_space_at(ta + x, ta.len() as int);
                assert((ta + x).skip(ta.len() as int + 1) =~= b);
                assert((ta + x).take(ta.len() as int) =~= ta);
                lemma_words_single(ta);
                assert(words(s) == seq![ta] + words(b));
                assert(words(s) =~= words(a) + words(b));
            },
        }
    }
}

/// A text that does not start with white space is its first word followed
/// by the words of what follows it.
proof fn lemma_words_first(s: Seq<char>)
    requires
        s.len() > 0,
        !is_white_space(s[0]),
    ensures
        words(s) == seq![split_white_space_once(s).0] + words(split_white_space_once(s).1),
        split_white_space_once(s).0.len() > 0,
        forall|j: int|
            0 <= j < split_white_space_once(s).0.len() ==> !is_white_space(
                #[trigger] split_white_space_once(s).0[j],
            ),
{
    lemma_split_white_space_parts(s);
    lemma_first_white_space_scan(s);
    lemma_first_white_space_bound(s);
}

proof fn lemma_fill_keeps_words(line: Seq<char>, rest: Seq<char>)
    requires
        line.len() <= MESSAGE_LINE_LENGTH,
        is_ascii_text(line),
        is_ascii_text(rest),
        rest.len() > 0 ==> !is_white_space(rest[0]),
        words_fit_line(rest),
    ensures
        fill_words_from(line, line.len(), rest, rest) matches Some(filled) && words(line) + words(rest)
            == words(filled.0) + words(filled.2),
    decreases rest.len(),
{
    lemma_ascii_utf8_len(line);
    let len = line.len();
    let word = split_white_space_once(rest).0;
    let rest2 = split_white_space_once(rest).1;
    lemma_split_white_space_parts(rest);
    if rest.len() == 0 {
        assert(rest2.len() == 0);
        assert(rest2 =~= rest);
    } else {
        lemma_words_first(rest);
        assert(words(rest)[0] == word);
        let space: nat = if len > 0 {
            1
        } else {
            0
        };
        if len + word.len() + space <= MESSAGE_LINE_LENGTH {
            let line2 = if space > 0 {
                line.push(' ') + word
            } else {
                line + word
            };
            lemma_words_single(word);
            if space > 0 {
                assert(line2 =~= line + seq![' '] + word);
                lemma_words_split(line, ' ', word);
            } else {
                assert(line2 =~= word);
                assert(words(line) == Seq::<Seq<char>>::empty());
            }
            assert(words(line2) =~= words(line) + seq![word]);
            lemma_ascii_subrange(rest, 0, word.len() as int);
            lemma_ascii_subrange(rest, rest.len() - rest2.len(), rest.len() as int);
            assert(rest.take(word.len() as int) =~= rest.subrange(0, word.len() as int));
            assert(rest.skip(rest.len() - rest2.len()) =~= rest.subrange(
                rest.len() - rest2.len(),
                rest.len() as int,
            ));
            assert forall|i: int| 0 <= i < line2.len() implies (#[trigger] line2[i] as u32)
                < 0x80 by {
                if i < len {
                    assert(line2[i] == line[i]);
                } else if space > 0 && i == len {
                    assert(line2[i] == ' ');
                } else {
                    assert(line2[i] == word[i - len - space]);
                }
            }
            assert forall|i: int| 0 <= i < words(rest2).len() implies (#[trigger] words(
                rest2,
            )[i]).len() <= MESSAGE_LINE_LENGTH by {
                assert(words(rest2)[i] == words(rest)[i + 1]);
            }
            lemma_split_white_space_shrinks(rest);
            lemma_fill_keeps_words(line2, rest2);
            assert(words(line) + words(rest) =~= words(line2) + words(rest2));
        } else if line.len() == 0 {
            assert(false);
        }
    }
}

/// Filling a line keeps the words: for a text of one-byte characters, a
/// line of at most eighteen characters and a message that does not start
/// with white space and has no word longer than a line, the words of the
/// line and of the message are, in order, those of the filled line and of
/// what remains.
pub proof fn lemma_fill_with_words_keeps_words(line: Seq<char>, msg: Seq<char>)
    requires
        line.len() <= MESSAGE_LINE_LENGTH,
        is_ascii_text(line),
        is_ascii_text(msg),
        msg.len() > 0 ==> !is_white_space(msg[0]),
        words_fit_line(msg),
    ensures
        fill_words_from(line, line.len(), msg, msg) matches Some(filled) && words(line) + words(msg)
            == words(filled.0) + words(filled.2),
{
    lemma_fill_keeps_words(line, msg);
}

/// A word too long for an empty line is cut to its first fifteen characters
/// followed by `"..."`, a line of eighteen characters, and what remains is
/// the text after that word: its words are those of the message without
/// the cut word.
pub proof fn lemma_cut_word_leaves_the_rest(word: Seq<char>, c: char, tail: Seq<char>)
    requires
        word.len() > MESSAGE_LINE_LENGTH,
        forall|j: int| 0 <= j < word.len() ==> !is_white_space(#[trigger] word[j]),
        is_white_space(c),
    ensures
        fill_words(word + seq![c] + tail) == Some(
            (word.take(15) + seq!['.', '.', '.'], 18nat, trim_start(tail)),
        ),
        words(trim_start(tail)) == words(word + seq![c] + tail).drop_first(),
{
    let msg = word + seq![c] + tail;
    assert forall|j: int| 0 <= j < word.len() implies !is_white_space(#[trigger] msg[j]) by {
        assert(msg[j] == word[j]);
    }
    assert(msg[word.len() as int] == c);
    lemma_first_white_space_at(msg, word.len() as int);
    assert(msg.take(word.len() as int) =~= word);
    assert(msg.skip(word.len() as int + 1) =~= tail);
    assert(utf8_len(Seq::<char>::empty()) == 0);
    assert(Seq::<char>::empty() + word.take(15) =~= word.take(15));
    lemma_words_split(word, c, tail);
    lemma_words_single(word);
    lemma_trim_start_idem(tail);
    assert((seq![word] + words(tail)).drop_first() =~= words(tail));
}

/// A word too long for a line followed by a word that fits lays out into
/// two lines: the first fifteen characters of the long word followed by
/// `"..."`, then the next word.
pub proof fn lemma_cut_word_then_next_line(word: Seq<char>, next: Seq<char>)
    requires
        word.len() > MESSAGE_LINE_LENGTH,
        forall|j: int| 0 <= j < word.len() ==> !is_white_space(#[trigger] word[j]),
        0 < next.len() <= MESSAGE_LINE_LENGTH,
        forall|j: int| 0 <= j < next.len() ==> !is_white_space(#[trigger] next[j]),
    ensures
        message_lines(word + seq![' '] + next) == Some(
            seq![word.take(15) + seq!['.', '.', '.'], next],
        ),
{
    let msg = word + seq![' '] + next;
    let cut = word.take(15) + seq!['.', '.', '.'];
    assert forall|j: int| 0 <= j < msg.len() implies !is_line_break(#[trigger] msg[j]) by {
        if j < word.len() {
            assert(msg[j] == word[j]);
        } else if j > word.len() {
            assert(msg[j] == next[j - word.len() - 1]);
        }
    }
    lemma_first_line_break_none(msg);
    assert(split_line_once(msg) == (msg, Seq::<char>::empty()));
    lemma_cut_word_leaves_the_rest(word, ' ', next);
    assert(trim_start(next) == next);
    lemma_first_white_space_none(next);
    assert(split_white_space_once(next) == (next, Seq::<char>::empty()));
    assert(Seq::<char>::empty() + next =~= next);
    assert(split_white_space_once(Seq::<char>::empty()).0.len() == 0);
    assert(utf8_len(Seq::<char>::empty()) == 0);
    lemma_utf8_len_bounds(next);
    assert(fill_words_from(next, next.len(), Seq::<char>::empty(), Seq::<char>::empty()) == Some(
        (next, next.len(), Seq::<char>::empty()),
    ));
    assert(fill_words(next) == Some((next, next.len(), Seq::<char>::empty())));
    let empty3 = Seq::new(3, |i: int| Seq::<char>::empty());
    let lines2 = empty3.update(0, cut);
    let lines3 = lines2.update(1, next);
    assert(layout_paragraph(lines3, 2, 3, Seq::<char>::empty(), Seq::<char>::empty()) == Some(
        drop_trailing(lines3),
    ));
    assert(layout_paragraph(lines2, 1, 2, next, Seq::<char>::empty()) == layout_paragraph(
        lines3,
        2,
        3,
        Seq::<char>::empty(),
        Seq::<char>::empty(),
    ));
    assert(layout_paragraph(empty3, 0, 1, msg, Seq::<char>::empty()) == layout_paragraph(
        lines2,
        1,
        2,
        next,
        Seq::<char>::empty(),
    ));
    assert(message_lines(msg) == layout_paragraph(empty3, 0, 1, msg, Seq::<char>::empty()));
    assert(lines3.drop_last().drop_last() =~= seq![cut]);
    assert(lines3.drop_last() =~= seq![cut, next]);
    assert(cut.len() == 18);
    assert(non_empty_count(seq![cut]) == 1) by {
        assert(seq![cut].drop_last() =~= Seq::<Seq<char>>::empty());
        assert(non_empty_count(Seq::<Seq<char>>::empty()) == 0);
        assert(seq![cut].last() == cut);
    }
    assert(non_empty_count(seq![cut, next]) == 2) by {
        assert(seq![cut, next].drop_last() =~= seq![cut]);
        assert(seq![cut, next].last() == next);
    }
    assert(lines3.last() == Seq::<char>::empty());
    assert(non_empty_count(lines3) == 2);
    assert(lines3.take(2) =~= seq![cut, next]);
}

proof fn lemma_non_empty_count_bound(lines: Seq<Seq<char>>)
    ensures
        non_empty_count(lines) <= lines.len(),
    decreases lines.len(),
{
    if lines.len() > 0 {
        lemma_non_empty_count_bound(lines.drop_last());
    }
}

/// Lines that hold at most a line's worth of characters, at most three.
pub open spec fn lines_fit(lines: Seq<Seq<char>>) -> bool {
    &&& lines.len() <= MESSAGE_LINES
    &&& forall|i: int| 0 <= i < lines.len() ==> (#[trigger] lines[i]).len() <= MESSAGE_LINE_LENGTH
}

proof fn lemma_drop_trailing_fits(lines: Seq<Seq<char>>)
    requires
        lines_fit(lines),
    ensures
        lines_fit(drop_trailing(lines)),
{
    lemma_non_empty_count_bound(lines);
    let d = drop_trailing(lines);
    assert forall|i: int| 0 <= i < d.len() implies (#[trigger] d[i]).len() <= MESSAGE_LINE_LENGTH by {
        assert(d[i] == lines[i]);
    }
}

proof fn lemma_layout_from_fits(lines: Seq<Seq<char>>, next: int, rest: Seq<char>)
    requires
        lines.len() == MESSAGE_LINES,
        lines_fit(lines),
    ensures
        layout_from(lines, next, rest) matches Some(ls) && lines_fit(ls),
    decreases 4 - next, 0int,
{
    if next >= MESSAGE_LINES || next < 0 {
        lemma_drop_trailing_fits(lines);
    } else {
        let para = split_line_once(rest).0;
        let rest2 = split_line_once(rest).1;
        lemma_layout_paragraph_fits(lines, next, next + 1, para, rest2);
    }
}

proof fn lemma_layout_paragraph_fits(
    lines: Seq<Seq<char>>,
    current: int,
    next: int,
    para: Seq<char>,
    rest: Seq<char>,
)
    requires
        lines.len() == MESSAGE_LINES,
        lines_fit(lines),
        current == next - 1,
        1 <= next <= MESSAGE_LINES,
    ensures
        layout_paragraph(lines, current, next, para, rest) matches Some(ls) && lines_fit(ls),
    decreases 4 - next, 1int,
{
    if next > MESSAGE_LINES || next < 1 {
    } else if para.len() == 0 {
        if rest.len() == 0 {
            lemma_drop_trailing_fits(lines);
        } else {
            lemma_layout_from_fits(lines, next, rest);
        }
    } else {
        lemma_fill_words_from_fits(Seq::<char>::empty(), 0, para, para);
        lemma_fill_words_from_some(Seq::<char>::empty(), 0, para, para);
        if let Some(filled) = fill_words(para) {
            let lines2 = lines.update(current, filled.0);
            assert forall|i: int| 0 <= i < lines2.len() implies (#[trigger] lines2[i]).len()
                <= MESSAGE_LINE_LENGTH by {
                if i != current {
                    assert(lines2[i] == lines[i]);
                }
            }
            if next < MESSAGE_LINES {
                lemma_layout_paragraph_fits(lines2, next, next + 1, filled.2, rest);
            }
        }
    }
}

/// Every message can be laid out, into at most three lines of at most
/// [`MESSAGE_LINE_LENGTH`] characters each.
pub proof fn lemma_message_lines_fit(message: Seq<char>)
    ensures
        message_lines(message) matches Some(ls) && lines_fit(ls),
{
    let empty = Seq::new(3, |i: int| Seq::<char>::empty());
    assert(lines_fit(empty));
    lemma_layout_from_fits(empty, 0, message);
}

/// Characters of `word`, as `str::chars().count()` counts them.
fn len_in_chars(word: &str) -> (r: usize)
    ensures
        r == word@.len(),
{
    word.unicode_len()
}

/// Position of the first white-space character of `text`.
fn find_white_space(text: &str) -> (r: Option<usize>)
    ensures
        match r {
            Some(i) => first_white_space(text@) == Some(i as nat),
            None => first_white_space(text@) is None,
        },
{
    let n = text.unicode_len();
    let mut i: usize = 0;
    while i < n
        invariant
            n == text@.len(),
            i <= n,
            forall|j: int| 0 <= j < i ==> !is_white_space(#[trigger] text@[j]),
        decreases n - i,
    {
        if white_space(text.get_char(i)) {
            proof {
                lemma_first_white_space_at(text@, i as int);
            }
            return Some(i);
        }
        i += 1;
    }
    proof {
        lemma_first_white_space_none(text@);
    }
    None
}

/// Position of the first line break of `text`.
fn find_line_break(text: &str) -> (r: Option<usize>)
    ensures
        match r {
            Some(i) => first_line_break(text@) == Some(i as nat),
            None => first_line_break(text@) is None,
        },
{
    let n = text.unicode_len();
    let mut i: usize = 0;
    while i < n
        invariant
            n == text@.len(),
            i <= n,
            forall|j: int| 0 <= j < i ==> !is_line_break(#[trigger] text@[j]),
        decreases n - i,
    {
        let c = text.get_char(i);
        if c == '\n' || c == '\r' {
            proof {
                lemma_first_line_break_at(text@, i as int);
            }
            return Some(i);
        }
        i += 1;
    }
    proof {
        lemma_first_line_break_none(text@);
    }
    None
}

/// `text` without its leading white space, as `str::trim_start` gives it.
fn trim_start_str(text: &str) -> (r: &str)
    ensures
        r@ == trim_start(text@),
{
    let n = text.unicode_len();
    let mut k: usize = 0;
    while k < n && white_space(text.get_char(k))
        invariant
            n == text@.len(),
            k <= n,
            forall|j: int| 0 <= j < k ==> is_white_space(#[trigger] text@[j]),
        decreases n - k,
    {
        k += 1;
    }
    proof {
        lemma_trim_start_at(text@, k as int);
    }
    text.substring_char(k, n)
}

/// Splits `text` at its first white-space character and trims the rest.
fn split_whitespace_once(text: &str) -> (r: (&str, &str))
    ensures
        r.0@ == split_white_space_once(text@).0,
        r.1@ == split_white_space_once(text@).1,
{
    let n = text.unicode_len();
    match find_white_space(text) {
        Some(i) => {
            proof {
                lemma_first_white_space_bound(text@);
            }
            let first = text.substring_char(0, i);
            let rest = trim_start_str(text.substring_char(i + 1, n));
            assert(text@.subrange(0, i as int) =~= text@.take(i as int));
            assert(text@.subrange(i + 1, n as int) =~= text@.skip(i + 1));
            (first, rest)
        },
        None => (text, text.substring_char(n, n)),
    }
}

/// Splits `text` at its first line break and trims the rest.
fn split_line_once_str(text: &str) -> (r: (&str, &str))
    ensures
        r.0@ == split_line_once(text@).0,
        r.1@ == split_line_once(text@).1,
{
    let n = text.unicode_len();
    match find_line_break(text) {
        Some(i) => {
            proof {
                lemma_first_line_break_bound(text@);
            }
            let first = text.substring_char(0, i);
            let rest = trim_start_str(text.substring_char(i + 1, n));
            assert(text@.subrange(0, i as int) =~= text@.take(i as int));
            assert(text@.subrange(i + 1, n as int) =~= text@.skip(i + 1));
            (first, rest)
        },
        None => (text, text.substring_char(n, n)),
    }
}

/// Splits `word` after its first `step` characters; the first part of the
/// result is `step`.
fn try_split_at_utf8(word: &str, step: usize) -> (r: (usize, &str, &str))
    requires
        step <= word@.len(),
    ensures
        r.0 == step,
        r.1@ == word@.take(step as int),
        r.2@ == word@.skip(step as int),
{
    let n = word.unicode_len();
    assert(word@.subrange(0, step as int) =~= word@.take(step as int));
    assert(word@.subrange(step as int, n as int) =~= word@.skip(step as int));
    (step, word.substring_char(0, step), word.substring_char(step, n))
}


/// Fills `line` with words of `msg` (see [`fill_words_from`]); returns the
/// length of the line in characters and the remaining part of the message.
/// A word too long for an empty line is cut to fifteen characters followed
/// by `"..."`; a word too long for a line that already holds text is left
/// for the next line.
pub fn fill_with_words<'a>(line: &mut MessageLine, msg: &'a str) -> (r: (usize, &'a str))
    ensures
        ({
            let filled = fill_words_from(
                line_text(*old(line)),
                line_text(*old(line)).len(),
                msg@,
                msg@,
            ).unwrap();
            &&& fill_words_from(line_text(*old(line)), line_text(*old(line)).len(), msg@, msg@) is Some
            &&& line_text(*final(line)) == filled.0
            &&& r.0 == filled.1
            &&& r.1@ == filled.2
        }),
{
    let mut rest = msg;
    let mut old_rest = msg;
    let mut line_len = len_in_chars(line_as_str(line));
    let dots = "...";
    proof {
        reveal_strlit("...");
        assert(dots@ =~= ellipsis());
        assert(utf8_len(Seq::<char>::empty()) == 0);
    }
    let ghost start = line_text(*line);
    proof {
        lemma_fill_words_from_some(start, start.len(), msg@, msg@);
    }
    loop
        invariant
            fill_words_from(line_text(*line), line_len as nat, rest@, old_rest@)
                == fill_words_from(start, start.len(), msg@, msg@),
            start == line_text(*old(line)),
            fill_words_from(start, start.len(), msg@, msg@) is Some,
            line_len == line_text(*line).len(),
            dots@ == ellipsis(),
        decreases rest@.len(),
    {
        proof {
            lemma_utf8_len_bounds(line_text(*line));
        }
        if line_byte_len(line) > MESSAGE_LINE_LENGTH {
            return (line_len, rest);
        }
        assert(line_len <= MESSAGE_LINE_LENGTH);
        let ghost before = rest@;
        let (word, rest_msg) = split_whitespace_once(rest);
        rest = rest_msg;
        if word.is_empty() {
            return (line_len, rest);
        }
        proof {
            lemma_split_white_space_shrinks(before);
        }
        let word_len = len_in_chars(word);
        let space_len: usize = if line_len > 0 {
            1
        } else {
            0
        };
        if line_len + space_len <= MESSAGE_LINE_LENGTH && word_len <= MESSAGE_LINE_LENGTH
            - line_len - space_len {
            let ghost text0 = line_text(*line);
            proof {
                lemma_utf8_len_bounds(text0.push(' '));
                lemma_utf8_len_bounds(word@);
                lemma_utf8_len_bounds(text0);
                assert(text0.push(' ').drop_last() =~= text0);
            }
            if space_len > 0 {
                let _ = line_push(line, ' ');
            }
            let ghost text1 = line_text(*line);
            proof {
                lemma_utf8_len_bounds(text1);
            }
            let _ = line_push_str(line, word);
            line_len += space_len + word_len;
        } else if line_byte_len(line) == 0 {
            proof {
                lemma_utf8_len_bounds(line_text(*line));
            }
            let (part_len, part, _) = try_split_at_utf8(word, MESSAGE_LINE_LENGTH - space_len - 3);
            proof {
                lemma_utf8_len_bounds(part@);
                lemma_utf8_len_concat(part@, dots@);
                reveal_with_fuel(utf8_len, 4);
            }
            if space_len > 0 {
                let _ = line_push(line, ' ');
            }
            let _ = line_push_str(line, part);
            let _ = line_push_str(line, dots);
            line_len += space_len + part_len + 3;
            return (line_len, rest);
        } else {
            rest = old_rest;
            return (line_len, rest);
        }
        old_rest = rest;
    }
}


/// The text of each line of a working line list.
pub open spec fn texts(lines: Seq<MessageLine>) -> Seq<Seq<char>> {
    lines.map_values(|l: MessageLine| line_text(l))
}

/// Moves the first `count` lines of `lines` into a fixed-capacity list.
fn collect_lines(lines: Vec<MessageLine>, count: usize) -> (r: MessageLines)
    requires
        count <= lines@.len() <= MESSAGE_LINES,
    ensures
        lines_text(r) == texts(lines@).take(count as int),
{
    let mut lines = lines;
    let ghost all = texts(lines@);
    let mut result = lines_new();
    let mut i: usize = 0;
    assert(all.skip(0) =~= all);
    assert(all.take(0) =~= Seq::<Seq<char>>::empty());
    while i < count
        invariant
            count <= all.len() <= MESSAGE_LINES,
            i <= count,
            texts(lines@) == all.skip(i as int),
            lines@.len() == all.len() - i,
            lines_text(result) == all.take(i as int),
        decreases count - i,
    {
        let ghost before = lines@;
        let line = lines.remove(0);
        assert(texts(before)[0] == line_text(before[0]));
        assert(all.skip(i as int)[0] == all[i as int]);
        let _ = lines_push(&mut result, line);
        assert(all.take(i + 1) =~= all.take(i as int).push(all[i as int]));
        assert(texts(lines@) =~= all.skip(i + 1)) by {
            assert forall|j: int| 0 <= j < lines@.len() implies texts(lines@)[j] == all.skip(
                i + 1,
            )[j] by {
                assert(lines@[j] == before[j + 1]);
                assert(texts(before)[j + 1] == all.skip(i as int)[j + 1]);
            }
        }
        i += 1;
    }
    result
}

/// Number of lines that hold some text.
fn count_non_empty(lines: &Vec<MessageLine>) -> (r: usize)
    requires
        lines@.len() <= MESSAGE_LINES,
    ensures
        r == non_empty_count(texts(lines@)),
        r <= lines@.len(),
{
    let mut count: usize = 0;
    let mut i: usize = 0;
    assert(texts(lines@).take(0) =~= Seq::<Seq<char>>::empty());
    while i < lines.len()
        invariant
            lines@.len() <= MESSAGE_LINES,
            i <= lines@.len(),
            count <= i,
            count == non_empty_count(texts(lines@).take(i as int)),
        decreases lines@.len() - i,
    {
        proof {
            lemma_utf8_len_bounds(line_text(lines@[i as int]));
            assert(texts(lines@).take(i + 1).drop_last() =~= texts(lines@).take(i as int));
        }
        if line_byte_len(&lines[i]) > 0 {
            count += 1;
        }
        i += 1;
    }
    assert(texts(lines@).take(i as int) =~= texts(lines@));
    count
}

/// Lays `message` out into at most three lines (see [`message_lines`]).
/// Each paragraph starts on a new line, and the line after a finished
/// paragraph stays empty; lines after the last one that holds text are
/// dropped, unless the message filled all three lines before it ended.
pub fn split_message_into_lines(message: &str) -> (r: MessageLines)
    ensures
        message_lines(message@) is Some,
        lines_text(r) == message_lines(message@).unwrap(),
{
    let mut lines: Vec<MessageLine> = Vec::new();
    lines.push(line_new());
    lines.push(line_new());
    lines.push(line_new());
    let ghost target = message_lines(message@);
    proof {
        lemma_message_lines_fit(message@);
    }
    assert(texts(lines@) =~= Seq::new(3, |i: int| Seq::<char>::empty()));
    let mut next: usize = 0;
    let mut rest = message;
    loop
        invariant_except_break
            layout_from(texts(lines@), next as int, rest@) == target,
        invariant
            lines@.len() == MESSAGE_LINES,
            next <= MESSAGE_LINES,
            target == message_lines(message@),
        ensures
            target == Some(drop_trailing(texts(lines@))),
        decreases MESSAGE_LINES - next,
    {
        if next >= MESSAGE_LINES {
            break;
        }
        let ghost start = next;
        let mut current = next;
        next += 1;
        let (first_para, rest_msg) = split_line_once_str(rest);
        let mut para = first_para;
        rest = rest_msg;
        while !para.is_empty()
            invariant
                lines@.len() == MESSAGE_LINES,
                current < next <= MESSAGE_LINES,
                next == current + 1,
                start < next,
                target == message_lines(message@),
                layout_paragraph(texts(lines@), current as int, next as int, para@, rest@)
                    == target,
            decreases MESSAGE_LINES - next,
        {
            let ghost lines0 = texts(lines@);
            let mut line = line_new();
            let (_, para_rest) = fill_with_words(&mut line, para);
            let ghost filled = fill_words(para@).unwrap();
            assert(layout_paragraph(lines0, current as int, next as int, para@, rest@) == if next
                >= MESSAGE_LINES {
                Some(lines0.update(current as int, filled.0))
            } else {
                layout_paragraph(
                    lines0.update(current as int, filled.0),
                    next as int,
                    next + 1,
                    filled.2,
                    rest@,
                )
            });
            let ghost before = texts(lines@);
            lines[current] = line;
            assert(texts(lines@) =~= before.update(current as int, line_text(line)));
            para = para_rest;
            if next >= MESSAGE_LINES {
                let r = collect_lines(lines, MESSAGE_LINES);
                assert(texts(lines@).take(3) =~= texts(lines@));
                assert(target == Some(texts(lines@)));
                assert(lines_text(r) == target.unwrap());
                return r;
            }
            current = next;
            next += 1;
        }
        if rest.is_empty() {
            break;
        }
    }
    let count = count_non_empty(&lines);
    let r = collect_lines(lines, count);
    assert(lines_text(r) == drop_trailing(texts(lines@)));
    assert(lines_text(r) == target.unwrap());
    r
}

} // verus!
