//! Plain text: lines, fields and numbers.
//!
//! The tools that the service questions answer in lines of text, and the
//! processes it runs write their output line by line. This module says what
//! a line and a field are, and cuts text accordingly.

use vstd::prelude::*;
use vstd::string::*;

verus! {

/// The content of each string of a list, in the same order.
pub open spec fn texts(lines: Seq<String>) -> Seq<Seq<char>> {
    Seq::new(lines.len(), |i: int| lines[i]@)
}

/// An independent copy of a list of strings.
pub fn copy_lines(lines: &Vec<String>) -> (copy: Vec<String>)
    ensures
        texts(copy@) == texts(lines@),
{
    let mut copy: Vec<String> = Vec::new();
    let mut i: usize = 0;
    while i < lines.len()
        invariant
            i <= lines@.len(),
            copy@.len() == i,
            forall|k: int| 0 <= k < i ==> (#[trigger] copy@[k])@ == lines@[k]@,
        decreases lines@.len() - i,
    {
        copy.push(lines[i].clone());
        i += 1;
    }
    copy
}

/// Mathematical content of an optional string.
pub open spec fn text_of(s: Option<String>) -> Option<Seq<char>> {
    match s {
        Some(t) => Some(t@),
        None => None,
    }
}

/// A line without the line feed at its end, and without a carriage return
/// before that line feed. A line that does not end in a line feed is left
/// as it is.
pub open spec fn without_line_ending(raw: Seq<char>) -> Seq<char> {
    if raw.len() > 0 && raw.last() == '\n' {
        let body = raw.drop_last();
        if body.len() > 0 && body.last() == '\r' {
            body.drop_last()
        } else {
            body
        }
    } else {
        raw
    }
}

/// Removes the line ending that a line read from a stream still carries.
pub fn strip_line_ending(raw: &str) -> (line: String)
    ensures
        line@ == without_line_ending(raw@),
{
    let n = raw.unicode_len();
    if n > 0 && raw.get_char(n - 1) == '\n' {
        if n > 1 && raw.get_char(n - 2) == '\r' {
            let line = String::from_str(raw.substring_char(0, n - 2));
            assert(line@ =~= without_line_ending(raw@));
            line
        } else {
            let line = String::from_str(raw.substring_char(0, n - 1));
            assert(line@ =~= without_line_ending(raw@));
            line
        }
    } else {
        String::from_str(raw)
    }
}

/// The characters of a string, one by one.
pub fn chars_of(text: &str) -> (chars: Vec<char>)
    ensures
        chars@ == text@,
{
    let mut chars: Vec<char> = Vec::new();
    for c in it: text.chars()
        invariant
            chars@ == it.seq().take(it.index() as int),
            it.seq() == text@,
    {
        chars.push(c);
    }
    chars
}

/// The length of the first line of `text` with its line feed: the position
/// just behind the first line feed, or the length of the text where it has
/// none.
pub open spec fn line_end(text: Seq<char>) -> nat
    decreases text.len(),
{
    if text.len() == 0 {
        0
    } else if text[0] == '\n' {
        1
    } else {
        1 + line_end(text.drop_first())
    }
}

/// The lines of a text. Every line feed ends a line; what follows the last
/// line feed is a line of its own unless it is empty. The lines come
/// without their line endings.
pub open spec fn lines_in(text: Seq<char>) -> Seq<Seq<char>>
    decreases text.len(),
{
    let end = line_end(text);
    if 0 < end <= text.len() {
        seq![without_line_ending(text.take(end as int))] + lines_in(text.skip(end as int))
    } else {
        Seq::empty()
    }
}

/// The first line of a text takes at least one character and no more than
/// the text has.
pub proof fn lemma_line_end_bounds(text: Seq<char>)
    ensures
        line_end(text) <= text.len(),
        text.len() > 0 ==> line_end(text) > 0,
    decreases text.len(),
{
    if text.len() > 0 && text[0] != '\n' {
        lemma_line_end_bounds(text.drop_first());
    }
}

/// Cuts a text into its lines.
pub fn split_lines(text: &str) -> (lines: Vec<String>)
    ensures
        texts(lines@) == lines_in(text@),
{
    let chars = chars_of(text);
    let n = chars.len();
    let mut lines: Vec<String> = Vec::new();
    let mut start: usize = 0;
    let mut i: usize = 0;
    assert(text@.skip(0) =~= text@);
    while i < n
        invariant
            start <= i <= n,
            n == text@.len(),
            chars@ == text@,
            line_end(text@.skip(start as int)) == (i - start) + line_end(text@.skip(i as int)),
            lines_in(text@) == texts(lines@) + lines_in(text@.skip(start as int)),
        decreases n - i,
    {
        let ghost rest = text@.skip(start as int);
        let ghost here = text@.skip(i as int);
        if chars[i] == '\n' {
            let piece = text.substring_char(start, i + 1);
            let line = strip_line_ending(piece);
            proof {
                assert(rest.take(i + 1 - start) =~= piece@);
                assert(rest.skip(i + 1 - start) =~= text@.skip(i + 1));
            }
            lines.push(line);
            start = i + 1;
        } else {
            assert(here.drop_first() =~= text@.skip(i + 1));
        }
        i += 1;
    }
    let ghost rest = text@.skip(start as int);
    if start < n {
        let piece = text.substring_char(start, n);
        let line = strip_line_ending(piece);
        proof {
            assert(rest.take(n - start) =~= piece@);
            assert(lines_in(rest.skip(n - start)) =~= Seq::<Seq<char>>::empty());
        }
        lines.push(line);
    } else {
        assert(lines_in(rest) =~= Seq::<Seq<char>>::empty());
        assert(texts(lines@) + lines_in(rest) =~= texts(lines@));
    }
    lines
}

/// No character of the text is a line feed.
pub open spec fn has_no_line_feed(text: Seq<char>) -> bool {
    forall|i: int| 0 <= i < text.len() ==> #[trigger] text[i] != '\n'
}

/// The first line of a text holds no line feed before its last character.
pub proof fn lemma_first_line_has_one_end(text: Seq<char>)
    ensures
        forall|i: int| 0 <= i < line_end(text) - 1 ==> #[trigger] text[i] != '\n',
    decreases text.len(),
{
    if text.len() > 0 && text[0] != '\n' {
        let rest = text.drop_first();
        lemma_first_line_has_one_end(rest);
        lemma_line_end_bounds(rest);
        assert forall|i: int| 0 <= i < line_end(text) - 1 implies #[trigger] text[i] != '\n' by {
            if i > 0 {
                assert(text[i] == rest[i - 1]);
            }
        }
    }
}

/// Cutting a text into lines uses up every line feed: none is left inside a
/// line.
pub proof fn law_lines_hold_no_line_feed(text: Seq<char>)
    ensures
        forall|k: int|
            0 <= k < lines_in(text).len() ==> has_no_line_feed(#[trigger] lines_in(text)[k]),
    decreases text.len(),
{
    let end = line_end(text);
    lemma_line_end_bounds(text);
    if text.len() > 0 {
        let piece = text.take(end as int);
        let rest = lines_in(text.skip(end as int));
        lemma_first_line_has_one_end(text);
        law_lines_hold_no_line_feed(text.skip(end as int));
        let line = without_line_ending(piece);
        assert(has_no_line_feed(line)) by {
            assert forall|i: int| 0 <= i < line.len() implies #[trigger] line[i] != '\n' by {
                assert(line[i] == piece[i]);
                assert(piece[i] == text[i]);
            }
        }
        assert forall|k: int| 0 <= k < lines_in(text).len() implies has_no_line_feed(
            #[trigger] lines_in(text)[k],
        ) by {
            if k == 0 {
                assert(lines_in(text)[0] == line);
            } else {
                assert(lines_in(text)[k] == rest[k - 1]);
            }
        }
    }
}

/// White space as Unicode defines it: the characters that separate the
/// fields of a line.
pub open spec fn is_space(c: char) -> bool {
    ||| ('\u{9}' <= c && c <= '\u{d}')
    ||| c == ' '
    ||| c == '\u{85}'
    ||| c == '\u{a0}'
    ||| c == '\u{1680}'
    ||| ('\u{2000}' <= c && c <= '\u{200a}')
    ||| c == '\u{2028}'
    ||| c == '\u{2029}'
    ||| c == '\u{202f}'
    ||| c == '\u{205f}'
    ||| c == '\u{3000}'
}

/// Whether a character is white space.
pub fn is_space_char(c: char) -> (space: bool)
    ensures
        space == is_space(c),
{
    (c >= '\u{9}' && c <= '\u{d}') || c == ' ' || c == '\u{85}' || c == '\u{a0}' || c
        == '\u{1680}' || (c >= '\u{2000}' && c <= '\u{200a}') || c == '\u{2028}' || c
        == '\u{2029}' || c == '\u{202f}' || c == '\u{205f}' || c == '\u{3000}'
}

/// The number of characters at the start of `line` that are not white
/// space.
pub open spec fn word_len(line: Seq<char>) -> nat
    decreases line.len(),
{
    if line.len() == 0 || is_space(line[0]) {
        0
    } else {
        1 + word_len(line.drop_first())
    }
}

/// The fields of a line: its longest stretches of characters that are not
/// white space, from left to right. No field is empty.
pub open spec fn fields_in(line: Seq<char>) -> Seq<Seq<char>>
    decreases line.len(),
{
    if line.len() == 0 {
        Seq::empty()
    } else if is_space(line[0]) {
        fields_in(line.drop_first())
    } else {
        let n = word_len(line);
        if 0 < n <= line.len() {
            seq![line.take(n as int)] + fields_in(line.skip(n as int))
        } else {
            Seq::empty()
        }
    }
}

/// A word is no longer than its line, and not empty where the line starts
/// with a character that is not white space.
pub proof fn lemma_word_len_bounds(line: Seq<char>)
    ensures
        word_len(line) <= line.len(),
        line.len() > 0 && !is_space(line[0]) ==> word_len(line) > 0,
    decreases line.len(),
{
    if line.len() > 0 && !is_space(line[0]) {
        lemma_word_len_bounds(line.drop_first());
    }
}

/// Cuts a line into its fields.
pub fn split_fields(line: &str) -> (fields: Vec<String>)
    ensures
        texts(fields@) == fields_in(line@),
{
    let chars = chars_of(line);
    let n = chars.len();
    let mut fields: Vec<String> = Vec::new();
    let mut i: usize = 0;
    assert(line@.skip(0) =~= line@);
    while i < n
        invariant
            i <= n,
            n == line@.len(),
            chars@ == line@,
            fields_in(line@) == texts(fields@) + fields_in(line@.skip(i as int)),
        decreases n - i,
    {
        let ghost here = line@.skip(i as int);
        if is_space_char(chars[i]) {
            assert(here.drop_first() =~= line@.skip(i + 1));
            i += 1;
        } else {
            let start = i;
            while i < n && !is_space_char(chars[i])
                invariant
                    start <= i <= n,
                    n == line@.len(),
                    chars@ == line@,
                    here == line@.skip(start as int),
                    word_len(here) == (i - start) + word_len(line@.skip(i as int)),
                decreases n - i,
            {
                let ghost at = line@.skip(i as int);
                assert(at.drop_first() =~= line@.skip(i + 1));
                i += 1;
            }
            let word = String::from_str(line.substring_char(start, i));
            proof {
                let tail = line@.skip(i as int);
                if i < n {
                    assert(tail.len() > 0 && tail[0] == chars@[i as int]);
                }
                assert(here.take(i - start) =~= word@);
                assert(here.skip(i - start) =~= tail);
            }
            fields.push(word);
        }
    }
    fields
}

/// A stretch of characters that can be a field: not empty, and without
/// white space.
pub open spec fn is_word(word: Seq<char>) -> bool {
    word.len() > 0 && forall|i: int| 0 <= i < word.len() ==> !is_space(#[trigger] word[i])
}

/// The characters that `word_len` counts are not white space.
pub proof fn lemma_word_holds_no_space(line: Seq<char>)
    ensures
        forall|i: int| 0 <= i < word_len(line) ==> !is_space(#[trigger] line[i]),
    decreases line.len(),
{
    if line.len() > 0 && !is_space(line[0]) {
        let rest = line.drop_first();
        lemma_word_holds_no_space(rest);
        lemma_word_len_bounds(rest);
        assert forall|i: int| 0 <= i < word_len(line) implies !is_space(#[trigger] line[i]) by {
            if i > 0 {
                assert(line[i] == rest[i - 1]);
            }
        }
    }
}

/// Every field of a line is a word: it is not empty and holds no white
/// space.
pub proof fn law_fields_are_words(line: Seq<char>)
    ensures
        forall|k: int| 0 <= k < fields_in(line).len() ==> is_word(#[trigger] fields_in(line)[k]),
    decreases line.len(),
{
    if line.len() == 0 {
        assert(fields_in(line).len() == 0);
    } else {
        if is_space(line[0]) {
            law_fields_are_words(line.drop_first());
            assert(fields_in(line) == fields_in(line.drop_first()));
        } else {
            let n = word_len(line);
            lemma_word_len_bounds(line);
            lemma_word_holds_no_space(line);
            law_fields_are_words(line.skip(n as int));
            let word = line.take(n as int);
            let rest = fields_in(line.skip(n as int));
            assert(is_word(word)) by {
                assert forall|i: int| 0 <= i < word.len() implies !is_space(#[trigger] word[i]) by {
                    assert(word[i] == line[i]);
                }
            }
            assert forall|k: int| 0 <= k < fields_in(line).len() implies is_word(
                #[trigger] fields_in(line)[k],
            ) by {
                if k == 0 {
                    assert(fields_in(line)[0] == word);
                } else {
                    assert(fields_in(line)[k] == rest[k - 1]);
                }
            }
        }
    }
}

/// `text` ends with `suffix`.
pub open spec fn ends_with(text: Seq<char>, suffix: Seq<char>) -> bool {
    suffix.len() <= text.len() && text.skip(text.len() - suffix.len()) == suffix
}

/// Whether `text` ends with `suffix`.
pub fn has_suffix(text: &str, suffix: &str) -> (found: bool)
    ensures
        found == ends_with(text@, suffix@),
{
    let n = text.unicode_len();
    let m = suffix.unicode_len();
    if m > n {
        return false;
    }
    let tail = String::from_str(text.substring_char(n - m, n));
    let wanted = String::from_str(suffix);
    tail == wanted
}

/// The character that stands for a digit.
pub open spec fn digit_char(d: nat) -> char {
    if d == 0 {
        '0'
    } else if d == 1 {
        '1'
    } else if d == 2 {
        '2'
    } else if d == 3 {
        '3'
    } else if d == 4 {
        '4'
    } else if d == 5 {
        '5'
    } else if d == 6 {
        '6'
    } else if d == 7 {
        '7'
    } else if d == 8 {
        '8'
    } else {
        '9'
    }
}

/// A number in decimal notation, without leading zeros.
pub open spec fn decimal(n: nat) -> Seq<char>
    decreases n,
{
    if n < 10 {
        seq![digit_char(n)]
    } else {
        decimal(n / 10).push(digit_char(n % 10))
    }
}

/// The text of one digit.
fn digit_text(d: usize) -> (text: &'static str)
    requires
        d < 10,
    ensures
        text@ == seq![digit_char(d as nat)],
{
    proof {
        reveal_strlit("0");
        reveal_strlit("1");
        reveal_strlit("2");
        reveal_strlit("3");
        reveal_strlit("4");
        reveal_strlit("5");
        reveal_strlit("6");
        reveal_strlit("7");
        reveal_strlit("8");
        reveal_strlit("9");
    }
    let text = if d == 0 {
        "0"
    } else if d == 1 {
        "1"
    } else if d == 2 {
        "2"
    } else if d == 3 {
        "3"
    } else if d == 4 {
        "4"
    } else if d == 5 {
        "5"
    } else if d == 6 {
        "6"
    } else if d == 7 {
        "7"
    } else if d == 8 {
        "8"
    } else {
        "9"
    };
    text
}

/// Writes a number in decimal notation.
pub fn decimal_text(n: usize) -> (text: String)
    ensures
        text@ == decimal(n as nat),
    decreases n,
{
    if n < 10 {
        String::from_str(digit_text(n))
    } else {
        let text = decimal_text(n / 10).concat(digit_text(n % 10));
        assert(text@ =~= decimal(n as nat));
        text
    }
}

} // verus!
