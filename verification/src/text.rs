//! Operations on text, by characters.

use crate::extract::{lemma_texts_push, texts};
use vstd::prelude::*;
use vstd::std_specs::iter::IteratorSpec;

verus! {

/// The characters of a text.
pub fn chars_of(s: &str) -> (r: Vec<char>)
    ensures
        r@ == s@,
{
    let mut out: Vec<char> = Vec::new();
    let mut it = s.chars();
    assert(out@ + it.remaining() =~= s@);
    loop
        invariant_except_break
            out@ + it.remaining() == s@,
        ensures
            out@ == s@,
        decreases s@.len() - out@.len(),
    {
        match it.next() {
            Some(c) => {
                assert(out@.push(c) + it.remaining() =~= s@);
                out.push(c);
            },
            None => {
                assert(out@ =~= s@);
                break ;
            },
        }
    }
    out
}

/// `String::push` appends one character.
pub assume_specification[ String::push ](s: &mut String, c: char)
    ensures
        final(s)@ == old(s)@.push(c),
;

/// The text made of the characters from `from` up to `to`.
pub fn text_of(chars: &Vec<char>, from: usize, to: usize) -> (r: String)
    requires
        from <= to <= chars.len(),
    ensures
        r@ == chars@.subrange(from as int, to as int),
{
    let mut out = String::new();
    let mut i: usize = from;
    assert(out@ =~= chars@.subrange(from as int, i as int));
    while i < to
        invariant
            from <= i <= to <= chars.len(),
            out@ == chars@.subrange(from as int, i as int),
        decreases to - i,
    {
        assert(chars@.subrange(from as int, i as int).push(chars@[i as int])
            =~= chars@.subrange(from as int, i as int + 1));
        out.push(chars[i]);
        i = i + 1;
    }
    out
}

/// Whether a character is white space: one of the characters with the
/// Unicode property `White_Space`.
pub open spec fn is_white_space(c: char) -> bool {
    let code = c as u32;
    (0x09 <= code <= 0x0d) || code == 0x20 || code == 0x85 || code == 0xa0 || code == 0x1680 || (
    0x2000 <= code <= 0x200a) || code == 0x2028 || code == 0x2029 || code == 0x202f || code
        == 0x205f || code == 0x3000
}

/// Whether a character is white space.
pub fn char_is_white_space(c: char) -> (r: bool)
    ensures
        r == is_white_space(c),
{
    let code = c as u32;
    (0x09 <= code && code <= 0x0d) || code == 0x20 || code == 0x85 || code == 0xa0 || code
        == 0x1680 || (0x2000 <= code && code <= 0x200a) || code == 0x2028 || code == 0x2029
        || code == 0x202f || code == 0x205f || code == 0x3000
}

/// Whether `s` begins with `prefix`.
pub open spec fn has_prefix(s: Seq<char>, prefix: Seq<char>) -> bool {
    prefix.len() <= s.len() && s.subrange(0, prefix.len() as int) == prefix
}

/// Whether the characters begin with those of `prefix`.
pub fn chars_start_with(chars: &Vec<char>, prefix: &Vec<char>) -> (r: bool)
    ensures
        r == has_prefix(chars@, prefix@),
{
    if prefix.len() > chars.len() {
        return false;
    }
    let mut i: usize = 0;
    while i < prefix.len()
        invariant
            i <= prefix.len() <= chars.len(),
            chars@.subrange(0, i as int) == prefix@.subrange(0, i as int),
        decreases prefix.len() - i,
    {
        if chars[i] != prefix[i] {
            assert(chars@.subrange(0, prefix.len() as int)[i as int] != prefix@[i as int]);
            return false;
        }
        assert(chars@.subrange(0, i as int + 1) =~= chars@.subrange(0, i as int).push(
            chars@[i as int],
        ));
        assert(prefix@.subrange(0, i as int + 1) =~= prefix@.subrange(0, i as int).push(
            prefix@[i as int],
        ));
        i = i + 1;
    }
    assert(prefix@.subrange(0, i as int) =~= prefix@);
    true
}

/// Whether `s` begins with `prefix`.
pub fn starts_with(s: &str, prefix: &str) -> (r: bool)
    ensures
        r == has_prefix(s@, prefix@),
{
    let chars = chars_of(s);
    let wanted = chars_of(prefix);
    chars_start_with(&chars, &wanted)
}

/// What follows `prefix` in `s`, where `s` begins with it.
pub open spec fn without_prefix(s: Seq<char>, prefix: Seq<char>) -> Option<Seq<char>> {
    if has_prefix(s, prefix) {
        Some(s.subrange(prefix.len() as int, s.len() as int))
    } else {
        None
    }
}

/// What follows `prefix` in `s`, where `s` begins with it.
pub fn strip_prefix(s: &str, prefix: &str) -> (r: Option<String>)
    ensures
        match r {
            Some(rest) => without_prefix(s@, prefix@) == Some(rest@),
            None => without_prefix(s@, prefix@) is None,
        },
{
    let chars = chars_of(s);
    let wanted = chars_of(prefix);
    if chars_start_with(&chars, &wanted) {
        Some(text_of(&chars, wanted.len(), chars.len()))
    } else {
        None
    }
}

/// The parts, with `sep` between each two of them.
pub open spec fn joined(parts: Seq<Seq<char>>, sep: Seq<char>) -> Seq<char>
    decreases parts.len(),
{
    if parts.len() == 0 {
        Seq::empty()
    } else if parts.len() == 1 {
        parts[0]
    } else {
        joined(parts.drop_last(), sep) + sep + parts.last()
    }
}

/// Joins the parts, with `sep` between each two of them.
pub fn join(parts: &Vec<String>, sep: &str) -> (r: String)
    ensures
        r@ == joined(texts(parts@), sep@),
{
    let mut out = String::new();
    let mut i: usize = 0;
    assert(texts(parts@).subrange(0, 0) =~= Seq::<Seq<char>>::empty());
    while i < parts.len()
        invariant
            i <= parts.len(),
            out@ == joined(texts(parts@).subrange(0, i as int), sep@),
        decreases parts.len() - i,
    {
        proof {
            let upto = texts(parts@).subrange(0, i as int + 1);
            assert(upto.drop_last() =~= texts(parts@).subrange(0, i as int));
            assert(upto.last() == parts@[i as int]@);
            if i == 0 {
                assert(out@ + parts@[0]@ =~= parts@[0]@);
            }
        }
        if i > 0 {
            out.append(sep);
        }
        out.append(parts[i].as_str());
        i = i + 1;
    }
    assert(texts(parts@).subrange(0, i as int) =~= texts(parts@));
    out
}

/// The position of the first character from `from` on that is no white
/// space; the length where there is none.
pub open spec fn first_non_space(s: Seq<char>, from: int) -> int
    decreases s.len() - from,
{
    if from < 0 || from >= s.len() {
        s.len() as int
    } else if !is_white_space(s[from]) {
        from
    } else {
        first_non_space(s, from + 1)
    }
}

/// The position of the first white space from `from` on; the length where
/// there is none.
pub open spec fn first_space(s: Seq<char>, from: int) -> int
    decreases s.len() - from,
{
    if from < 0 || from >= s.len() {
        s.len() as int
    } else if is_white_space(s[from]) {
        from
    } else {
        first_space(s, from + 1)
    }
}

/// The position behind the last character before `to` that is no white
/// space; zero where there is none.
pub open spec fn last_non_space_end(s: Seq<char>, to: int) -> int
    decreases to,
{
    if to <= 0 || to > s.len() {
        0
    } else if !is_white_space(s[to - 1]) {
        to
    } else {
        last_non_space_end(s, to - 1)
    }
}

/// Finds the first character from `from` on that is no white space.
pub fn find_non_space(chars: &Vec<char>, from: usize) -> (r: usize)
    requires
        from <= chars.len(),
    ensures
        r == first_non_space(chars@, from as int),
        from <= r <= chars.len(),
        r < chars.len() ==> !is_white_space(chars@[r as int]),
{
    let mut i: usize = from;
    while i < chars.len() && char_is_white_space(chars[i])
        invariant
            from <= i <= chars.len(),
            first_non_space(chars@, from as int) == first_non_space(chars@, i as int),
        decreases chars.len() - i,
    {
        i = i + 1;
    }
    i
}

/// Finds the first white space from `from` on.
pub fn find_space(chars: &Vec<char>, from: usize) -> (r: usize)
    requires
        from <= chars.len(),
    ensures
        r == first_space(chars@, from as int),
        from <= r <= chars.len(),
        r < chars.len() ==> is_white_space(chars@[r as int]),
{
    let mut i: usize = from;
    while i < chars.len() && !char_is_white_space(chars[i])
        invariant
            from <= i <= chars.len(),
            first_space(chars@, from as int) == first_space(chars@, i as int),
        decreases chars.len() - i,
    {
        i = i + 1;
    }
    i
}

/// The text without the white space at its ends.
pub open spec fn trimmed(s: Seq<char>) -> Seq<char> {
    let start = first_non_space(s, 0);
    let end = last_non_space_end(s, s.len() as int);
    if start < end {
        s.subrange(start, end)
    } else {
        Seq::empty()
    }
}

/// The characters without the white space at their ends.
pub fn trim_chars(chars: &Vec<char>) -> (r: String)
    ensures
        r@ == trimmed(chars@),
{
    let start = find_non_space(chars, 0);
    let mut end: usize = chars.len();
    while end > 0 && char_is_white_space(chars[end - 1])
        invariant
            end <= chars.len(),
            last_non_space_end(chars@, chars.len() as int) == last_non_space_end(
                chars@,
                end as int,
            ),
        decreases end,
    {
        end = end - 1;
    }
    if start < end {
        text_of(chars, start, end)
    } else {
        String::new()
    }
}

/// The text without the white space at its ends.
pub fn trim(s: &str) -> (r: String)
    ensures
        r@ == trimmed(s@),
{
    let chars = chars_of(s);
    trim_chars(&chars)
}

/// The words of a text from `from` on: its longest runs of characters
/// that are no white space, in order.
pub open spec fn words_from(s: Seq<char>, from: int) -> Seq<Seq<char>>
    decreases s.len() - from,
{
    let start = first_non_space(s, from);
    let end = first_space(s, start);
    if from < 0 || start >= s.len() || end <= from || end > s.len() {
        Seq::empty()
    } else {
        seq![s.subrange(start, end)] + words_from(s, end)
    }
}

/// The words of a text.
pub open spec fn words(s: Seq<char>) -> Seq<Seq<char>> {
    words_from(s, 0)
}

/// Splits a text into its words.
pub fn split_whitespace(s: &str) -> (r: Vec<String>)
    ensures
        texts(r@) == words(s@),
        forall|i: int| 0 <= i < r.len() ==> (#[trigger] r@[i])@.len() > 0,
{
    let chars = chars_of(s);
    let mut out: Vec<String> = Vec::new();
    let mut i: usize = 0;
    assert(texts(out@) + words_from(chars@, 0) =~= words(s@));
    loop
        invariant_except_break
            i <= chars.len(),
            chars@ == s@,
            texts(out@) + words_from(chars@, i as int) == words(s@),
            forall|k: int| 0 <= k < out.len() ==> (#[trigger] out@[k])@.len() > 0,
        ensures
            texts(out@) == words(s@),
            forall|k: int| 0 <= k < out.len() ==> (#[trigger] out@[k])@.len() > 0,
        decreases chars.len() - i,
    {
        let start = find_non_space(&chars, i);
        if start >= chars.len() {
            assert(texts(out@) =~= words(s@));
            break ;
        }
        let end = find_space(&chars, start + 1);
        assert(first_space(chars@, start as int) == end);
        let word = text_of(&chars, start, end);
        proof {
            lemma_texts_push(out@, word);
            assert(texts(out@.push(word)) + words_from(chars@, end as int) =~= texts(out@) + (
            seq![chars@.subrange(start as int, end as int)] + words_from(chars@, end as int)));
        }
        out.push(word);
        i = end;
    }
    out
}

/// The position of the first `sep` from `from` on; the length where there
/// is none.
pub open spec fn first_index_of(s: Seq<char>, sep: char, from: int) -> int
    decreases s.len() - from,
{
    if from < 0 || from >= s.len() {
        s.len() as int
    } else if s[from] == sep {
        from
    } else {
        first_index_of(s, sep, from + 1)
    }
}

/// Finds the first `sep` from `from` on.
pub fn find_char(chars: &Vec<char>, sep: char, from: usize) -> (r: usize)
    requires
        from <= chars.len(),
    ensures
        r == first_index_of(chars@, sep, from as int),
        from <= r <= chars.len(),
{
    let mut i: usize = from;
    while i < chars.len() && chars[i] != sep
        invariant
            from <= i <= chars.len(),
            first_index_of(chars@, sep, from as int) == first_index_of(chars@, sep, i as int),
        decreases chars.len() - i,
    {
        i = i + 1;
    }
    i
}

/// The pieces of a text from `from` on that `sep` separates. There is one
/// piece more than there are separators: a text without a separator is
/// one piece, and a separator at the end is followed by an empty piece.
pub open spec fn pieces_from(s: Seq<char>, sep: char, from: int) -> Seq<Seq<char>>
    decreases s.len() - from,
{
    let at = first_index_of(s, sep, from);
    if from < 0 || from > s.len() {
        Seq::empty()
    } else if at >= s.len() || at < from {
        seq![s.subrange(from, s.len() as int)]
    } else {
        seq![s.subrange(from, at)] + pieces_from(s, sep, at + 1)
    }
}

/// The pieces of a text that `sep` separates.
pub open spec fn pieces(s: Seq<char>, sep: char) -> Seq<Seq<char>> {
    pieces_from(s, sep, 0)
}

/// Splits the characters at every `sep`.
pub fn split_chars(chars: &Vec<char>, sep: char) -> (r: Vec<String>)
    ensures
        texts(r@) == pieces(chars@, sep),
        r.len() >= 1,
{
    let mut out: Vec<String> = Vec::new();
    let mut i: usize = 0;
    assert(texts(out@) + pieces_from(chars@, sep, 0) =~= pieces(chars@, sep));
    loop
        invariant_except_break
            i <= chars.len(),
            texts(out@) + pieces_from(chars@, sep, i as int) == pieces(chars@, sep),
        ensures
            texts(out@) == pieces(chars@, sep),
            out.len() >= 1,
        decreases chars.len() - i,
    {
        let at = find_char(chars, sep, i);
        let piece = text_of(chars, i, at);
        proof {
            lemma_texts_push(out@, piece);
        }
        if at >= chars.len() {
            assert(texts(out@.push(piece)) =~= texts(out@) + seq![
                chars@.subrange(i as int, chars.len() as int),
            ]);
            out.push(piece);
            break ;
        }
        assert(texts(out@.push(piece)) + pieces_from(chars@, sep, at as int + 1) =~= texts(out@)
            + (seq![chars@.subrange(i as int, at as int)] + pieces_from(
            chars@,
            sep,
            at as int + 1,
        )));
        out.push(piece);
        i = at + 1;
    }
    out
}

/// Splits a text at every `sep`.
pub fn split(s: &str, sep: char) -> (r: Vec<String>)
    ensures
        texts(r@) == pieces(s@, sep),
        r.len() >= 1,
{
    let chars = chars_of(s);
    split_chars(&chars, sep)
}

/// A line without the carriage return at its end, where it has one.
pub open spec fn without_carriage_return(line: Seq<char>) -> Seq<char> {
    if line.len() > 0 && line.last() == '\r' {
        line.drop_last()
    } else {
        line
    }
}

/// The lines of a text. A line ends with a line feed, or with a carriage
/// return and a line feed; neither belongs to the line. What follows the
/// last line feed is a line where it is not empty.
pub open spec fn lines(s: Seq<char>) -> Seq<Seq<char>> {
    let parts = pieces(s, '\n');
    let count = if parts.len() > 0 && parts.last().len() == 0 {
        parts.len() - 1
    } else {
        parts.len() as int
    };
    Seq::new(
        count as nat,
        |i: int|
            if i < parts.len() - 1 {
                without_carriage_return(parts[i])
            } else {
                parts[i]
            },
    )
}

/// Splits a text into its lines.
pub fn split_lines(s: &str) -> (r: Vec<String>)
    ensures
        texts(r@) == lines(s@),
{
    let parts = split(s, '\n');
    let ghost expected = lines(s@);
    let mut out: Vec<String> = Vec::new();
    let mut i: usize = 0;
    while i + 1 < parts.len()
        invariant
            parts.len() >= 1,
            texts(parts@) == pieces(s@, '\n'),
            i + 1 <= parts.len(),
            out.len() == i,
            forall|k: int|
                0 <= k < i ==> (#[trigger] out@[k])@ == without_carriage_return(parts@[k]@),
        decreases parts.len() - i,
    {
        let chars = chars_of(parts[i].as_str());
        let line = if chars.len() > 0 && chars[chars.len() - 1] == '\r' {
            text_of(&chars, 0, chars.len() - 1)
        } else {
            parts[i].clone()
        };
        out.push(line);
        i = i + 1;
    }
    assert(texts(parts@)[i as int] == parts@[i as int]@);
    if !parts[i].as_str().is_empty() {
        out.push(parts[i].clone());
    }
    assert(texts(out@) =~= lines(s@)) by {
        assert forall|k: int| 0 <= k < out.len() implies texts(out@)[k] == lines(s@)[k] by {
            assert(texts(parts@)[k] == parts@[k]@);
        }
    }
    out
}

/// The lines that are kept of `all` where the last `tail` are asked for:
/// the last `tail` lines where `tail` is positive and less than their
/// number, else all of them.
pub open spec fn kept_lines(all: Seq<Seq<char>>, tail: Option<i64>) -> Seq<Seq<char>> {
    match tail {
        Some(count) => if 0 < count < all.len() {
            all.subrange(all.len() - count, all.len() as int)
        } else {
            all
        },
        None => all,
    }
}

/// The last `tail` lines of a log, joined by line feeds.
pub open spec fn log_tail_text(content: Seq<char>, tail: Option<i64>) -> Seq<char> {
    joined(kept_lines(lines(content), tail), seq!['\n'])
}

/// The last `tail` lines of a log, joined by line feeds; all of its lines
/// where `tail` is missing, not positive, or not less than their number.
pub fn log_tail(content: &str, tail: Option<i64>) -> (r: String)
    ensures
        r@ == log_tail_text(content@, tail),
{
    let all = split_lines(content);
    let mut first: usize = 0;
    if let Some(count) = tail {
        if 0 < count && (count as u64) < (all.len() as u64) {
            first = all.len() - (count as usize);
        }
    }
    let mut kept: Vec<String> = Vec::new();
    let mut i: usize = first;
    while i < all.len()
        invariant
            first <= i <= all.len(),
            texts(kept@) == texts(all@).subrange(first as int, i as int),
        decreases all.len() - i,
    {
        let line = all[i].clone();
        proof {
            lemma_texts_push(kept@, line);
            assert(texts(all@).subrange(first as int, i as int).push(all@[i as int]@)
                =~= texts(all@).subrange(first as int, i as int + 1));
        }
        kept.push(line);
        i = i + 1;
    }
    proof {
        reveal_strlit("\n");
        assert("\n"@ =~= seq!['\n']);
        assert(texts(all@).subrange(0, all.len() as int) =~= texts(all@));
    }
    join(&kept, "\n")
}

/// The character of a decimal digit.
pub open spec fn digit_char(d: int) -> char {
    if d == 0 {
        '0'
    } else if d == 1 {
        '1'
    } else if d == 2 {
        '2'
    } else if d == 3 {
        '3'
    } else if d == 4 {
        '4'
    } else if d == 5 {
        '5'
    } else if d == 6 {
        '6'
    } else if d == 7 {
        '7'
    } else if d == 8 {
        '8'
    } else {
        '9'
    }
}

/// The decimal digits of a natural number, without leading zeros.
pub open spec fn digits(n: nat) -> Seq<char>
    decreases n,
{
    if n < 10 {
        seq![digit_char(n as int)]
    } else {
        digits(n / 10).push(digit_char((n % 10) as int))
    }
}

/// The decimal text of an integer, with a minus sign where it is
/// negative.
pub open spec fn decimal(n: int) -> Seq<char> {
    if n < 0 {
        seq!['-'] + digits((-n) as nat)
    } else {
        digits(n as nat)
    }
}

fn digit_of(d: u64) -> (c: char)
    requires
        d < 10,
    ensures
        c == digit_char(d as int),
{
    if d == 0 {
        '0'
    } else if d == 1 {
        '1'
    } else if d == 2 {
        '2'
    } else if d == 3 {
        '3'
    } else if d == 4 {
        '4'
    } else if d == 5 {
        '5'
    } else if d == 6 {
        '6'
    } else if d == 7 {
        '7'
    } else if d == 8 {
        '8'
    } else {
        '9'
    }
}

/// Writes the decimal digits of `n` behind `out`.
fn push_digits(out: &mut String, n: u64)
    ensures
        final(out)@ == old(out)@ + digits(n as nat),
    decreases n,
{
    if n < 10 {
        assert(out@.push(digit_char(n as int)) =~= out@ + digits(n as nat));
        out.push(digit_of(n));
    } else {
        push_digits(out, n / 10);
        assert(out@.push(digit_char((n % 10) as int)) =~= old(out)@ + digits(n as nat));
        out.push(digit_of(n % 10));
    }
}

/// The decimal text of an integer.
pub fn decimal_text(n: i32) -> (r: String)
    ensures
        r@ == decimal(n as int),
{
    let mut out = String::new();
    if n < 0 {
        out.push('-');
        let magnitude: u64 = (0 - (n as i64)) as u64;
        push_digits(&mut out, magnitude);
        assert(out@ =~= decimal(n as int));
    } else {
        push_digits(&mut out, n as u64);
        assert(out@ =~= decimal(n as int));
    }
    out
}

} // verus!
