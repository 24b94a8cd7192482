//! Environment files: newline-delimited `KEY=VALUE` text.

use vstd::prelude::*;

use crate::text::views;

verus! {

broadcast use vstd::seq_lib::group_seq_properties;

/// The characters that carry Unicode's `White_Space` property.
pub open spec fn is_white_space(c: char) -> bool {
    ('\u{9}' <= c && c <= '\u{d}') || c == ' ' || c == '\u{85}' || c == '\u{a0}'
        || c == '\u{1680}' || ('\u{2000}' <= c && c <= '\u{200a}') || c == '\u{2028}'
        || c == '\u{2029}' || c == '\u{202f}' || c == '\u{205f}' || c == '\u{3000}'
}

/// Relies on `char::is_whitespace`, which is true exactly of the characters
/// with Unicode's `White_Space` property.
#[verifier::external_body]
fn white_space(c: char) -> (r: bool)
    ensures
        r == is_white_space(c),
{
    c.is_whitespace()
}

/// The first character of `line` that is not white space, if any.
pub open spec fn first_visible(line: Seq<char>) -> Option<char>
    decreases line.len(),
{
    if line.len() == 0 {
        None
    } else if is_white_space(line[0]) {
        first_visible(line.drop_first())
    } else {
        Some(line[0])
    }
}

/// A line that becomes an environment entry: after trimming white space it
/// is neither empty nor a `#` comment.
pub open spec fn is_entry(line: Seq<char>) -> bool {
    first_visible(line) is Some && first_visible(line)->0 != '#'
}

/// A line without the carriage return of a `\r\n` ending.
pub open spec fn without_cr(line: Seq<char>) -> Seq<char> {
    if line.len() > 0 && line.last() == '\r' {
        line.drop_last()
    } else {
        line
    }
}

/// Splits `s` at its newlines: the lines ended by a newline, each without
/// the `\r` of a `\r\n` ending, and the text after the last newline.
pub open spec fn split_lines(s: Seq<char>) -> (Seq<Seq<char>>, Seq<char>)
    decreases s.len(),
{
    if s.len() == 0 {
        (Seq::empty(), Seq::empty())
    } else {
        let (done, rest) = split_lines(s.drop_last());
        if s.last() == '\n' {
            (done.push(without_cr(rest)), Seq::empty())
        } else {
            (done, rest.push(s.last()))
        }
    }
}

/// The lines of `s`, as `str::lines` yields them: a final line without a
/// newline counts, an empty one after the last newline does not.
pub open spec fn lines(s: Seq<char>) -> Seq<Seq<char>> {
    let (done, rest) = split_lines(s);
    if rest.len() == 0 {
        done
    } else {
        done.push(rest)
    }
}

/// The environment entries of a file's text: its lines that are neither
/// blank nor comments, each passed through verbatim.
pub open spec fn env_entries(s: Seq<char>) -> Seq<Seq<char>> {
    lines(s).filter(|l: Seq<char>| is_entry(l))
}

/// Whether the characters `chars[from..to]` form an entry.
fn is_entry_at(chars: &Vec<char>, from: usize, to: usize) -> (r: bool)
    requires
        from <= to <= chars@.len(),
    ensures
        r == is_entry(chars@.subrange(from as int, to as int)),
{
    let ghost line = chars@.subrange(from as int, to as int);
    let mut i: usize = from;
    while i < to
        invariant
            from <= i <= to <= chars@.len(),
            line == chars@.subrange(from as int, to as int),
            first_visible(line) == first_visible(chars@.subrange(i as int, to as int)),
        decreases to - i,
    {
        let c = chars[i];
        assert(chars@.subrange(i as int, to as int)[0] == c);
        if !white_space(c) {
            return c != '#';
        }
        assert(chars@.subrange(i as int, to as int).drop_first()
            =~= chars@.subrange(i + 1, to as int));
        i = i + 1;
    }
    assert(chars@.subrange(i as int, to as int).len() == 0);
    false
}

/// Parses the text of an environment file into its entries: blank lines and
/// lines whose first visible character is `#` are skipped, every other line
/// is kept as it stands, `=` or not.
pub fn parse_env_text(text: &str) -> (r: Vec<String>)
    ensures
        views(r@) == env_entries(text@),
{
    let mut chars: Vec<char> = Vec::new();
    for c in it: text.chars()
        invariant
            chars@ == it.seq().take(it.index() as int),
    {
        chars.push(c);
    }
    assert(chars@ =~= text@);
    let mut out: Vec<String> = Vec::new();
    let ghost mut done: Seq<Seq<char>> = Seq::empty();
    let mut start: usize = 0;
    let mut i: usize = 0;
    assert(chars@.take(0) =~= Seq::<char>::empty());
    while i < chars.len()
        invariant
            chars@ == text@,
            start <= i <= chars@.len(),
            split_lines(chars@.take(i as int)) == (done, chars@.subrange(start as int, i as int)),
            views(out@) == done.filter(|l: Seq<char>| is_entry(l)),
        decreases chars.len() - i,
    {
        let ghost prefix = chars@.take(i as int);
        assert(chars@.take(i + 1).drop_last() =~= prefix);
        if chars[i] == '\n' {
            let end: usize = if i > start && chars[i - 1] == '\r' { i - 1 } else { i };
            let ghost rest = chars@.subrange(start as int, i as int);
            assert(without_cr(rest) =~= chars@.subrange(start as int, end as int));
            proof {
                done.lemma_filter_push(without_cr(rest), |l: Seq<char>| is_entry(l));
            }
            if is_entry_at(&chars, start, end) {
                let line = String::from_str(text.substring_char(start, end));
                out.push(line);
            }
            proof {
                done = done.push(without_cr(rest));
            }
            start = i + 1;
            assert(chars@.subrange(start as int, i + 1) =~= Seq::<char>::empty());
        } else {
            assert(chars@.subrange(start as int, i + 1)
                =~= chars@.subrange(start as int, i as int).push(chars@[i as int]));
        }
        i = i + 1;
    }
    assert(chars@.take(i as int) =~= text@);
    let n = chars.len();
    proof {
        let rest = chars@.subrange(start as int, n as int);
        done.lemma_filter_push(rest, |l: Seq<char>| is_entry(l));
    }
    if start < n && is_entry_at(&chars, start, n) {
        let line = String::from_str(text.substring_char(start, n));
        out.push(line);
        assert(views(out@) =~= views(out@.drop_last()).push(line@));
    }
    proof {
        if start == n {
            assert(!is_entry(Seq::<char>::empty()));
        }
    }
    out
}

} // verus!
