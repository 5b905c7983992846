//! Quoted string literals in Rust source: the escaping that keeps any text
//! inside one literal, and how such a literal reads back.

use itertools::Itertools;
use vstd::prelude::*;

verus! {

/// The source text that stands for one character inside a quoted literal.
pub open spec fn escaped_char(c: char) -> Seq<char> {
    if c == '\\' {
        seq!['\\', '\\']
    } else if c == '"' {
        seq!['\\', '"']
    } else if c == '\r' {
        seq!['\\', 'r']
    } else {
        seq![c]
    }
}

/// The body of the quoted literal that stands for `s`.
pub open spec fn escaped(s: Seq<char>) -> Seq<char>
    decreases s.len(),
{
    if s.len() == 0 {
        Seq::empty()
    } else {
        escaped(s.drop_last()) + escaped_char(s.last())
    }
}

/// `s` as a quoted literal, delimiters included.
pub open spec fn quoted(s: Seq<char>) -> Seq<char> {
    seq!['"'] + escaped(s) + seq!['"']
}

/// The character that an escape `\d` stands for, where `d` is one that
/// Rust's string literals accept with no further characters.
pub open spec fn unescaped_char(d: char) -> Option<char> {
    if d == 'n' {
        Some('\n')
    } else if d == 'r' {
        Some('\r')
    } else if d == 't' {
        Some('\t')
    } else if d == '0' {
        Some('\0')
    } else if d == '\\' || d == '"' || d == '\'' {
        Some(d)
    } else {
        None
    }
}

/// Reads source text that follows the opening quote of a string literal, as
/// the compiler does: the characters that the literal stands for and the text
/// after its closing quote, or `None` where the text breaks off or holds a
/// bare carriage return or an escape outside the simple ones.
pub open spec fn read_literal(t: Seq<char>) -> Option<(Seq<char>, Seq<char>)>
    decreases t.len(),
{
    if t.len() == 0 {
        None
    } else if t[0] == '"' {
        Some((Seq::empty(), t.drop_first()))
    } else if t[0] == '\r' {
        None
    } else if t[0] == '\\' {
        if t.len() < 2 {
            None
        } else {
            match (unescaped_char(t[1]), read_literal(t.subrange(2, t.len() as int))) {
                (Some(c), Some(r)) => Some((seq![c] + r.0, r.1)),
                _ => None,
            }
        }
    } else {
        match read_literal(t.drop_first()) {
            Some(r) => Some((seq![t[0]] + r.0, r.1)),
            None => None,
        }
    }
}

/// Escaping works piece by piece: the escape of two texts joined is the
/// two escapes joined.
pub proof fn lemma_escaped_concat(a: Seq<char>, b: Seq<char>)
    ensures
        escaped(a + b) == escaped(a) + escaped(b),
    decreases b.len(),
{
    if b.len() == 0 {
        assert(a + b =~= a);
        assert(escaped(b) =~= Seq::<char>::empty());
        assert(escaped(a) + escaped(b) =~= escaped(a));
    } else {
        assert((a + b).drop_last() =~= a + b.drop_last());
        assert((a + b).last() == b.last());
        lemma_escaped_concat(a, b.drop_last());
        assert(escaped(a) + escaped(b.drop_last()) + escaped_char(b.last()) =~= escaped(a) + (
        escaped(b.drop_last()) + escaped_char(b.last())));
    }
}

/// Any text, quoted, reads back as exactly that text, and the literal ends at
/// its own closing quote whatever follows it: no content can end it early.
pub proof fn lemma_quoted_reads_back(s: Seq<char>, rest: Seq<char>)
    ensures
        read_literal(escaped(s) + seq!['"'] + rest) == Some((s, rest)),
    decreases s.len(),
{
    let t = escaped(s) + seq!['"'] + rest;
    if s.len() == 0 {
        assert(escaped(s) =~= Seq::<char>::empty());
        assert(t =~= seq!['"'] + rest);
        assert(t.drop_first() =~= rest);
        assert(s =~= Seq::<char>::empty());
    } else {
        let c = s[0];
        let tail = s.drop_first();
        assert(s =~= seq![c] + tail);
        lemma_escaped_concat(seq![c], tail);
        assert(seq![c].drop_last() =~= Seq::<char>::empty());
        assert(escaped(Seq::<char>::empty()) =~= Seq::<char>::empty());
        assert(seq![c].last() == c);
        assert(Seq::<char>::empty() + escaped_char(c) =~= escaped_char(c));
        assert(escaped(seq![c]) =~= escaped_char(c));
        let after = escaped(tail) + seq!['"'] + rest;
        assert(t =~= escaped_char(c) + after);
        lemma_quoted_reads_back(tail, rest);
        if c == '\\' || c == '"' || c == '\r' {
            assert(t.subrange(2, t.len() as int) =~= after);
        } else {
            assert(t.drop_first() =~= after);
        }
    }
}

/// Relies on `String::push`: appends one character.
#[verifier::external_body]
pub(crate) fn push_char(s: &mut String, c: char)
    ensures
        final(s)@ == old(s)@.push(c),
{
    s.push(c)
}

/// Appends the literal body that stands for `text`.
pub fn push_escaped(out: &mut String, text: &str)
    ensures
        final(out)@ == old(out)@ + escaped(text@),
{
    let n = text.unicode_len();
    let mut i: usize = 0;
    while i < n
        invariant
            n == text@.len(),
            i <= n,
            out@ == old(out)@ + escaped(text@.subrange(0, i as int)),
        decreases n - i,
    {
        let c = text.get_char(i);
        proof {
            assert(text@.subrange(0, i + 1).drop_last() =~= text@.subrange(0, i as int));
        }
        if c == '\\' {
            out.append("\\\\");
        } else if c == '"' {
            out.append("\\\"");
        } else if c == '\r' {
            out.append("\\r");
        } else {
            push_char(out, c);
        }
        proof {
            reveal_strlit("\\\\");
            reveal_strlit("\\\"");
            reveal_strlit("\\r");
            assert(out@ =~= old(out)@ + escaped(text@.subrange(0, i + 1)));
        }
        i = i + 1;
    }
    assert(text@.subrange(0, n as int) =~= text@);
}

/// Appends `text` as a quoted literal.
pub fn push_quoted(out: &mut String, text: &str)
    ensures
        final(out)@ == old(out)@ + quoted(text@),
{
    push_char(out, '"');
    push_escaped(out, text);
    push_char(out, '"');
    assert(out@ =~= old(out)@ + quoted(text@));
}

/// The items of `parts`, in order, with `sep` between each two.
pub open spec fn joined(parts: Seq<Seq<char>>, sep: Seq<char>) -> Seq<char>
    decreases parts.len(),
{
    if parts.len() == 0 {
        Seq::empty()
    } else if parts.len() == 1 {
        parts[0]
    } else {
        joined(parts.drop_last(), sep) + sep + parts.last()
    }
}

/// Relies on `itertools::Itertools::join`: an empty string for no items,
/// else the first item, then `sep` and the next item for each further one.
#[verifier::external_body]
pub(crate) fn join_strings(parts: &Vec<String>, sep: &str) -> (r: String)
    ensures
        r@ == joined(parts@.map_values(|p: String| p@), sep@),
{
    parts.iter().join(sep)
}

} // verus!
