//! The newline escape that keeps an encoded message on one line.

use vstd::prelude::*;

verus! {

/// What stands for `c` in escaped text: a newline becomes a backslash followed by `n`,
/// every other character stands for itself.
pub open spec fn escape_char(c: char) -> Seq<char> {
    if c == '\n' {
        seq!['\\', 'n']
    } else {
        seq![c]
    }
}

/// `s` with every newline escaped.
pub open spec fn escape(s: Seq<char>) -> Seq<char>
    decreases s.len(),
{
    if s.len() == 0 {
        Seq::empty()
    } else {
        escape(s.drop_last()) + escape_char(s.last())
    }
}

/// Whether the two-character escape stands at index `i` of `s`.
pub open spec fn escape_at(s: Seq<char>, i: int) -> bool {
    0 <= i && i + 1 < s.len() && s[i] == '\\' && s[i + 1] == 'n'
}

/// Whether the two-character escape occurs anywhere in `s`.
pub open spec fn has_escape(s: Seq<char>) -> bool {
    exists|i: int| escape_at(s, i)
}

/// `s` with every escape turned back into a newline, reading from the left.
pub open spec fn unescape(s: Seq<char>) -> Seq<char>
    decreases s.len(),
{
    if s.len() == 0 {
        Seq::empty()
    } else if escape_at(s, 0) {
        seq!['\n'] + unescape(s.skip(2))
    } else {
        seq![s[0]] + unescape(s.skip(1))
    }
}

/// Escaping works piece by piece.
pub proof fn lemma_escape_concat(a: Seq<char>, b: Seq<char>)
    ensures
        escape(a + b) == escape(a) + escape(b),
    decreases b.len(),
{
    if b.len() == 0 {
        assert(a + b == a);
    } else {
        lemma_escape_concat(a, b.drop_last());
        assert((a + b).drop_last() == a + b.drop_last());
    }
}

/// Escaped text holds no newline.
pub proof fn lemma_escape_has_no_newline(s: Seq<char>)
    ensures
        !escape(s).contains('\n'),
    decreases s.len(),
{
    if s.len() > 0 {
        lemma_escape_has_no_newline(s.drop_last());
    }
}

/// Unescaping undoes escaping for every text in which the escape does not occur.
pub proof fn lemma_unescape_escape(s: Seq<char>)
    requires
        !has_escape(s),
    ensures
        unescape(escape(s)) == s,
    decreases s.len(),
{
    if s.len() > 0 {
        let head = s[0];
        let rest = s.skip(1);
        assert(s == seq![head] + rest);
        lemma_escape_concat(seq![head], rest);
        lemma_escape_single(head);
        assert forall|i: int| !escape_at(rest, i) by {
            if escape_at(rest, i) {
                assert(escape_at(s, i + 1));
            }
        }
        lemma_unescape_escape(rest);
        let e = escape(s);
        if head == '\n' {
            assert(e.skip(2) == escape(rest));
        } else {
            assert(e.skip(1) == escape(rest));
            if head == '\\' && rest.len() > 0 {
                assert(!escape_at(s, 0));
                lemma_escape_first(rest);
            }
        }
    }
}

/// Escaped text begins with the escaped form of the first character.
pub proof fn lemma_escape_first(s: Seq<char>)
    requires
        s.len() > 0,
    ensures
        escape(s).len() > 0,
        escape(s)[0] == escape_char(s[0])[0],
    decreases s.len(),
{
    if s.len() > 1 {
        lemma_escape_first(s.drop_last());
    } else {
        assert(s == seq![s[0]]);
        lemma_escape_single(s[0]);
    }
}

/// A single character escapes to its escaped form.
pub proof fn lemma_escape_single(c: char)
    ensures
        escape(seq![c]) == escape_char(c),
{
    let s = seq![c];
    assert(s.drop_last() == Seq::<char>::empty());
    assert(escape(s.drop_last()) == Seq::<char>::empty());
    assert(escape(s) == escape(s.drop_last()) + escape_char(s.last()));
}

/// Appends the escaped form of `text` to `out`.
pub fn push_escaped(out: &mut String, text: &str)
    ensures
        final(out)@ == old(out)@ + escape(text@),
{
    for c in it: text.chars()
        invariant
            it.seq() == text@,
            out@ == old(out)@ + escape(text@.take(it.index() as int)),
    {
        proof {
            let next = text@.take(it.index() + 1);
            assert(next.drop_last() == text@.take(it.index() as int));
        }
        if c == '\n' {
            out.push('\\');
            out.push('n');
        } else {
            out.push(c);
        }
    }
    assert(text@.take(text@.len() as int) == text@);
}

/// The unescaped form of `chars[from..]`.
pub(crate) fn unescape_from(chars: &Vec<char>, from: usize) -> (out: String)
    requires
        from <= chars.len(),
    ensures
        out@ == unescape(chars@.skip(from as int)),
{
    let mut out = String::new();
    let mut i: usize = from;
    while i < chars.len()
        invariant
            from <= i <= chars.len(),
            unescape(chars@.skip(from as int)) == out@ + unescape(chars@.skip(i as int)),
        decreases chars.len() - i,
    {
        let ghost rest = chars@.skip(i as int);
        if chars[i] == '\\' && i + 1 < chars.len() && chars[i + 1] == 'n' {
            assert(escape_at(rest, 0));
            assert(rest.skip(2) == chars@.skip(i + 2));
            out.push('\n');
            i += 2;
        } else {
            assert(!escape_at(rest, 0));
            assert(rest.skip(1) == chars@.skip(i + 1));
            out.push(chars[i]);
            i += 1;
        }
    }
    out
}

} // verus!
