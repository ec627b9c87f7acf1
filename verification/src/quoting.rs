//! Double-quoted fields of the wire protocol.
//!
//! A quoted field stands between two `"`. Inside, a `"` or a `\` of the
//! value is written with a `\` in front of it.

use vstd::prelude::*;
use crate::text::{chars_of, string_of};

verus! {

/// `s` with every occurrence of the pair `first`, `second` replaced by
/// `with`. Occurrences are found from the left and do not overlap.
pub open spec fn replaced(s: Seq<char>, first: char, second: char, with: char) -> Seq<char>
    decreases s.len(),
{
    if s.len() < 2 {
        s
    } else if s[0] == first && s[1] == second {
        seq![with] + replaced(s.skip(2), first, second, with)
    } else {
        seq![s[0]] + replaced(s.skip(1), first, second, with)
    }
}

/// Whether `s` is at least two characters long and stands between two `"`.
pub open spec fn is_quoted(s: Seq<char>) -> bool {
    s.len() >= 2 && s.first() == '"' && s.last() == '"'
}

/// The value of a field: a quoted field loses its outer quotes, then every
/// `\"` becomes `"`, then every `\\` becomes `\`. Any other field stands for
/// itself.
pub open spec fn unquoted(s: Seq<char>) -> Seq<char> {
    if is_quoted(s) {
        replaced(replaced(s.subrange(1, s.len() - 1), '\\', '"', '"'), '\\', '\\', '\\')
    } else {
        s
    }
}

/// `s` with a `\` in front of every `"` and every `\`.
pub open spec fn escaped(s: Seq<char>) -> Seq<char>
    decreases s.len(),
{
    if s.len() == 0 {
        s
    } else if s[0] == '"' || s[0] == '\\' {
        seq!['\\', s[0]] + escaped(s.skip(1))
    } else {
        seq![s[0]] + escaped(s.skip(1))
    }
}

/// The quoted field that stands for the value `s`.
pub open spec fn quoted(s: Seq<char>) -> Seq<char> {
    seq!['"'] + escaped(s) + seq!['"']
}

/// `s` with every `\` doubled: what is left of `escaped(s)` once the quotes
/// have been unescaped.
spec fn backslashes_doubled(s: Seq<char>) -> Seq<char>
    decreases s.len(),
{
    if s.len() == 0 {
        s
    } else if s[0] == '\\' {
        seq!['\\', '\\'] + backslashes_doubled(s.skip(1))
    } else {
        seq![s[0]] + backslashes_doubled(s.skip(1))
    }
}

fn replace_pair(v: &Vec<char>, first: char, second: char, with: char) -> (out: Vec<char>)
    ensures
        out@ == replaced(v@, first, second, with),
{
    let mut out: Vec<char> = Vec::new();
    let mut i: usize = 0;
    assert(v@.skip(0) == v@);
    assert(out@ + replaced(v@, first, second, with) == replaced(v@, first, second, with));
    while i < v.len()
        invariant
            i <= v.len(),
            replaced(v@, first, second, with) == out@ + replaced(v@.skip(i as int), first, second, with),
        decreases v.len() - i,
    {
        let ghost rest = v@.skip(i as int);
        if i + 1 < v.len() && v[i] == first && v[i + 1] == second {
            assert(rest.skip(2) == v@.skip(i + 2));
            assert(out@ + (seq![with] + replaced(rest.skip(2), first, second, with))
                == out@.push(with) + replaced(rest.skip(2), first, second, with));
            out.push(with);
            i = i + 2;
        } else {
            assert(rest.skip(1) == v@.skip(i + 1));
            proof {
                if rest.len() < 2 {
                    assert(rest.skip(1).len() == 0);
                    assert(rest == seq![rest[0]] + replaced(rest.skip(1), first, second, with));
                }
            }
            assert(out@ + (seq![v@[i as int]] + replaced(rest.skip(1), first, second, with))
                == out@.push(v@[i as int]) + replaced(rest.skip(1), first, second, with));
            out.push(v[i]);
            i = i + 1;
        }
    }
    assert(v@.skip(v@.len() as int).len() == 0);
    out
}

/// Strips the outer quotes of a quoted field and undoes the escaping of `"`
/// and `\` inside. A field that is not quoted is returned as it is.
pub fn strip_quotes(s: &str) -> (value: String)
    ensures
        value@ == unquoted(s@),
{
    let v = chars_of(s);
    let n = v.len();
    if n >= 2 && v[0] == '"' && v[n - 1] == '"' {
        let mut inner: Vec<char> = Vec::new();
        let mut i: usize = 1;
        while i < n - 1
            invariant
                n == v.len(),
                n >= 2,
                1 <= i <= n - 1,
                inner@ == v@.subrange(1, i as int),
            decreases n - i,
        {
            inner.push(v[i]);
            i = i + 1;
        }
        let pass = replace_pair(&inner, '\\', '"', '"');
        let done = replace_pair(&pass, '\\', '\\', '\\');
        string_of(&done)
    } else {
        string_of(&v)
    }
}

/// Writes a value as a quoted field.
pub fn quote(s: &str) -> (field: String)
    ensures
        field@ == quoted(s@),
{
    let v = chars_of(s);
    let mut out: Vec<char> = Vec::new();
    out.push('"');
    let mut i: usize = 0;
    assert(v@.skip(0) == v@);
    assert(out@ == seq!['"']);
    while i < v.len()
        invariant
            i <= v.len(),
            seq!['"'] + escaped(v@) == out@ + escaped(v@.skip(i as int)),
        decreases v.len() - i,
    {
        let ghost rest = v@.skip(i as int);
        let c = v[i];
        assert(rest.skip(1) == v@.skip(i + 1));
        if c == '"' || c == '\\' {
            assert(out@ + (seq!['\\', c] + escaped(rest.skip(1)))
                == out@.push('\\').push(c) + escaped(rest.skip(1)));
            out.push('\\');
        } else {
            assert(out@ + (seq![c] + escaped(rest.skip(1)))
                == out@.push(c) + escaped(rest.skip(1)));
        }
        out.push(c);
        i = i + 1;
    }
    assert(v@.skip(v@.len() as int).len() == 0);
    assert(out@ + Seq::<char>::empty() == out@);
    out.push('"');
    string_of(&out)
}

proof fn lemma_replaced_skips(c: char, u: Seq<char>, first: char, second: char, with: char)
    requires
        c != first || (u.len() > 0 && u[0] != second),
    ensures
        replaced(seq![c] + u, first, second, with) == seq![c] + replaced(u, first, second, with),
{
    let s = seq![c] + u;
    assert(s.skip(1) == u);
    if u.len() == 0 {
        assert(s == seq![c] + u);
    }
}

proof fn lemma_escaped_head(s: Seq<char>)
    ensures
        escaped(s).len() > 0 ==> escaped(s)[0] != '"',
        s.len() > 0 ==> escaped(s).len() > 0,
    decreases s.len(),
{
}

proof fn lemma_unescape_quotes(s: Seq<char>)
    ensures
        replaced(escaped(s), '\\', '"', '"') == backslashes_doubled(s),
    decreases s.len(),
{
    if s.len() > 0 {
        let t = s.skip(1);
        lemma_unescape_quotes(t);
        lemma_escaped_head(t);
        let e = escaped(s);
        let d = backslashes_doubled(t);
        if s[0] == '"' {
            assert(e == seq!['\\', '"'] + escaped(t));
            assert(e.skip(2) == escaped(t));
            assert(replaced(e, '\\', '"', '"') == seq!['"'] + d);
        } else if s[0] == '\\' {
            assert(e == seq!['\\', '\\'] + escaped(t));
            let tail = seq!['\\'] + escaped(t);
            assert(e.skip(1) == tail);
            if t.len() > 0 {
                lemma_replaced_skips('\\', escaped(t), '\\', '"', '"');
            } else {
                assert(tail.len() == 1);
                assert(escaped(t) == Seq::<char>::empty());
                assert(replaced(tail, '\\', '"', '"') == tail);
                assert(tail == seq!['\\'] + d);
            }
            assert(replaced(tail, '\\', '"', '"') == seq!['\\'] + d);
            assert(replaced(e, '\\', '"', '"') == seq!['\\'] + (seq!['\\'] + d));
            assert(seq!['\\'] + (seq!['\\'] + d) == seq!['\\', '\\'] + d);
        } else {
            assert(e == seq![s[0]] + escaped(t));
            lemma_replaced_skips(s[0], escaped(t), '\\', '"', '"');
        }
    }
}

proof fn lemma_halve_backslashes(s: Seq<char>)
    ensures
        replaced(backslashes_doubled(s), '\\', '\\', '\\') == s,
    decreases s.len(),
{
    if s.len() > 0 {
        let t = s.skip(1);
        lemma_halve_backslashes(t);
        let d = backslashes_doubled(s);
        if s[0] == '\\' {
            assert(d.skip(2) == backslashes_doubled(t));
        } else {
            lemma_replaced_skips(s[0], backslashes_doubled(t), '\\', '\\', '\\');
        }
        assert(seq![s[0]] + t == s);
    }
}

/// Quoting and unquoting are inverse: the value of the quoted field written
/// for `s` is `s` again, whatever `s` holds.
pub proof fn unquoted_inverts_quoted(s: Seq<char>)
    ensures
        is_quoted(quoted(s)),
        unquoted(quoted(s)) == s,
{
    let q = quoted(s);
    assert(q.subrange(1, q.len() - 1) == escaped(s));
    lemma_unescape_quotes(s);
    lemma_halve_backslashes(s);
}

} // verus!
