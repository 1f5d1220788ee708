//! Escaping of paths inside FFmpeg filter arguments.

use vstd::prelude::*;
use crate::text::push_char;

verus! {

/// How one character is written inside a filter argument: backslash, colon
/// and single quote are preceded by a backslash.
pub open spec fn escape_char(c: char) -> Seq<char> {
    if c == '\\' || c == ':' || c == '\'' {
        seq!['\\', c]
    } else {
        seq![c]
    }
}

/// A path as written inside a filter argument.
pub open spec fn escaped(s: Seq<char>) -> Seq<char>
    decreases s.len(),
{
    if s.len() == 0 {
        Seq::empty()
    } else {
        escaped(s.drop_last()) + escape_char(s.last())
    }
}

/// Escape a path for FFmpeg filter arguments (not for a shell).
pub fn escape_filter_path(path: &str) -> (s: String)
    ensures
        s@ == escaped(path@),
{
    let n = path.unicode_len();
    let mut out = String::new();
    let mut i: usize = 0;
    while i < n
        invariant
            n == path@.len(),
            i <= n,
            out@ == escaped(path@.take(i as int)),
        decreases n - i,
    {
        let c = path.get_char(i);
        proof {
            assert(path@.take(i + 1).drop_last() =~= path@.take(i as int));
            assert(path@.take(i + 1).last() == c);
        }
        if c == '\\' || c == ':' || c == '\'' {
            push_char(&mut out, '\\');
        }
        push_char(&mut out, c);
        proof {
            assert(out@ =~= escaped(path@.take(i as int)) + escape_char(c));
        }
        i += 1;
    }
    proof {
        assert(path@.take(n as int) =~= path@);
    }
    out
}

/// Distinct paths stay distinct once escaped.
pub proof fn lemma_escape_injective(a: Seq<char>, b: Seq<char>)
    requires
        escaped(a) == escaped(b),
    ensures
        a == b,
    decreases a.len() + b.len(),
{
    if a.len() == 0 || b.len() == 0 {
        if a.len() > 0 {
            assert(escaped(a).len() >= escape_char(a.last()).len());
        }
        if b.len() > 0 {
            assert(escaped(b).len() >= escape_char(b.last()).len());
        }
        assert(a =~= b);
    } else {
        let ea = escaped(a.drop_last());
        let eb = escaped(b.drop_last());
        let ca = escape_char(a.last());
        let cb = escape_char(b.last());
        assert((ea + ca).last() == a.last());
        assert((eb + cb).last() == b.last());
        assert(a.last() == b.last());
        assert(ca == cb);
        assert(ea =~= escaped(a).subrange(0, ea.len() as int));
        assert(eb =~= escaped(b).subrange(0, eb.len() as int));
        assert(ea == eb);
        lemma_escape_injective(a.drop_last(), b.drop_last());
        assert(a =~= a.drop_last().push(a.last()));
        assert(b =~= b.drop_last().push(b.last()));
    }
}

/// A path without backslash, colon or single quote is written as it is.
pub proof fn lemma_escape_plain(s: Seq<char>)
    requires
        forall|i: int| 0 <= i < s.len() ==> #[trigger] s[i] != '\\' && s[i] != ':' && s[i] != '\'',
    ensures
        escaped(s) == s,
    decreases s.len(),
{
    if s.len() > 0 {
        lemma_escape_plain(s.drop_last());
        assert(s.drop_last().push(s.last()) =~= s);
    }
}

/// Escaping goes piece by piece: the escape of `a + b` is the escape of `a`
/// followed by the escape of `b`.
pub proof fn lemma_escape_concat(a: Seq<char>, b: Seq<char>)
    ensures
        escaped(a + b) == escaped(a) + escaped(b),
    decreases b.len(),
{
    if b.len() == 0 {
        assert(a + b =~= a);
        assert(escaped(a) + escaped(b) =~= escaped(a));
    } else {
        lemma_escape_concat(a, b.drop_last());
        assert((a + b).drop_last() =~= a + b.drop_last());
        assert((a + b).last() == b.last());
        assert(escaped(a + b) =~= escaped(a) + escaped(b));
    }
}

/// A backslash, colon or single quote is written with a backslash before it.
pub proof fn lemma_escape_special(c: char)
    requires
        c == '\\' || c == ':' || c == '\'',
    ensures
        escaped(seq![c]) == seq!['\\', c],
{
    let one = seq![c];
    assert(one.drop_last() =~= Seq::<char>::empty());
    assert(one.last() == c);
    assert(escaped(one.drop_last()) == Seq::<char>::empty());
    assert(escaped(one) == escaped(one.drop_last()) + escape_char(one.last()));
    assert(escaped(one) =~= seq!['\\', c]);
}

} // verus!
