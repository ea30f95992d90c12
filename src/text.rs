//! Small text operations on page content: removing a character, dropping a
//! prefix, and gluing the texts of several page elements.
use vstd::prelude::*;

use crate::source::matches_at;

verus! {

/// `s` with every occurrence of `c` removed.
pub open spec fn without_char(s: Seq<char>, c: char) -> Seq<char> {
    s.filter(|x: char| x != c)
}

proof fn lemma_without_char_push(s: Seq<char>, c: char, x: char)
    ensures
        without_char(s.push(x), c) == if x == c {
            without_char(s, c)
        } else {
            without_char(s, c).push(x)
        },
{
    reveal(Seq::filter);
    assert(s.push(x).drop_last() =~= s);
}

/// Removes every occurrence of `c` from `s`.
pub fn remove_char(s: &str, c: char) -> (r: String)
    ensures
        r@ == without_char(s@, c),
{
    let n = s.unicode_len();
    let mut out = String::new();
    let mut start: usize = 0;
    let mut i: usize = 0;
    proof {
        assert(s@.take(0) =~= Seq::<char>::empty());
        reveal(Seq::filter);
        assert(out@ + s@.subrange(0, 0) =~= without_char(s@.take(0), c));
    }
    while i < n
        invariant
            n == s@.len(),
            start <= i <= n,
            out@ + s@.subrange(start as int, i as int) == without_char(s@.take(i as int), c),
        decreases n - i,
    {
        let x = s.get_char(i);
        proof {
            assert(s@.take(i as int + 1) =~= s@.take(i as int).push(x));
            lemma_without_char_push(s@.take(i as int), c, x);
        }
        if x == c {
            out.append(s.substring_char(start, i));
            start = i + 1;
            proof {
                assert(s@.subrange(start as int, i as int + 1) =~= Seq::<char>::empty());
                assert(out@ + s@.subrange(start as int, i as int + 1) =~= out@);
            }
        } else {
            proof {
                assert(out@ + s@.subrange(start as int, i as int + 1) =~= (out@ + s@.subrange(
                    start as int,
                    i as int,
                )).push(x));
            }
        }
        i = i + 1;
    }
    out.append(s.substring_char(start, n));
    proof {
        assert(s@.take(n as int) =~= s@);
    }
    out
}

/// `s` without its first character when that character is `c`.
pub open spec fn without_prefix(s: Seq<char>, c: char) -> Seq<char> {
    if s.len() > 0 && s[0] == c {
        s.drop_first()
    } else {
        s
    }
}

/// Drops the first character of `s` when it is `c`.
pub fn strip_prefix_char(s: &str, c: char) -> (r: &str)
    ensures
        r@ == without_prefix(s@, c),
{
    let n = s.unicode_len();
    if n > 0 && s.get_char(0) == c {
        let r = s.substring_char(1, n);
        proof {
            assert(r@ =~= s@.drop_first());
        }
        r
    } else {
        s
    }
}

/// The texts glued together, with `sep` between two neighbours.
pub open spec fn joined(texts: Seq<Seq<char>>, sep: Seq<char>) -> Seq<char>
    decreases texts.len(),
{
    if texts.len() == 0 {
        Seq::empty()
    } else if texts.len() == 1 {
        texts[0]
    } else {
        joined(texts.drop_last(), sep) + sep + texts.last()
    }
}

pub open spec fn string_views(v: Seq<String>) -> Seq<Seq<char>> {
    v.map_values(|s: String| s@)
}

/// Glues the texts together with `sep` between two neighbours.
pub fn join_texts(texts: &Vec<String>, sep: &str) -> (r: String)
    ensures
        r@ == joined(string_views(texts@), sep@),
{
    let ghost v = string_views(texts@);
    let mut out = String::new();
    let mut k: usize = 0;
    while k < texts.len()
        invariant
            v == string_views(texts@),
            k <= v.len(),
            out@ == joined(v.take(k as int), sep@),
        decreases texts.len() - k,
    {
        proof {
            assert(v.take(k as int + 1).drop_last() =~= v.take(k as int));
            assert(v.take(k as int + 1).last() == texts@[k as int]@);
        }
        if k > 0 {
            out.append(sep);
        } else {
            assert(v.take(1)[0] == texts@[0]@);
        }
        out.append(texts[k].as_str());
        k = k + 1;
    }
    proof {
        assert(v.take(v.len() as int) =~= v);
    }
    out
}

/// `s` with every occurrence of `pat` removed, read from the left.
pub open spec fn removed_all(s: Seq<char>, pat: Seq<char>) -> Seq<char>
    decreases s.len(),
{
    if pat.len() == 0 || s.len() == 0 {
        s
    } else if s.len() >= pat.len() && s.take(pat.len() as int) == pat {
        removed_all(s.skip(pat.len() as int), pat)
    } else {
        seq![s[0]] + removed_all(s.drop_first(), pat)
    }
}

/// Removes every occurrence of `pat` from `s`, from the left.
pub fn remove_all(s: &str, pat: &str) -> (r: String)
    ensures
        r@ == removed_all(s@, pat@),
{
    let n = s.unicode_len();
    let m = pat.unicode_len();
    if m == 0 {
        return s.to_owned();
    }
    let mut out = String::new();
    let mut start: usize = 0;
    let mut i: usize = 0;
    proof {
        assert(s@.subrange(0, 0) =~= Seq::<char>::empty());
        assert(s@.skip(0) =~= s@);
        assert(out@ + s@.subrange(0, 0) + removed_all(s@.skip(0), pat@) =~= removed_all(s@, pat@));
    }
    while i < n
        invariant
            n == s@.len(),
            m == pat@.len(),
            m > 0,
            start <= i <= n,
            out@ + s@.subrange(start as int, i as int) + removed_all(s@.skip(i as int), pat@)
                == removed_all(s@, pat@),
        decreases n - i,
    {
        let ghost t = s@.skip(i as int);
        if m <= n - i && matches_at(s, pat, i) {
            proof {
                assert(t.take(m as int) =~= s@.subrange(i as int, i + m));
                assert(t.skip(m as int) =~= s@.skip(i + m));
                assert(s@.subrange(i + m, i + m) =~= Seq::<char>::empty());
            }
            out.append(s.substring_char(start, i));
            i = i + m;
            start = i;
            proof {
                assert(out@ + s@.subrange(start as int, i as int) =~= out@);
            }
        } else {
            proof {
                if t.len() >= m {
                    assert(t.take(m as int) =~= s@.subrange(i as int, i + m));
                }
                assert(t.drop_first() =~= s@.skip(i + 1));
                assert(t[0] == s@[i as int]);
                assert(s@.subrange(start as int, i + 1) =~= s@.subrange(start as int, i as int).push(
                    s@[i as int],
                ));
                assert(out@ + s@.subrange(start as int, i + 1) + removed_all(s@.skip(i + 1), pat@)
                    =~= out@ + s@.subrange(start as int, i as int) + (seq![t[0]] + removed_all(
                    t.drop_first(),
                    pat@,
                )));
            }
            i = i + 1;
        }
    }
    out.append(s.substring_char(start, n));
    proof {
        assert(s@.skip(n as int) =~= Seq::<char>::empty());
        assert(out@ =~= removed_all(s@, pat@));
    }
    out
}

} // verus!
