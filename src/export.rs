//! The rows of the tabular export: one per record, with the authors joined
//! by `"; "`, and the split that reads such a column back.
use vstd::prelude::*;

use crate::record::{author_views, Book};
use crate::text::joined;

verus! {

/// The column names of the export, in order.
pub fn headers() -> (r: Vec<&'static str>)
    ensures
        r@ == seq!["site", "source", "isbn", "title", "authors"],
{
    let r = vec!["site", "source", "isbn", "title", "authors"];
    assert(r@ =~= seq!["site", "source", "isbn", "title", "authors"]);
    r
}

pub open spec fn author_separator() -> Seq<char> {
    seq![';', ' ']
}

/// The separator `"; "` starts at position `i` of `s`.
pub open spec fn separator_at(s: Seq<char>, i: int) -> bool {
    0 <= i && i + 1 < s.len() && s[i] == ';' && s[i + 1] == ' '
}

pub open spec fn has_separator(s: Seq<char>) -> bool {
    exists|i: int| separator_at(s, i)
}

/// `s` cut at each `"; "`, read from the left.
pub open spec fn split_authors_spec(s: Seq<char>) -> Seq<Seq<char>>
    decreases s.len(),
{
    if s.len() < 2 {
        seq![s]
    } else if s[0] == ';' && s[1] == ' ' {
        seq![Seq::<char>::empty()] + split_authors_spec(s.subrange(2, s.len() as int))
    } else {
        let r = split_authors_spec(s.drop_first());
        r.update(0, seq![s[0]] + r[0])
    }
}

proof fn lemma_split_len(s: Seq<char>)
    ensures
        split_authors_spec(s).len() >= 1,
    decreases s.len(),
{
    if s.len() >= 2 {
        if s[0] == ';' && s[1] == ' ' {
            lemma_split_len(s.subrange(2, s.len() as int));
        } else {
            lemma_split_len(s.drop_first());
        }
    }
}

/// Cutting `a + "; " + b` gives the pieces of `a`, then those of `b`.
proof fn lemma_split_join(a: Seq<char>, b: Seq<char>)
    ensures
        split_authors_spec(a + author_separator() + b) == split_authors_spec(a)
            + split_authors_spec(b),
    decreases a.len(),
{
    let s = a + author_separator() + b;
    if a.len() == 0 {
        assert(s.subrange(2, s.len() as int) =~= b);
        assert(a =~= Seq::<char>::empty());
        assert(split_authors_spec(a) =~= seq![Seq::<char>::empty()]);
    } else {
        lemma_split_len(a.drop_first());
        lemma_split_len(b);
        assert(s.drop_first() =~= a.drop_first() + author_separator() + b);
        lemma_split_join(a.drop_first(), b);
        let r = split_authors_spec(s.drop_first());
        let ra = split_authors_spec(a.drop_first());
        if a.len() == 1 {
            assert(a.drop_first() =~= Seq::<char>::empty());
            assert(split_authors_spec(a) =~= seq![a]);
            assert(ra =~= seq![Seq::<char>::empty()]);
            assert(seq![a[0]] + Seq::<char>::empty() =~= a);
            assert(split_authors_spec(s) =~= split_authors_spec(a) + split_authors_spec(b));
        } else if a[0] == ';' && a[1] == ' ' {
            assert(s.subrange(2, s.len() as int) =~= a.subrange(2, a.len() as int)
                + author_separator() + b);
            lemma_split_join(a.subrange(2, a.len() as int), b);
            assert(split_authors_spec(s) =~= split_authors_spec(a) + split_authors_spec(b));
        } else {
            assert(s[0] == a[0] && s[1] == a[1]);
            assert(split_authors_spec(s) =~= split_authors_spec(a) + split_authors_spec(b));
        }
    }
}

/// A text without `"; "` is not cut.
proof fn lemma_split_whole(a: Seq<char>)
    requires
        !has_separator(a),
    ensures
        split_authors_spec(a) == seq![a],
    decreases a.len(),
{
    if a.len() >= 2 {
        assert(!separator_at(a, 0));
        let t = a.drop_first();
        assert(!has_separator(t)) by {
            if has_separator(t) {
                let i = choose|i: int| separator_at(t, i);
                assert(separator_at(a, i + 1));
            }
        }
        lemma_split_whole(t);
        assert(seq![a[0]] + t =~= a);
        assert(split_authors_spec(a) =~= seq![a]);
    }
}

/// Joining a non-empty list of names that hold no `"; "` and cutting the
/// result at each `"; "` gives the list back.
pub proof fn lemma_authors_round_trip(names: Seq<Seq<char>>)
    requires
        names.len() >= 1,
        forall|i: int| 0 <= i < names.len() ==> !has_separator(#[trigger] names[i]),
    ensures
        split_authors_spec(joined(names, author_separator())) == names,
    decreases names.len(),
{
    if names.len() == 1 {
        lemma_split_whole(names[0]);
        assert(seq![names[0]] =~= names);
    } else {
        let init = names.drop_last();
        assert forall|i: int| 0 <= i < init.len() implies !has_separator(#[trigger] init[i]) by {
            assert(init[i] == names[i]);
        }
        lemma_authors_round_trip(init);
        lemma_split_join(joined(init, author_separator()), names.last());
        lemma_split_whole(names.last());
        assert(init + seq![names.last()] =~= names);
    }
}

/// Joins the author names with `"; "`.
pub fn join_authors(book: &Book) -> (r: String)
    ensures
        r@ == joined(author_views(book.authors@), author_separator()),
{
    let ghost v = author_views(book.authors@);
    let mut out = String::new();
    let mut k: usize = 0;
    proof {
        reveal_strlit("; ");
        assert(v.take(0) =~= Seq::<Seq<char>>::empty());
    }
    while k < book.authors.len()
        invariant
            v == author_views(book.authors@),
            "; "@ == author_separator(),
            k <= v.len(),
            out@ == joined(v.take(k as int), author_separator()),
        decreases book.authors.len() - k,
    {
        proof {
            assert(v.take(k as int + 1).drop_last() =~= v.take(k as int));
            assert(v.take(k as int + 1).last() == book.authors@[k as int].0@);
        }
        if k > 0 {
            out.append("; ");
        } else {
            assert(v.take(1)[0] == book.authors@[0].0@);
        }
        out.append(book.authors[k].as_str());
        k = k + 1;
    }
    proof {
        assert(v.take(v.len() as int) =~= v);
    }
    out
}

/// Cuts an authors column at each `"; "`.
pub fn split_authors(s: &str) -> (r: Vec<String>)
    ensures
        r@.map_values(|x: String| x@) == split_authors_spec(s@),
{
    let n = s.unicode_len();
    let mut out: Vec<String> = Vec::new();
    let mut start: usize = 0;
    let mut i: usize = 0;
    proof {
        lemma_split_len(s@);
        assert(s@.subrange(0, 0) + split_authors_spec(s@)[0] =~= split_authors_spec(s@)[0]);
        assert(s@.subrange(0, n as int) =~= s@);
        assert(split_authors_spec(s@) =~= seq![split_authors_spec(s@)[0]]
            + split_authors_spec(s@).drop_first());
    }
    while i < n && i + 1 < n
        invariant
            n == s@.len(),
            start <= i <= n,
            split_authors_spec(s@) == out@.map_values(|x: String| x@) + seq![
                s@.subrange(start as int, i as int) + split_authors_spec(
                    s@.subrange(i as int, n as int),
                )[0],
            ] + split_authors_spec(s@.subrange(i as int, n as int)).drop_first(),
        decreases n - i,
    {
        let ghost t = s@.subrange(i as int, n as int);
        proof {
            lemma_split_len(t.drop_first());
            lemma_split_len(t.subrange(2, t.len() as int));
        }
        if s.get_char(i) == ';' && s.get_char(i + 1) == ' ' {
            let piece = s.substring_char(start, i).to_owned();
            let ghost old_out = out@.map_values(|x: String| x@);
            out.push(piece);
            proof {
                assert(out@.map_values(|x: String| x@) =~= old_out + seq![piece@]);
                assert(t.subrange(2, t.len() as int) =~= s@.subrange(i + 2, n as int));
                let rest = split_authors_spec(s@.subrange(i + 2, n as int));
                assert(split_authors_spec(t) == seq![Seq::<char>::empty()] + rest);
                assert(s@.subrange(i + 2, i + 2) + rest[0] =~= rest[0]);
                assert(seq![rest[0]] + rest.drop_first() =~= rest);
                assert(s@.subrange(start as int, i as int) + Seq::<char>::empty()
                    =~= s@.subrange(start as int, i as int));
                assert((seq![Seq::<char>::empty()] + rest).drop_first() =~= rest);
            }
            i = i + 2;
            start = i;
            proof {
                assert(split_authors_spec(s@) =~= out@.map_values(|x: String| x@) + seq![
                    s@.subrange(start as int, i as int) + split_authors_spec(
                        s@.subrange(i as int, n as int),
                    )[0],
                ] + split_authors_spec(s@.subrange(i as int, n as int)).drop_first());
            }
        } else {
            proof {
                assert(t.drop_first() =~= s@.subrange(i + 1, n as int));
                let r = split_authors_spec(t.drop_first());
                assert(split_authors_spec(t) == r.update(0, seq![t[0]] + r[0]));
                assert(s@.subrange(start as int, i as int) + (seq![t[0]] + r[0])
                    =~= s@.subrange(start as int, i + 1) + r[0]);
                assert(r.update(0, seq![t[0]] + r[0]).drop_first() =~= r.drop_first());
            }
            i = i + 1;
        }
    }
    let piece = s.substring_char(start, n).to_owned();
    proof {
        let t = s@.subrange(i as int, n as int);
        assert(split_authors_spec(t) == seq![t]);
        assert(s@.subrange(start as int, i as int) + t =~= s@.subrange(start as int, n as int));
        assert(seq![t].drop_first() =~= Seq::<Seq<char>>::empty());
    }
    let ghost old_out = out@.map_values(|x: String| x@);
    out.push(piece);
    proof {
        assert(out@.map_values(|x: String| x@) =~= old_out + seq![piece@]);
        assert(split_authors_spec(s@) =~= out@.map_values(|x: String| x@));
    }
    out
}

/// The export row of a record: site, source URL, ISBN as written, title and
/// the authors joined by `"; "`.
pub fn csv_row(book: &Book) -> (r: Vec<String>)
    ensures
        r@.len() == 5,
        r@[0]@ == book.site.spec_name(),
        r@[1]@ == book.source@,
        r@[2]@ == book.isbn@,
        r@[3]@ == book.title.0@,
        r@[4]@ == joined(author_views(book.authors@), author_separator()),
{
    let mut row: Vec<String> = Vec::new();
    row.push(book.site.name().to_owned());
    row.push(book.source.clone());
    row.push(book.isbn.as_str().to_owned());
    row.push(book.title.as_str().to_owned());
    row.push(join_authors(book));
    row
}

} // verus!
