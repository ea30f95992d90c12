//! Validated values read from a book page: ISBN, author, title,
//! description and price.
use vstd::prelude::*;

verus! {

/// A separator that ISBN validation removes before counting digits.
pub open spec fn is_separator(c: char) -> bool {
    c == '-' || c == ' '
}

pub open spec fn is_digit(c: char) -> bool {
    '0' <= c && c <= '9'
}

pub open spec fn all_digits(s: Seq<char>) -> bool {
    forall|i: int| 0 <= i < s.len() ==> is_digit(#[trigger] s[i])
}

/// The text with every `-` and space removed.
pub open spec fn stripped(s: Seq<char>) -> Seq<char> {
    s.filter(|c: char| !is_separator(c))
}

/// Text is an ISBN when, separators removed, 10 or 13 digits remain.
pub open spec fn valid_isbn_text(s: Seq<char>) -> bool {
    all_digits(stripped(s)) && (stripped(s).len() == 10 || stripped(s).len() == 13)
}

#[derive(Debug, Clone, Copy, PartialEq, Eq)]
pub enum IsbnError {
    /// The raw text held no candidate once split and trimmed.
    NoCandidate,
    /// The chosen candidate is not 10 or 13 digits with separators.
    Invalid,
}

/// An ISBN whose text, separators removed, is 10 or 13 digits; the text is
/// kept as it was given.
#[derive(Debug, Clone, PartialEq, Eq)]
pub struct Isbn(String);

impl View for Isbn {
    type V = Seq<char>;

    closed spec fn view(&self) -> Seq<char> {
        self.0@
    }
}

proof fn lemma_stripped_push(s: Seq<char>, c: char)
    ensures
        stripped(s.push(c)) == if is_separator(c) {
            stripped(s)
        } else {
            stripped(s).push(c)
        },
{
    reveal(Seq::filter);
    assert(s.push(c).drop_last() =~= s);
}

pub open spec fn digits_of(s: Seq<char>) -> Seq<char> {
    s.filter(|c: char| is_digit(c))
}

proof fn lemma_digits_push(s: Seq<char>, c: char)
    ensures
        digits_of(s.push(c)) == if is_digit(c) {
            digits_of(s).push(c)
        } else {
            digits_of(s)
        },
{
    reveal(Seq::filter);
    assert(s.push(c).drop_last() =~= s);
}

pub open spec fn has_thirteen_digits(s: Seq<char>) -> bool {
    digits_of(s).len() == 13
}

/// A character of the Unicode White_Space property, the set that
/// `char::is_whitespace` accepts.
pub open spec fn is_white_space(c: char) -> bool {
    ('\u{9}' <= c && c <= '\u{d}') || c == ' ' || c == '\u{85}' || c == '\u{a0}' || c
        == '\u{1680}' || ('\u{2000}' <= c && c <= '\u{200a}') || c == '\u{2028}' || c
        == '\u{2029}' || c == '\u{202f}' || c == '\u{205f}' || c == '\u{3000}'
}

fn is_white_space_char(c: char) -> (r: bool)
    ensures
        r == is_white_space(c),
{
    ('\u{9}' <= c && c <= '\u{d}') || c == ' ' || c == '\u{85}' || c == '\u{a0}' || c
        == '\u{1680}' || ('\u{2000}' <= c && c <= '\u{200a}') || c == '\u{2028}' || c
        == '\u{2029}' || c == '\u{202f}' || c == '\u{205f}' || c == '\u{3000}'
}

/// `s` without its leading white space.
pub open spec fn trimmed_start(s: Seq<char>) -> Seq<char>
    decreases s.len(),
{
    if s.len() > 0 && is_white_space(s[0]) {
        trimmed_start(s.drop_first())
    } else {
        s
    }
}

/// `s` without its trailing white space.
pub open spec fn trimmed_end(s: Seq<char>) -> Seq<char>
    decreases s.len(),
{
    if s.len() > 0 && is_white_space(s.last()) {
        trimmed_end(s.drop_last())
    } else {
        s
    }
}

/// `s` without its leading and trailing white space.
pub open spec fn trimmed(s: Seq<char>) -> Seq<char> {
    trimmed_end(trimmed_start(s))
}

/// Removes the leading and trailing white space of `s`, as `str::trim` does.
pub fn trim_text(s: &str) -> (r: &str)
    ensures
        r@ == trimmed(s@),
{
    let n = s.unicode_len();
    let mut i: usize = 0;
    proof {
        assert(s@.skip(0) =~= s@);
    }
    while i < n && is_white_space_char(s.get_char(i))
        invariant
            n == s@.len(),
            i <= n,
            trimmed_start(s@) == trimmed_start(s@.skip(i as int)),
        decreases n - i,
    {
        proof {
            assert(s@.skip(i as int).drop_first() =~= s@.skip(i + 1));
        }
        i = i + 1;
    }
    proof {
        assert(s@.skip(i as int) =~= s@.subrange(i as int, n as int));
    }
    let mut j: usize = n;
    while j > i && is_white_space_char(s.get_char(j - 1))
        invariant
            n == s@.len(),
            i <= j <= n,
            trimmed_end(s@.subrange(i as int, n as int)) == trimmed_end(
                s@.subrange(i as int, j as int),
            ),
        decreases j,
    {
        proof {
            assert(s@.subrange(i as int, j as int).drop_last() =~= s@.subrange(i as int, j - 1));
        }
        j = j - 1;
    }
    s.substring_char(i, j)
}

pub open spec fn is_delimiter(c: char) -> bool {
    c == ',' || c == ';'
}

/// The pieces of `s` between delimiters, in order; there is always at least
/// one piece.
pub open spec fn pieces(s: Seq<char>) -> Seq<Seq<char>>
    decreases s.len(),
{
    if s.len() == 0 {
        seq![Seq::empty()]
    } else {
        let p = pieces(s.drop_last());
        if is_delimiter(s.last()) {
            p.push(Seq::empty())
        } else {
            p.update(p.len() - 1, p.last().push(s.last()))
        }
    }
}

/// The trimmed pieces that are not empty, in order.
pub open spec fn kept_tokens(p: Seq<Seq<char>>) -> Seq<Seq<char>>
    decreases p.len(),
{
    if p.len() == 0 {
        Seq::empty()
    } else {
        let rest = kept_tokens(p.drop_last());
        if trimmed(p.last()).len() == 0 {
            rest
        } else {
            rest.push(trimmed(p.last()))
        }
    }
}

/// The ISBN candidates of a raw text: split on `,` and `;`, each piece
/// trimmed, empty ones dropped.
pub open spec fn isbn_candidates(raw: Seq<char>) -> Seq<Seq<char>> {
    kept_tokens(pieces(raw))
}

/// The first candidate with exactly 13 digits, if any.
pub open spec fn first_thirteen(c: Seq<Seq<char>>) -> Option<Seq<char>>
    decreases c.len(),
{
    if c.len() == 0 {
        None
    } else if has_thirteen_digits(c[0]) {
        Some(c[0])
    } else {
        first_thirteen(c.drop_first())
    }
}

/// The candidate preferred among `c`: the first with 13 digits, else the
/// last one.
pub open spec fn preferred(c: Seq<Seq<char>>) -> Option<Seq<char>> {
    if c.len() == 0 {
        None
    } else {
        match first_thirteen(c) {
            Some(t) => Some(t),
            None => Some(c.last()),
        }
    }
}

/// The candidate that extraction picks from a raw text.
pub open spec fn chosen_candidate(raw: Seq<char>) -> Option<Seq<char>> {
    preferred(isbn_candidates(raw))
}

proof fn lemma_first_thirteen_unique(c: Seq<Seq<char>>, k: int)
    requires
        0 <= k < c.len(),
        has_thirteen_digits(c[k]),
        forall|j: int| 0 <= j < c.len() && j != k ==> !has_thirteen_digits(#[trigger] c[j]),
    ensures
        first_thirteen(c) == Some(c[k]),
    decreases c.len(),
{
    if k > 0 {
        let rest = c.drop_first();
        assert forall|j: int| 0 <= j < rest.len() && j != k - 1 implies !has_thirteen_digits(
            #[trigger] rest[j],
        ) by {
            assert(rest[j] == c[j + 1]);
        }
        lemma_first_thirteen_unique(rest, k - 1);
    }
}

/// Where exactly one candidate has 13 digits, it is the one preferred,
/// wherever it stands among the others.
pub proof fn lemma_thirteen_preferred_in_any_order(c: Seq<Seq<char>>, k: int)
    requires
        0 <= k < c.len(),
        has_thirteen_digits(c[k]),
        forall|j: int| 0 <= j < c.len() && j != k ==> !has_thirteen_digits(#[trigger] c[j]),
    ensures
        preferred(c) == Some(c[k]),
{
    lemma_first_thirteen_unique(c, k);
}

pub open spec fn str_views(v: Seq<&str>) -> Seq<Seq<char>> {
    v.map_values(|t: &str| t@)
}

/// Splits `raw` into its ISBN candidates.
fn split_candidates(raw: &str) -> (r: Vec<&str>)
    ensures
        str_views(r@) == isbn_candidates(raw@),
{
    let n = raw.unicode_len();
    let mut out: Vec<&str> = Vec::new();
    let mut start: usize = 0;
    let mut i: usize = 0;
    let ghost mut done: Seq<Seq<char>> = Seq::empty();
    proof {
        assert(raw@.take(0) =~= Seq::<char>::empty());
        assert(raw@.subrange(0, 0) =~= Seq::<char>::empty());
        assert(pieces(raw@.take(0)) =~= done.push(raw@.subrange(0, 0)));
    }
    while i < n
        invariant
            n == raw@.len(),
            start <= i <= n,
            pieces(raw@.take(i as int)) == done.push(raw@.subrange(start as int, i as int)),
            str_views(out@) == kept_tokens(done),
        decreases n - i,
    {
        let c = raw.get_char(i);
        proof {
            assert(raw@.take(i as int + 1).drop_last() =~= raw@.take(i as int));
            assert(raw@.take(i as int + 1).last() == c);
        }
        if c == ',' || c == ';' {
            let piece = raw.substring_char(start, i);
            let t = trim_text(piece);
            if t.unicode_len() > 0 {
                out.push(t);
            }
            proof {
                let old_done = done;
                done = done.push(piece@);
                assert(done.drop_last() =~= old_done);
                assert(str_views(out@) =~= kept_tokens(done));
                assert(raw@.subrange(i as int + 1, i as int + 1) =~= Seq::<char>::empty());
            }
            start = i + 1;
        } else {
            proof {
                assert(raw@.subrange(start as int, i as int + 1) =~= raw@.subrange(
                    start as int,
                    i as int,
                ).push(c));
            }
        }
        i = i + 1;
    }
    let piece = raw.substring_char(start, n);
    let t = trim_text(piece);
    if t.unicode_len() > 0 {
        out.push(t);
    }
    proof {
        assert(raw@.take(n as int) =~= raw@);
        let all = done.push(piece@);
        assert(all.drop_last() =~= done);
        assert(str_views(out@) =~= kept_tokens(all));
    }
    out
}

/// Counts the characters that remain after separators are removed, and tells
/// whether all of them are digits.
fn scan_isbn_text(s: &str) -> (r: (usize, bool))
    ensures
        r.0 == stripped(s@).len(),
        r.1 == all_digits(stripped(s@)),
{
    let n = s.unicode_len();
    let mut count: usize = 0;
    let mut digits = true;
    let mut i: usize = 0;
    while i < n
        invariant
            n == s@.len(),
            i <= n,
            count == stripped(s@.take(i as int)).len(),
            count <= i,
            digits == all_digits(stripped(s@.take(i as int))),
        decreases n - i,
    {
        let c = s.get_char(i);
        proof {
            assert(s@.take(i as int + 1) =~= s@.take(i as int).push(c));
            lemma_stripped_push(s@.take(i as int), c);
        }
        if !(c == '-' || c == ' ') {
            if !('0' <= c && c <= '9') {
                digits = false;
            }
            count = count + 1;
        }
        i = i + 1;
        proof {
            let prev = stripped(s@.take(i - 1));
            let cur = stripped(s@.take(i as int));
            if !is_separator(c) {
                if all_digits(prev) && is_digit(c) {
                    assert forall|k: int| 0 <= k < cur.len() implies is_digit(#[trigger] cur[k]) by {
                        if k < prev.len() {
                            assert(cur[k] == prev[k]);
                        }
                    }
                }
                if !all_digits(prev) {
                    let k = choose|k: int| 0 <= k < prev.len() && !is_digit(#[trigger] prev[k]);
                    assert(cur[k] == prev[k]);
                }
                if !is_digit(c) {
                    assert(cur[prev.len() as int] == c);
                }
            }
        }
    }
    proof {
        assert(s@.take(n as int) =~= s@);
    }
    (count, digits)
}

impl Isbn {
    /// Accepts `s` exactly when it is a valid ISBN text, keeping it unchanged.
    pub fn new(s: String) -> (r: Result<Isbn, IsbnError>)
        ensures
            r is Ok <==> valid_isbn_text(s@),
            r matches Ok(isbn) ==> isbn@ == s@,
            r matches Err(e) ==> e == IsbnError::Invalid,
    {
        let (count, digits) = scan_isbn_text(s.as_str());
        if digits && (count == 10 || count == 13) {
            Ok(Isbn(s))
        } else {
            Err(IsbnError::Invalid)
        }
    }

    /// Tells whether `isbn` holds exactly 13 ASCII digits, whatever else it
    /// holds.
    pub fn is_digit_13(isbn: &str) -> (r: bool)
        ensures
            r == has_thirteen_digits(isbn@),
    {
        let n = isbn.unicode_len();
        let mut count: usize = 0;
        let mut i: usize = 0;
        while i < n
            invariant
                n == isbn@.len(),
                i <= n,
                count == digits_of(isbn@.take(i as int)).len(),
                count <= i,
            decreases n - i,
        {
            let c = isbn.get_char(i);
            proof {
                assert(isbn@.take(i as int + 1) =~= isbn@.take(i as int).push(c));
                lemma_digits_push(isbn@.take(i as int), c);
            }
            if '0' <= c && c <= '9' {
                count = count + 1;
            }
            i = i + 1;
        }
        proof {
            assert(isbn@.take(n as int) =~= isbn@);
        }
        count == 13
    }

    /// Picks the ISBN candidate of a raw text: the first token with 13
    /// digits, else the last token.
    pub fn parse(raw: String) -> (r: Result<String, IsbnError>)
        ensures
            match chosen_candidate(raw@) {
                Some(t) => r matches Ok(s) && s@ == t,
                None => r == Err::<String, IsbnError>(IsbnError::NoCandidate),
            },
    {
        let tokens = split_candidates(raw.as_str());
        let ghost c = str_views(tokens@);
        if tokens.len() == 0 {
            return Err(IsbnError::NoCandidate);
        }
        let mut i: usize = 0;
        proof {
            assert(c.subrange(0, c.len() as int) =~= c);
        }
        while i < tokens.len()
            invariant
                c == str_views(tokens@),
                c == isbn_candidates(raw@),
                c.len() > 0,
                i <= c.len(),
                first_thirteen(c) == first_thirteen(c.subrange(i as int, c.len() as int)),
            decreases c.len() - i,
        {
            let t = tokens[i];
            proof {
                let rest = c.subrange(i as int, c.len() as int);
                assert(rest[0] == t@);
                assert(rest.drop_first() =~= c.subrange(i as int + 1, c.len() as int));
            }
            if Isbn::is_digit_13(t) {
                proof {
                    let rest = c.subrange(i as int, c.len() as int);
                    assert(first_thirteen(rest) == Some(t@));
                }
                return Ok(t.to_owned());
            }
            i = i + 1;
        }
        proof {
            assert(c.subrange(c.len() as int, c.len() as int) =~= Seq::<Seq<char>>::empty());
        }
        let last = tokens[tokens.len() - 1];
        Ok(last.to_owned())
    }

    /// Extracts and validates an ISBN from raw text.
    pub fn extract(raw: String) -> (r: Result<Isbn, IsbnError>)
        ensures
            match chosen_candidate(raw@) {
                None => r == Err::<Isbn, IsbnError>(IsbnError::NoCandidate),
                Some(t) => if valid_isbn_text(t) {
                    r matches Ok(isbn) && isbn@ == t
                } else {
                    r == Err::<Isbn, IsbnError>(IsbnError::Invalid)
                },
            },
    {
        let candidate = Isbn::parse(raw)?;
        Isbn::new(candidate)
    }

    pub fn as_str(&self) -> (r: &str)
        ensures
            r@ == self@,
    {
        self.0.as_str()
    }
}

/// A trimmed author name.
#[derive(Debug, Clone, PartialEq, Eq)]
pub struct Author(pub String);

impl Author {
    pub fn new(s: String) -> (r: Author)
        ensures
            r.0@ == trimmed(s@),
    {
        Author(trim_text(s.as_str()).to_owned())
    }

    pub fn as_str(&self) -> (r: &str)
        ensures
            r@ == self.0@,
    {
        self.0.as_str()
    }
}

/// A trimmed book title.
#[derive(Debug, Clone, PartialEq, Eq)]
pub struct Title(pub String);

impl Title {
    pub fn new(s: String) -> (r: Title)
        ensures
            r.0@ == trimmed(s@),
    {
        Title(trim_text(s.as_str()).to_owned())
    }

    pub fn as_str(&self) -> (r: &str)
        ensures
            r@ == self.0@,
    {
        self.0.as_str()
    }
}

/// A book description, trimmed.
#[derive(Debug, Clone, PartialEq, Eq)]
pub struct Description(String);

impl View for Description {
    type V = Seq<char>;

    closed spec fn view(&self) -> Seq<char> {
        self.0@
    }
}

impl Description {
    pub fn new(s: String) -> (r: Description)
        ensures
            r@ == trimmed(s@),
    {
        Description(trim_text(s.as_str()).to_owned())
    }

    pub fn as_str(&self) -> (r: &str)
        ensures
            r@ == self@,
    {
        self.0.as_str()
    }
}

/// A glyph that price parsing removes: a thousands separator, a no-break
/// space or the rouble sign.
pub open spec fn is_price_glyph(c: char) -> bool {
    c == ',' || c == '\u{a0}' || c == '\u{20bd}'
}

/// A price text with its glyphs removed.
pub open spec fn price_digits(s: Seq<char>) -> Seq<char> {
    s.filter(|c: char| !is_price_glyph(c))
}

pub open spec fn digit_value(c: char) -> nat {
    (c as u32 - '0' as u32) as nat
}

/// The number that a string of decimal digits writes.
pub open spec fn decimal_value(d: Seq<char>) -> nat
    decreases d.len(),
{
    if d.len() == 0 {
        0
    } else {
        decimal_value(d.drop_last()) * 10 + digit_value(d.last())
    }
}

/// The unsigned number that `d` writes, if it is one or more digits and fits
/// in 128 bits.
/// `d` without the one `+` sign that may lead it.
pub open spec fn unsigned_part(d: Seq<char>) -> Seq<char> {
    if d.len() > 0 && d[0] == '+' {
        d.drop_first()
    } else {
        d
    }
}

proof fn lemma_unsigned_part_push(d: Seq<char>, c: char)
    ensures
        unsigned_part(d.push(c)) == if d.len() == 0 && c == '+' {
            Seq::<char>::empty()
        } else {
            unsigned_part(d).push(c)
        },
{
    if d.len() > 0 && d[0] == '+' {
        assert(d.push(c).drop_first() =~= d.drop_first().push(c));
    } else if d.len() == 0 && c == '+' {
        assert(d.push(c).drop_first() =~= Seq::<char>::empty());
    }
}

/// The unsigned number that `d` writes, if it is one or more digits, led by
/// at most one `+`, and fits in 128 bits.
pub open spec fn decimal(d: Seq<char>) -> Option<u128> {
    let e = unsigned_part(d);
    if e.len() > 0 && all_digits(e) && decimal_value(e) <= u128::MAX {
        Some(decimal_value(e) as u128)
    } else {
        None
    }
}

proof fn lemma_price_digits_push(s: Seq<char>, c: char)
    ensures
        price_digits(s.push(c)) == if is_price_glyph(c) {
            price_digits(s)
        } else {
            price_digits(s).push(c)
        },
{
    reveal(Seq::filter);
    assert(s.push(c).drop_last() =~= s);
}

/// The text that is read as a number: `s` with its price glyphs removed
/// when `skip_glyphs` holds, else `s` itself.
pub open spec fn decimal_text(s: Seq<char>, skip_glyphs: bool) -> Seq<char> {
    if skip_glyphs {
        price_digits(s)
    } else {
        s
    }
}

/// Reads `raw` as an unsigned number, after removing the price glyphs when
/// `skip_glyphs` holds.
pub fn read_decimal(raw: &str, skip_glyphs: bool) -> (r: Option<u128>)
    ensures
        r == decimal(decimal_text(raw@, skip_glyphs)),
{
    let n = raw.unicode_len();
    let mut acc: u128 = 0;
    let mut count: usize = 0;
    let mut len: usize = 0;
    let mut digits = true;
    let mut overflow = false;
    let mut i: usize = 0;
    while i < n
        invariant
            n == raw@.len(),
            i <= n,
            count == decimal_text(raw@.take(i as int), skip_glyphs).len(),
            count <= i,
            len == unsigned_part(decimal_text(raw@.take(i as int), skip_glyphs)).len(),
            len <= count,
            digits == all_digits(unsigned_part(decimal_text(raw@.take(i as int), skip_glyphs))),
            digits && !overflow ==> acc == decimal_value(
                unsigned_part(decimal_text(raw@.take(i as int), skip_glyphs)),
            ),
            digits && overflow ==> decimal_value(
                unsigned_part(decimal_text(raw@.take(i as int), skip_glyphs)),
            ) > u128::MAX,
        decreases n - i,
    {
        let c = raw.get_char(i);
        let ghost text = decimal_text(raw@.take(i as int), skip_glyphs);
        let ghost prev = unsigned_part(text);
        proof {
            assert(raw@.take(i as int + 1) =~= raw@.take(i as int).push(c));
            lemma_price_digits_push(raw@.take(i as int), c);
            lemma_unsigned_part_push(text, c);
        }
        if !(skip_glyphs && (c == ',' || c == '\u{a0}' || c == '\u{20bd}')) {
            if count == 0 && c == '+' {
                count = count + 1;
            } else {
                let ghost cur = prev.push(c);
                assert(cur.drop_last() =~= prev);
                if '0' <= c && c <= '9' {
                    if digits && !overflow {
                        let d = (c as u32 - '0' as u32) as u128;
                        match acc.checked_mul(10) {
                            Some(m) => match m.checked_add(d) {
                                Some(v) => {
                                    acc = v;
                                },
                                None => {
                                    overflow = true;
                                },
                            },
                            None => {
                                overflow = true;
                                assert(decimal_value(cur) > u128::MAX) by (nonlinear_arith)
                                    requires
                                        decimal_value(cur) == acc * 10 + digit_value(c),
                                        acc * 10 > u128::MAX,
                                ;
                            },
                        }
                    } else if digits {
                        assert(decimal_value(cur) > u128::MAX) by (nonlinear_arith)
                            requires
                                decimal_value(cur) == decimal_value(prev) * 10 + digit_value(c),
                                decimal_value(prev) > u128::MAX,
                        ;
                    }
                    proof {
                        if digits {
                            assert forall|k: int| 0 <= k < cur.len() implies is_digit(
                                #[trigger] cur[k],
                            ) by {
                                if k < prev.len() {
                                    assert(cur[k] == prev[k]);
                                }
                            }
                        } else {
                            let k = choose|k: int|
                                0 <= k < prev.len() && !is_digit(#[trigger] prev[k]);
                            assert(cur[k] == prev[k]);
                        }
                    }
                } else {
                    digits = false;
                    assert(cur[prev.len() as int] == c);
                }
                count = count + 1;
                len = len + 1;
            }
        }
        i = i + 1;
    }
    proof {
        assert(raw@.take(n as int) =~= raw@);
    }
    if len > 0 && digits && !overflow {
        Some(acc)
    } else {
        None
    }
}

#[derive(Debug, Clone, Copy, PartialEq, Eq)]
pub enum PriceError {
    /// What remains once the glyphs are removed is not an unsigned number.
    InvalidPrice,
}

/// A price in minor currency units.
#[derive(Debug, Clone, Copy, PartialEq, Eq)]
pub struct Price(pub u128);

impl Price {
    /// Removes the price glyphs from `raw` and reads the rest as an unsigned
    /// number.
    pub fn parse(raw: &str) -> (r: Result<Price, PriceError>)
        ensures
            match decimal(price_digits(raw@)) {
                Some(v) => r == Ok::<Price, PriceError>(Price(v)),
                None => r == Err::<Price, PriceError>(PriceError::InvalidPrice),
            },
    {
        match read_decimal(raw, true) {
            Some(v) => Ok(Price(v)),
            None => Err(PriceError::InvalidPrice),
        }
    }

    /// Reads a string of decimal digits as a price.
    pub fn new(s: String) -> (r: Price)
        requires
            decimal(s@) is Some,
        ensures
            Some(r.0) == decimal(s@),
    {
        match read_decimal(s.as_str(), false) {
            Some(v) => Price(v),
            None => Price(0),
        }
    }

    pub fn amount(&self) -> (r: u128)
        ensures
            r == self.0,
    {
        self.0
    }
}

impl From<u128> for Price {
    fn from(value: u128) -> (r: Price)
        ensures
            r.0 == value,
    {
        Price(value)
    }
}

impl vstd::std_specs::convert::FromSpecImpl<u128> for Price {
    open spec fn obeys_from_spec() -> bool {
        true
    }

    open spec fn from_spec(v: u128) -> Price {
        Price(v)
    }
}

impl From<Price> for u128 {
    fn from(value: Price) -> (r: u128)
        ensures
            r == value.0,
    {
        value.0
    }
}

impl vstd::std_specs::convert::FromSpecImpl<Price> for u128 {
    open spec fn obeys_from_spec() -> bool {
        true
    }

    open spec fn from_spec(v: Price) -> u128 {
        v.0
    }
}

} // verus!
