//! Character-level string helpers and their specifications.
use vstd::prelude::*;
use vstd::string::*;

verus! {

// ---------------------------------------------------------------------------
// std wrappers
// ---------------------------------------------------------------------------

/// Appends one character to a string (`String::push`).
#[verifier::external_body]
pub(crate) fn push_char(s: &mut String, c: char)
    ensures
        final(s)@ == old(s)@.push(c),
{
    s.push(c);
}

/// Removes the last character of a string and hands it back (`String::pop`);
/// an empty string stays empty and gives `None`.
#[verifier::external_body]
pub(crate) fn pop_char(s: &mut String) -> (res: Option<char>)
    ensures
        old(s)@.len() == 0 ==> res is None && final(s)@ == old(s)@,
        old(s)@.len() > 0 ==> res == Some(old(s)@.last()) && final(s)@ == old(s)@.drop_last(),
{
    s.pop()
}

/// What `str::to_lowercase` returns for a string: Unicode lower-case mapping,
/// which may change the number of characters.
pub uninterp spec fn lowercase_of(s: Seq<char>) -> Seq<char>;

/// The ASCII lower case of a character: `A`..`Z` become `a`..`z`, every
/// other character stays.
pub open spec fn ascii_lower(c: char) -> char {
    if 'A' <= c && c <= 'Z' {
        ((c as u32) + 32) as char
    } else {
        c
    }
}

/// Calls `str::to_lowercase`. The result is a function of the input alone
/// (Unicode's fixed case tables). Claimed besides: the empty string stays
/// empty, and an ASCII string maps each character to its ASCII lower case
/// (Unicode's lower-case mapping agrees with ASCII there), keeping its
/// length.
#[verifier::external_body]
pub(crate) fn to_lowercase(s: &str) -> (res: String)
    ensures
        res@ == lowercase_of(s@),
        s@.len() == 0 ==> res@.len() == 0,
        (forall|i: int| 0 <= i < s@.len() ==> (s@[i] as u32) < 128) ==> res@.len() == s@.len() && forall|i: int|
            0 <= i < s@.len() ==> res@[i] == ascii_lower(#[trigger] s@[i]),
{
    s.to_lowercase()
}

// ---------------------------------------------------------------------------
// specifications
// ---------------------------------------------------------------------------

/// Number of bytes that UTF-8 uses for one character.
pub open spec fn char_width(c: char) -> nat {
    let v = c as u32;
    if v <= 0x7F {
        1
    } else if v <= 0x7FF {
        2
    } else if v <= 0xFFFF {
        3
    } else {
        4
    }
}

/// Length in bytes of the UTF-8 encoding of a string (`str::len`).
pub open spec fn utf8_len(s: Seq<char>) -> nat
    decreases s.len(),
{
    if s.len() == 0 {
        0
    } else {
        utf8_len(s.drop_last()) + char_width(s.last())
    }
}

proof fn lemma_encode_scalar_len(c: char)
    ensures
        vstd::utf8::encode_scalar(c as u32).len() == char_width(c),
{
    broadcast use vstd::utf8::char_is_scalar;

}

proof fn lemma_utf8_len_concat(a: Seq<char>, b: Seq<char>)
    ensures
        utf8_len(a + b) == utf8_len(a) + utf8_len(b),
    decreases b.len(),
{
    if b.len() == 0 {
        assert(a + b =~= a);
    } else {
        assert((a + b).drop_last() =~= a + b.drop_last());
        lemma_utf8_len_concat(a, b.drop_last());
    }
}

proof fn lemma_encode_len(s: Seq<char>)
    ensures
        vstd::utf8::encode_utf8(s).len() == utf8_len(s),
    decreases s.len(),
{
    if s.len() > 0 {
        lemma_encode_len(s.drop_first());
        lemma_encode_scalar_len(s[0]);
        assert(s =~= seq![s[0]] + s.drop_first());
        lemma_utf8_len_concat(seq![s[0]], s.drop_first());
        assert(seq![s[0]].drop_last() =~= Seq::<char>::empty());
        assert(seq![s[0]].last() == s[0]);
        assert(utf8_len(Seq::<char>::empty()) == 0);
        assert(utf8_len(seq![s[0]]) == char_width(s[0]));
        assert(vstd::utf8::encode_utf8(s) == vstd::utf8::encode_scalar(s[0] as u32)
            + vstd::utf8::encode_utf8(s.drop_first()));
    }
}

/// Length of a string in bytes (`str::len`).
pub fn byte_len(s: &str) -> (n: usize)
    ensures
        n == utf8_len(s@),
{
    proof {
        lemma_encode_len(s@);
    }
    s.as_bytes().len()
}

/// `char::is_whitespace`: the Unicode `White_Space` property.
pub open spec fn is_ws(c: char) -> bool {
    let v = c as u32;
    ||| (0x09 <= v && v <= 0x0d)
    ||| v == 0x20
    ||| v == 0x85
    ||| v == 0xa0
    ||| v == 0x1680
    ||| (0x2000 <= v && v <= 0x200a)
    ||| v == 0x2028
    ||| v == 0x2029
    ||| v == 0x202f
    ||| v == 0x205f
    ||| v == 0x3000
}

/// The string with leading white space removed.
pub open spec fn trim_start(s: Seq<char>) -> Seq<char>
    decreases s.len(),
{
    if s.len() > 0 && is_ws(s[0]) {
        trim_start(s.drop_first())
    } else {
        s
    }
}

/// The string with trailing white space removed.
pub open spec fn trim_end(s: Seq<char>) -> Seq<char>
    decreases s.len(),
{
    if s.len() > 0 && is_ws(s.last()) {
        trim_end(s.drop_last())
    } else {
        s
    }
}

/// `str::trim`.
pub open spec fn trim(s: Seq<char>) -> Seq<char> {
    trim_end(trim_start(s))
}

/// `str::split` on one separator character: the pieces between separators,
/// always at least one.
pub open spec fn split_on(s: Seq<char>, sep: char) -> Seq<Seq<char>>
    decreases s.len(),
{
    if s.len() == 0 {
        seq![Seq::<char>::empty()]
    } else {
        let rest = split_on(s.drop_last(), sep);
        if s.last() == sep {
            rest.push(Seq::<char>::empty())
        } else {
            rest.update(rest.len() - 1, rest.last().push(s.last()))
        }
    }
}

/// Pieces joined with a separator in between (`[T]::join`).
/// Splitting gives at least one segment.
pub proof fn lemma_split_nonempty(s: Seq<char>, sep: char)
    ensures
        split_on(s, sep).len() > 0,
    decreases s.len(),
{
    if s.len() > 0 {
        lemma_split_nonempty(s.drop_last(), sep);
    }
}

/// No segment of a split holds the separator.
pub proof fn lemma_split_parts_free(s: Seq<char>, sep: char)
    ensures
        forall|i: int| 0 <= i < split_on(s, sep).len() ==> !#[trigger] split_on(s, sep)[i].contains(sep),
    decreases s.len(),
{
    lemma_split_nonempty(s, sep);
    if s.len() > 0 {
        lemma_split_parts_free(s.drop_last(), sep);
        lemma_split_nonempty(s.drop_last(), sep);
        let rest = split_on(s.drop_last(), sep);
        if s.last() != sep {
            let l = rest.last();
            assert forall|i: int| 0 <= i < split_on(s, sep).len() implies !#[trigger] split_on(s, sep)[i].contains(sep) by {
                if i == rest.len() - 1 {
                    assert(!rest[i].contains(sep));
                    if l.push(s.last()).contains(sep) {
                        let k = choose|k: int| 0 <= k < l.push(s.last()).len() && l.push(s.last())[k] == sep;
                        assert(l[k] == sep);
                    }
                }
            }
        } else {
            assert forall|i: int| 0 <= i < split_on(s, sep).len() implies !#[trigger] split_on(s, sep)[i].contains(sep) by {
                if i < rest.len() {
                    assert(!rest[i].contains(sep));
                }
            }
        }
    }
}

/// A string without the separator splits into itself.
pub proof fn lemma_split_single(s: Seq<char>, sep: char)
    requires
        !s.contains(sep),
    ensures
        split_on(s, sep) == seq![s],
    decreases s.len(),
{
    if s.len() == 0 {
        assert(s =~= Seq::<char>::empty());
        assert(split_on(s, sep) =~= seq![s]);
    } else {
        assert(!s.drop_last().contains(sep)) by {
            if s.drop_last().contains(sep) {
                let k = choose|k: int| 0 <= k < s.drop_last().len() && s.drop_last()[k] == sep;
                assert(s[k] == sep);
            }
        }
        lemma_split_single(s.drop_last(), sep);
        assert(s.last() != sep) by {
            assert(s[s.len() - 1] == s.last());
        }
        assert(s.drop_last().push(s.last()) =~= s);
        assert(split_on(s, sep) =~= seq![s]);
    }
}

/// Splitting after a separator starts a new segment with what follows.
proof fn lemma_split_after_sep(a: Seq<char>, y: Seq<char>, sep: char)
    requires
        !y.contains(sep),
    ensures
        split_on(a + seq![sep] + y, sep) == split_on(a, sep).push(y),
    decreases y.len(),
{
    if y.len() == 0 {
        assert(y =~= Seq::<char>::empty());
        let z = a + seq![sep] + y;
        assert(z.drop_last() =~= a);
        assert(z.len() > 0);
        assert(z.last() == sep);
        assert(split_on(z, sep) == split_on(z.drop_last(), sep).push(Seq::<char>::empty()));
    } else {
        let y2 = y.drop_last();
        assert(!y2.contains(sep)) by {
            if y2.contains(sep) {
                let k = choose|k: int| 0 <= k < y2.len() && y2[k] == sep;
                assert(y[k] == sep);
            }
        }
        lemma_split_after_sep(a, y2, sep);
        assert((a + seq![sep] + y).drop_last() =~= a + seq![sep] + y2);
        assert((a + seq![sep] + y).last() == y.last());
        assert(y.last() != sep) by {
            assert(y[y.len() - 1] == y.last());
        }
        assert(y2.push(y.last()) =~= y);
        assert(split_on(a + seq![sep] + y, sep) =~= split_on(a, sep).push(y));
    }
}

/// Splitting a joined list of separator-free parts gives the parts back.
pub proof fn lemma_split_join(ps: Seq<Seq<char>>, sep: char)
    requires
        ps.len() > 0,
        forall|i: int| 0 <= i < ps.len() ==> !#[trigger] ps[i].contains(sep),
    ensures
        split_on(join_with(ps, seq![sep]), sep) == ps,
    decreases ps.len(),
{
    if ps.len() == 1 {
        lemma_split_single(ps[0], sep);
        assert(seq![ps[0]] =~= ps);
    } else {
        let init = ps.drop_last();
        assert(forall|i: int| 0 <= i < init.len() ==> #[trigger] init[i] == ps[i]);
        lemma_split_join(init, sep);
        assert(!ps.last().contains(sep)) by {
            assert(ps[ps.len() - 1] == ps.last());
        }
        lemma_split_after_sep(join_with(init, seq![sep]), ps.last(), sep);
        assert(init.push(ps.last()) =~= ps);
    }
}

/// Trimming a trimmed string changes nothing.
pub proof fn lemma_trim_idempotent(s: Seq<char>)
    ensures
        trim(trim(s)) == trim(s),
{
    let t = trim_start(s);
    lemma_trim_start_ws_free(s);
    lemma_trim_end_props(t);
    let x = trim_end(t);
    if x.len() > 0 {
        assert(x[0] == t[0]);
        assert(trim_start(x) == x);
        assert(trim_end(x) == x);
    } else {
        assert(trim_start(x) == x);
    }
}

proof fn lemma_trim_end_props(t: Seq<char>)
    ensures
        trim_end(t).len() <= t.len(),
        trim_end(t) == t.subrange(0, trim_end(t).len() as int),
        trim_end(t).len() > 0 ==> !is_ws(trim_end(t).last()),
    decreases t.len(),
{
    if t.len() > 0 && is_ws(t.last()) {
        lemma_trim_end_props(t.drop_last());
        assert(t.drop_last().subrange(0, trim_end(t).len() as int) =~= t.subrange(0, trim_end(t).len() as int));
    } else {
        assert(t.subrange(0, t.len() as int) =~= t);
    }
}

/// A string without white space at either end is its own trim.
pub proof fn lemma_trim_plain(s: Seq<char>)
    requires
        s.len() > 0,
        !is_ws(s[0]),
        !is_ws(s.last()),
    ensures
        trim(s) == s,
{
    assert(trim_start(s) == s);
}

/// A string with a character that is not white space keeps something when trimmed.
pub proof fn lemma_trim_keeps_non_ws(s: Seq<char>, i: int)
    requires
        0 <= i < s.len(),
        !is_ws(s[i]),
    ensures
        trim(s).len() > 0,
{
    lemma_trim_start_keeps(s, i);
    lemma_trim_start_ws_free(s);
    lemma_trim_end_keeps_first(trim_start(s));
}

proof fn lemma_trim_start_keeps(s: Seq<char>, i: int)
    requires
        0 <= i < s.len(),
        !is_ws(s[i]),
    ensures
        trim_start(s).len() > 0,
    decreases s.len(),
{
    if is_ws(s[0]) {
        lemma_trim_start_keeps(s.drop_first(), i - 1);
    }
}

proof fn lemma_trim_end_keeps_first(t: Seq<char>)
    requires
        t.len() > 0,
        !is_ws(t[0]),
    ensures
        trim_end(t).len() > 0,
    decreases t.len(),
{
    if is_ws(t.last()) {
        assert(t.len() > 1);
        assert(t.drop_last()[0] == t[0]);
        lemma_trim_end_keeps_first(t.drop_last());
    }
}

/// A trimmed segment of a separator-free string is separator-free.
pub proof fn lemma_trim_keeps_free(s: Seq<char>, c: char)
    requires
        !s.contains(c),
    ensures
        !trim(s).contains(c),
{
    lemma_trim_start_ws_free(s);
    let k = choose|k: int| 0 <= k <= s.len() && #[trigger] s.subrange(k, s.len() as int) == trim_start(s);
    let t = trim_start(s);
    lemma_trim_end_props(t);
    if trim(s).contains(c) {
        let j = choose|j: int| 0 <= j < trim(s).len() && trim(s)[j] == c;
        assert(t[j] == c);
        assert(s[k + j] == c);
    }
}

pub open spec fn join_with(parts: Seq<Seq<char>>, sep: Seq<char>) -> Seq<char>
    decreases parts.len(),
{
    if parts.len() == 0 {
        Seq::<char>::empty()
    } else if parts.len() == 1 {
        parts[0]
    } else {
        join_with(parts.drop_last(), sep) + sep + parts.last()
    }
}

/// Lexicographic order of strings by code point (the order of `String`).
pub open spec fn lex_lt(a: Seq<char>, b: Seq<char>) -> bool
    decreases a.len(),
{
    if a.len() == 0 {
        b.len() > 0
    } else if b.len() == 0 {
        false
    } else if (a[0] as int) < (b[0] as int) {
        true
    } else if a[0] == b[0] {
        lex_lt(a.drop_first(), b.drop_first())
    } else {
        false
    }
}

/// `a` begins with `p`.
pub open spec fn starts_with(a: Seq<char>, p: Seq<char>) -> bool {
    p.len() <= a.len() && a.subrange(0, p.len() as int) == p
}

/// `a` ends with `p`.
pub open spec fn ends_with(a: Seq<char>, p: Seq<char>) -> bool {
    p.len() <= a.len() && a.subrange(a.len() - p.len(), a.len() as int) == p
}

/// `p` occurs in `a` as a contiguous piece.
pub open spec fn contains_seq(a: Seq<char>, p: Seq<char>) -> bool {
    exists|i: int| 0 <= i <= a.len() - p.len() && #[trigger] a.subrange(i, i + p.len()) == p
}

// ---------------------------------------------------------------------------
// lemmas
// ---------------------------------------------------------------------------

pub proof fn lemma_lex_irreflexive(a: Seq<char>)
    ensures
        !lex_lt(a, a),
    decreases a.len(),
{
    if a.len() > 0 {
        lemma_lex_irreflexive(a.drop_first());
    }
}

pub proof fn lemma_lex_asymmetric(a: Seq<char>, b: Seq<char>)
    ensures
        lex_lt(a, b) ==> !lex_lt(b, a),
    decreases a.len(),
{
    if a.len() > 0 && b.len() > 0 && a[0] == b[0] {
        lemma_lex_asymmetric(a.drop_first(), b.drop_first());
    }
}

pub proof fn lemma_lex_transitive(a: Seq<char>, b: Seq<char>, c: Seq<char>)
    requires
        lex_lt(a, b),
        lex_lt(b, c),
    ensures
        lex_lt(a, c),
    decreases a.len(),
{
    if a.len() > 0 && b.len() > 0 && c.len() > 0 && a[0] == b[0] && b[0] == c[0] {
        lemma_lex_transitive(a.drop_first(), b.drop_first(), c.drop_first());
    }
}

pub proof fn lemma_lex_total(a: Seq<char>, b: Seq<char>)
    ensures
        a != b ==> lex_lt(a, b) || lex_lt(b, a),
    decreases a.len(),
{
    if a.len() > 0 && b.len() > 0 && a[0] == b[0] {
        lemma_lex_total(a.drop_first(), b.drop_first());
        if a.drop_first() == b.drop_first() {
            assert(a =~= seq![a[0]] + a.drop_first());
            assert(b =~= seq![b[0]] + b.drop_first());
        }
    } else if a.len() == 0 && b.len() == 0 {
        assert(a =~= b);
    } else if a.len() > 0 && b.len() > 0 {
        assert((a[0] as int) != (b[0] as int));
    }
}

// ---------------------------------------------------------------------------
// executable helpers
// ---------------------------------------------------------------------------

/// Whether `a` and `b` hold the same characters.
pub fn str_eq(a: &str, b: &str) -> (res: bool)
    ensures
        res == (a@ == b@),
{
    let n = a.unicode_len();
    let m = b.unicode_len();
    if n != m {
        return false;
    }
    let mut i: usize = 0;
    while i < n
        invariant
            n == a@.len(),
            m == b@.len(),
            n == m,
            i <= n,
            forall|j: int| 0 <= j < i ==> a@[j] == b@[j],
        decreases n - i,
    {
        if a.get_char(i) != b.get_char(i) {
            return false;
        }
        i = i + 1;
    }
    assert(a@ =~= b@);
    true
}

/// `char::is_whitespace`.
pub fn char_is_ws(c: char) -> (res: bool)
    ensures
        res == is_ws(c),
{
    let v = c as u32;
    (0x09 <= v && v <= 0x0d) || v == 0x20 || v == 0x85 || v == 0xa0 || v == 0x1680 || (0x2000
        <= v && v <= 0x200a) || v == 0x2028 || v == 0x2029 || v == 0x202f || v == 0x205f || v
        == 0x3000
}

proof fn lemma_trim_start_step(s: Seq<char>, i: int)
    requires
        0 <= i < s.len(),
        is_ws(s[i]),
    ensures
        trim_start(s.subrange(i, s.len() as int)) == trim_start(s.subrange(i + 1, s.len() as int)),
{
    assert(s.subrange(i, s.len() as int).drop_first() =~= s.subrange(i + 1, s.len() as int));
}

proof fn lemma_trim_end_step(s: Seq<char>, j: int)
    requires
        0 < j <= s.len(),
        is_ws(s[j - 1]),
    ensures
        trim_end(s.subrange(0, j)) == trim_end(s.subrange(0, j - 1)),
{
    assert(s.subrange(0, j).drop_last() =~= s.subrange(0, j - 1));
}

proof fn lemma_trim_start_ws_free(s: Seq<char>)
    ensures
        trim_start(s).len() > 0 ==> !is_ws(trim_start(s)[0]),
        trim_start(s).len() <= s.len(),
        exists|k: int| 0 <= k <= s.len() && #[trigger] s.subrange(k, s.len() as int) == trim_start(s),
    decreases s.len(),
{
    if s.len() > 0 && is_ws(s[0]) {
        lemma_trim_start_ws_free(s.drop_first());
        let k = choose|k: int| 0 <= k <= s.drop_first().len() && #[trigger] s.drop_first().subrange(k, s.drop_first().len() as int) == trim_start(s.drop_first());
        assert(s.subrange(k + 1, s.len() as int) =~= s.drop_first().subrange(k, s.drop_first().len() as int));
    } else {
        assert(s.subrange(0, s.len() as int) =~= s);
    }
}

/// `str::trim`: the string without leading and trailing white space.
pub fn trim_str(s: &str) -> (res: String)
    ensures
        res@ == trim(s@),
{
    let n = s.unicode_len();
    let mut i: usize = 0;
    assert(s@.subrange(0, n as int) =~= s@);
    while i < n && char_is_ws(s.get_char(i))
        invariant
            n == s@.len(),
            i <= n,
            trim_start(s@) == trim_start(s@.subrange(i as int, n as int)),
        decreases n - i,
    {
        proof {
            lemma_trim_start_step(s@, i as int);
        }
        i = i + 1;
    }
    let ghost mid = s@.subrange(i as int, n as int);
    proof {
        if i < n {
            assert(!is_ws(mid[0]));
        } else {
            assert(mid.len() == 0);
        }
        assert(trim_start(s@) == mid);
    }
    let mut j: usize = n;
    assert(mid.subrange(0, n - i) =~= mid);
    while j > i && char_is_ws(s.get_char(j - 1))
        invariant
            n == s@.len(),
            i <= j <= n,
            mid == s@.subrange(i as int, n as int),
            trim_end(mid) == trim_end(mid.subrange(0, j - i)),
        decreases j,
    {
        proof {
            lemma_trim_end_step(mid, (j - i) as int);
            assert(mid.subrange(0, j - i)[j - i - 1] == s@[j - 1]);
        }
        j = j - 1;
    }
    proof {
        let r = mid.subrange(0, j - i);
        if j > i {
            assert(r.last() == s@[j - 1]);
        }
        assert(trim_end(mid) == r);
        assert(r =~= s@.subrange(i as int, j as int));
    }
    String::from_str(s.substring_char(i, j))
}

/// `str::split` on one separator character.
pub fn split_by(s: &str, sep: char) -> (parts: Vec<String>)
    ensures
        parts@.map_values(|p: String| p@) == split_on(s@, sep),
{
    let n = s.unicode_len();
    let mut parts: Vec<String> = Vec::new();
    let mut cur = String::new();
    let mut i: usize = 0;
    while i < n
        invariant
            n == s@.len(),
            i <= n,
            parts@.map_values(|p: String| p@).push(cur@) == split_on(s@.subrange(0, i as int), sep),
        decreases n - i,
    {
        let c = s.get_char(i);
        let ghost pre = s@.subrange(0, i as int);
        let ghost old_parts = parts@.map_values(|p: String| p@);
        let ghost old_cur = cur@;
        assert(s@.subrange(0, i + 1).drop_last() =~= pre);
        if c == sep {
            let done = cur;
            parts.push(done);
            cur = String::new();
            assert(parts@.map_values(|p: String| p@) =~= old_parts.push(old_cur));
        } else {
            push_char(&mut cur, c);
            assert(parts@.map_values(|p: String| p@).push(cur@) =~= old_parts.push(old_cur).update(
                old_parts.len() as int,
                old_cur.push(c),
            ));
        }
        i = i + 1;
    }
    let ghost before = parts@.map_values(|p: String| p@);
    parts.push(cur);
    assert(s@.subrange(0, n as int) =~= s@);
    assert(parts@.map_values(|p: String| p@) =~= before.push(cur@));
    parts
}

/// Joins pieces with a separator (`[String]::join`).
pub fn join_strs(parts: &Vec<String>, sep: &str) -> (res: String)
    ensures
        res@ == join_with(parts@.map_values(|p: String| p@), sep@),
{
    let ghost pv = parts@.map_values(|p: String| p@);
    let mut res = String::new();
    let mut i: usize = 0;
    while i < parts.len()
        invariant
            pv == parts@.map_values(|p: String| p@),
            i <= parts.len(),
            res@ == join_with(pv.subrange(0, i as int), sep@),
        decreases parts.len() - i,
    {
        assert(pv.subrange(0, i + 1).drop_last() =~= pv.subrange(0, i as int));
        if i > 0 {
            res.append(sep);
        } else {
            assert(res@ =~= Seq::<char>::empty());
        }
        res.append(parts[i].as_str());
        i = i + 1;
    }
    assert(pv.subrange(0, parts.len() as int) =~= pv);
    res
}

proof fn lemma_lex_skip(a: Seq<char>, b: Seq<char>, i: int)
    requires
        0 <= i < a.len(),
        i < b.len(),
        a[i] == b[i],
    ensures
        lex_lt(a.subrange(i, a.len() as int), b.subrange(i, b.len() as int)) == lex_lt(
            a.subrange(i + 1, a.len() as int),
            b.subrange(i + 1, b.len() as int),
        ),
{
    assert(a.subrange(i, a.len() as int).drop_first() =~= a.subrange(i + 1, a.len() as int));
    assert(b.subrange(i, b.len() as int).drop_first() =~= b.subrange(i + 1, b.len() as int));
}

/// Strict lexicographic comparison by code point (`<` on `String`).
pub fn lex_less(a: &str, b: &str) -> (res: bool)
    ensures
        res == lex_lt(a@, b@),
{
    let n = a.unicode_len();
    let m = b.unicode_len();
    let mut i: usize = 0;
    assert(a@.subrange(0, n as int) =~= a@);
    assert(b@.subrange(0, m as int) =~= b@);
    while i < n && i < m
        invariant
            n == a@.len(),
            m == b@.len(),
            i <= n,
            i <= m,
            lex_lt(a@, b@) == lex_lt(a@.subrange(i as int, n as int), b@.subrange(i as int, m as int)),
        decreases n - i,
    {
        let x = a.get_char(i);
        let y = b.get_char(i);
        if (x as u32) < (y as u32) {
            assert((x as int) < (y as int));
            return true;
        }
        if x != y {
            return false;
        }
        proof {
            lemma_lex_skip(a@, b@, i as int);
        }
        i = i + 1;
    }
    i == n && i < m
}

/// Whether `s` begins with `p` (`str::starts_with`).
pub fn str_starts_with(s: &str, p: &str) -> (res: bool)
    ensures
        res == starts_with(s@, p@),
{
    let n = s.unicode_len();
    let m = p.unicode_len();
    if m > n {
        return false;
    }
    let mut i: usize = 0;
    while i < m
        invariant
            n == s@.len(),
            m == p@.len(),
            m <= n,
            i <= m,
            forall|j: int| 0 <= j < i ==> s@[j] == p@[j],
        decreases m - i,
    {
        if s.get_char(i) != p.get_char(i) {
            assert(s@.subrange(0, m as int)[i as int] != p@[i as int]);
            return false;
        }
        i = i + 1;
    }
    assert(s@.subrange(0, m as int) =~= p@);
    true
}

/// Whether `s` ends with `p` (`str::ends_with`).
pub fn str_ends_with(s: &str, p: &str) -> (res: bool)
    ensures
        res == ends_with(s@, p@),
{
    let n = s.unicode_len();
    let m = p.unicode_len();
    if m > n {
        return false;
    }
    let off = n - m;
    let mut i: usize = 0;
    while i < m
        invariant
            n == s@.len(),
            m == p@.len(),
            m <= n,
            off == n - m,
            i <= m,
            forall|j: int| 0 <= j < i ==> s@[off + j] == p@[j],
        decreases m - i,
    {
        if s.get_char(off + i) != p.get_char(i) {
            assert(s@.subrange(off as int, n as int)[i as int] != p@[i as int]);
            return false;
        }
        i = i + 1;
    }
    assert(s@.subrange(off as int, n as int) =~= p@);
    true
}

/// Whether `p` occurs in `s` (`str::contains`).
pub fn str_contains(s: &str, p: &str) -> (res: bool)
    ensures
        res == contains_seq(s@, p@),
{
    let n = s.unicode_len();
    let m = p.unicode_len();
    if m > n {
        return false;
    }
    if m == 0 {
        assert(s@.subrange(0, 0 + p@.len() as int) =~= p@);
        return true;
    }
    let mut i: usize = 0;
    while i <= n - m
        invariant
            n == s@.len(),
            m == p@.len(),
            1 <= m <= n,
            i <= n - m + 1,
            forall|k: int| 0 <= k < i ==> #[trigger] s@.subrange(k, k + m) != p@,
        decreases n - m + 1 - i,
    {
        let mut j: usize = 0;
        let mut ok = true;
        while j < m
            invariant
                n == s@.len(),
                m == p@.len(),
                i + m <= n,
                j <= m,
                ok ==> forall|t: int| 0 <= t < j ==> s@[i + t] == p@[t],
                !ok ==> s@.subrange(i as int, i + m) != p@,
            decreases m - j,
        {
            if ok && s.get_char(i + j) != p.get_char(j) {
                ok = false;
                assert(s@.subrange(i as int, i + m)[j as int] != p@[j as int]);
            }
            j = j + 1;
        }
        if ok {
            assert(s@.subrange(i as int, i + m) =~= p@);
            return true;
        }
        i = i + 1;
    }
    assert forall|k: int| 0 <= k <= n - m implies #[trigger] s@.subrange(k, k + m) != p@ by {}
    false
}

/// The string made of one character.
pub fn char_to_string(c: char) -> (res: String)
    ensures
        res@ == seq![c],
{
    let mut s = String::new();
    push_char(&mut s, c);
    assert(s@ =~= seq![c]);
    s
}

/// A copy of `s`.
pub fn copy_str(s: &str) -> (res: String)
    ensures
        res@ == s@,
{
    String::from_str(s)
}

/// A copy of a list of strings.
pub fn copy_strings(v: &Vec<String>) -> (res: Vec<String>)
    ensures
        res@.map_values(|p: String| p@) == v@.map_values(|p: String| p@),
        res.len() == v.len(),
{
    let mut res: Vec<String> = Vec::new();
    let mut i: usize = 0;
    while i < v.len()
        invariant
            i <= v.len(),
            res.len() == i,
            forall|j: int| 0 <= j < i ==> #[trigger] res@[j]@ == v@[j]@,
        decreases v.len() - i,
    {
        res.push(v[i].clone());
        i = i + 1;
    }
    assert(res@.map_values(|p: String| p@) =~= v@.map_values(|p: String| p@));
    res
}

/// The characters of a non-negative number in decimal.
pub open spec fn decimal(n: nat) -> Seq<char>
    decreases n,
{
    if n < 10 {
        seq![digit_char(n)]
    } else {
        decimal(n / 10).push(digit_char(n % 10))
    }
}

/// The decimal digit character for `d < 10`.
pub open spec fn digit_char(d: nat) -> char {
    if d == 0 { '0' } else if d == 1 { '1' } else if d == 2 { '2' } else if d == 3 { '3' } else if d
        == 4 { '4' } else if d == 5 { '5' } else if d == 6 { '6' } else if d == 7 { '7' } else if d
        == 8 { '8' } else { '9' }
}

fn digit(d: u64) -> (c: char)
    requires
        d < 10,
    ensures
        c == digit_char(d as nat),
{
    if d == 0 { '0' } else if d == 1 { '1' } else if d == 2 { '2' } else if d == 3 { '3' } else if d
        == 4 { '4' } else if d == 5 { '5' } else if d == 6 { '6' } else if d == 7 { '7' } else if d
        == 8 { '8' } else { '9' }
}

/// Decimal formatting of a number (`format!("{}", n)`).
pub fn u64_to_decimal(n: u64) -> (res: String)
    ensures
        res@ == decimal(n as nat),
    decreases n,
{
    if n < 10 {
        char_to_string(digit(n))
    } else {
        let mut s = u64_to_decimal(n / 10);
        push_char(&mut s, digit(n % 10));
        s
    }
}

/// The characters of a number in lower-case hexadecimal.
pub open spec fn hex(n: nat) -> Seq<char>
    decreases n,
{
    if n < 16 {
        seq![hex_digit_char(n)]
    } else {
        hex(n / 16).push(hex_digit_char(n % 16))
    }
}

/// The lower-case hexadecimal digit for `d < 16`.
pub open spec fn hex_digit_char(d: nat) -> char {
    if d < 10 {
        digit_char(d)
    } else if d == 10 {
        'a'
    } else if d == 11 {
        'b'
    } else if d == 12 {
        'c'
    } else if d == 13 {
        'd'
    } else if d == 14 {
        'e'
    } else {
        'f'
    }
}

fn hex_digit(d: u64) -> (c: char)
    requires
        d < 16,
    ensures
        c == hex_digit_char(d as nat),
{
    if d < 10 {
        digit(d)
    } else if d == 10 {
        'a'
    } else if d == 11 {
        'b'
    } else if d == 12 {
        'c'
    } else if d == 13 {
        'd'
    } else if d == 14 {
        'e'
    } else {
        'f'
    }
}

/// Lower-case hexadecimal formatting of a number (`format!("{:x}", n)`).
pub fn u64_to_hex(n: u64) -> (res: String)
    ensures
        res@ == hex(n as nat),
    decreases n,
{
    if n < 16 {
        char_to_string(hex_digit(n))
    } else {
        let mut s = u64_to_hex(n / 16);
        push_char(&mut s, hex_digit(n % 16));
        s
    }
}

/// Concatenation of two strings.
pub fn concat_str(a: &str, b: &str) -> (res: String)
    ensures
        res@ == a@ + b@,
{
    String::from_str(a).concat(b)
}

} // verus!
