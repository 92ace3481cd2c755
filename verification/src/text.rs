//! Character-level scanning primitives shared by the block grammar and the
//! configuration parser: whitespace skipping, case-insensitive token
//! matching, and token search.

use vstd::prelude::*;

verus! {

/// The length of a vector fits a machine word.
pub broadcast proof fn lemma_vec_len_bound<T>(v: &Vec<T>)
    ensures
        #[trigger] v@.len() <= usize::MAX,
{
    broadcast use vstd::std_specs::vec::axiom_spec_len;

    assert(vstd::std_specs::vec::spec_vec_len(v) == v@.len());
}

/// A vector of characters views deeply as its plain view.
pub broadcast proof fn lemma_chars_deep_view(v: Vec<char>)
    ensures
        #[trigger] v.deep_view() == v@,
{
    assert(v.deep_view() =~= v@);
}

/// Whitespace as the block grammar understands it (the ASCII whitespace
/// characters).
pub open spec fn is_ws(c: char) -> bool {
    c == ' ' || c == '\t' || c == '\n' || c == '\r' || c == '\x0b' || c == '\x0c'
}

/// Executable form of [`is_ws`].
pub fn is_ws_x(c: char) -> (r: bool)
    ensures
        r == is_ws(c),
{
    c == ' ' || c == '\t' || c == '\n' || c == '\r' || c == '\x0b' || c == '\x0c'
}

/// The character's code, with ASCII upper-case letters folded to lower case.
pub open spec fn lower(c: char) -> int {
    if 65 <= c as u32 && c as u32 <= 90 {
        c as u32 + 32
    } else {
        c as u32 as int
    }
}

/// Executable form of [`lower`].
pub fn lower_x(c: char) -> (r: u32)
    ensures
        r as int == lower(c),
{
    let u = c as u32;
    if 65 <= u && u <= 90 {
        u + 32
    } else {
        u
    }
}

/// The token `tok` occurs at position `i` of `d`, compared case-insensitively.
pub open spec fn tok_at(d: Seq<char>, i: int, tok: Seq<char>) -> bool {
    &&& 0 <= i
    &&& i + tok.len() <= d.len()
    &&& forall|k: int| 0 <= k < tok.len() ==> lower(d[i + k]) == lower(tok[k])
}

/// Executable form of [`tok_at`].
pub fn tok_at_x(d: &Vec<char>, i: usize, tok: &Vec<char>) -> (r: bool)
    ensures
        r == tok_at(d@, i as int, tok@),
{
    broadcast use lemma_vec_len_bound;

    if i > d.len() || d.len() - i < tok.len() {
        return false;
    }
    let mut k: usize = 0;
    while k < tok.len()
        invariant
            d@.len() <= usize::MAX,
            i + tok@.len() <= d@.len(),
            k <= tok@.len(),
            forall|j: int| 0 <= j < k ==> lower(d@[i + j]) == lower(tok@[j]),
        decreases tok@.len() - k,
    {
        proof {
            assert(i + k < d@.len());
        }
        if lower_x(d[i + k]) != lower_x(tok[k]) {
            return false;
        }
        k += 1;
    }
    true
}

/// The first position at or after `i` that holds no whitespace (or the end of
/// `d`).
pub open spec fn skip_ws(d: Seq<char>, i: int) -> int
    decreases d.len() - i,
{
    if 0 <= i && i < d.len() && is_ws(d[i]) {
        skip_ws(d, i + 1)
    } else {
        i
    }
}

/// Skipping whitespace never moves backwards and never passes the end.
pub broadcast proof fn lemma_skip_ws(d: Seq<char>, i: int)
    requires
        0 <= i <= d.len(),
    ensures
        i <= #[trigger] skip_ws(d, i) <= d.len(),
    decreases d.len() - i,
{
    if i < d.len() && is_ws(d[i]) {
        lemma_skip_ws(d, i + 1);
    }
}

/// Executable form of [`skip_ws`].
pub fn skip_ws_x(d: &Vec<char>, i: usize) -> (r: usize)
    requires
        i <= d@.len(),
    ensures
        r as int == skip_ws(d@, i as int),
        i <= r <= d@.len(),
    decreases d@.len() - i,
{
    if i < d.len() && is_ws_x(d[i]) {
        skip_ws_x(d, i + 1)
    } else {
        i
    }
}

/// The first position at or after `i` where `tok` occurs, case-insensitively.
pub open spec fn find_tok(d: Seq<char>, i: int, tok: Seq<char>) -> Option<int>
    decreases d.len() - i,
{
    if i < 0 || i + tok.len() > d.len() {
        None
    } else if tok_at(d, i, tok) {
        Some(i)
    } else {
        find_tok(d, i + 1, tok)
    }
}

/// A found token lies at or after the start of the search and inside `d`.
pub broadcast proof fn lemma_find_tok(d: Seq<char>, i: int, tok: Seq<char>)
    ensures
        (#[trigger] find_tok(d, i, tok)) matches Some(j) ==> {
            &&& i <= j
            &&& 0 <= j
            &&& j + tok.len() <= d.len()
            &&& tok_at(d, j, tok)
        },
    decreases d.len() - i,
{
    if i < 0 || i + tok.len() > d.len() {
    } else if tok_at(d, i, tok) {
    } else {
        lemma_find_tok(d, i + 1, tok);
    }
}

/// Executable form of [`find_tok`].
pub fn find_tok_x(d: &Vec<char>, i: usize, tok: &Vec<char>) -> (r: Option<usize>)
    requires
        i <= d@.len(),
    ensures
        match r {
            Some(j) => find_tok(d@, i as int, tok@) == Some(j as int),
            None => find_tok(d@, i as int, tok@) is None,
        },
{
    let mut p = i;
    loop
        invariant
            i <= p,
            p <= d@.len(),
            find_tok(d@, i as int, tok@) == find_tok(d@, p as int, tok@),
        decreases d@.len() - p,
    {
        if p > d.len() || d.len() - p < tok.len() {
            return None;
        }
        if tok_at_x(d, p, tok) {
            return Some(p);
        }
        assert(find_tok(d@, p as int, tok@) == find_tok(d@, p + 1, tok@));
        p += 1;
    }
}

/// `pat` occurs at position `i` of `s`, compared exactly.
pub open spec fn exact_at(s: Seq<char>, i: int, pat: Seq<char>) -> bool {
    &&& 0 <= i
    &&& i + pat.len() <= s.len()
    &&& forall|k: int| 0 <= k < pat.len() ==> s[i + k] == pat[k]
}

/// Executable form of [`exact_at`].
pub fn exact_at_x(s: &Vec<char>, i: usize, pat: &Vec<char>) -> (r: bool)
    ensures
        r == exact_at(s@, i as int, pat@),
{
    broadcast use lemma_vec_len_bound;

    if i > s.len() || s.len() - i < pat.len() {
        return false;
    }
    let mut k: usize = 0;
    while k < pat.len()
        invariant
            s@.len() <= usize::MAX,
            i + pat@.len() <= s@.len(),
            k <= pat@.len(),
            forall|j: int| 0 <= j < k ==> s@[i + j] == pat@[j],
        decreases pat@.len() - k,
    {
        proof {
            assert(i + k < s@.len());
        }
        if s[i + k] != pat[k] {
            return false;
        }
        k += 1;
    }
    true
}

/// `s` with trailing whitespace removed.
pub open spec fn trim_end(s: Seq<char>) -> Seq<char>
    decreases s.len(),
{
    if s.len() > 0 && is_ws(s[s.len() - 1]) {
        trim_end(s.take(s.len() - 1))
    } else {
        s
    }
}

/// The copy of `d[a..b]`.
pub fn subvec(d: &Vec<char>, a: usize, b: usize) -> (r: Vec<char>)
    requires
        a <= b <= d@.len(),
    ensures
        r@ == d@.subrange(a as int, b as int),
{
    let mut v: Vec<char> = Vec::new();
    let mut k = a;
    while k < b
        invariant
            a <= k <= b <= d@.len(),
            v@ == d@.subrange(a as int, k as int),
        decreases b - k,
    {
        v.push(d[k]);
        assert(v@ =~= d@.subrange(a as int, k + 1));
        k += 1;
    }
    v
}

/// The copy of `d[a..b]`, with trailing whitespace removed.
pub fn subvec_trimmed(d: &Vec<char>, a: usize, b: usize) -> (r: Vec<char>)
    requires
        a <= b <= d@.len(),
    ensures
        r@ == trim_end(d@.subrange(a as int, b as int)),
{
    let mut e = b;
    while e > a && is_ws_x(d[e - 1])
        invariant
            a <= e <= b <= d@.len(),
            trim_end(d@.subrange(a as int, b as int)) == trim_end(
                d@.subrange(a as int, e as int),
            ),
        decreases e - a,
    {
        assert(d@.subrange(a as int, e as int).take(e - 1 - a) =~= d@.subrange(
            a as int,
            e - 1,
        ));
        e -= 1;
    }
    assert(trim_end(d@.subrange(a as int, e as int)) == d@.subrange(a as int, e as int));
    subvec(d, a, e)
}

/// The two sequences hold the same characters.
pub fn chars_eq(a: &Vec<char>, b: &Vec<char>) -> (r: bool)
    ensures
        r == (a@ == b@),
{
    if a.len() != b.len() {
        assert(a@ != b@);
        return false;
    }
    let mut k: usize = 0;
    while k < a.len()
        invariant
            a@.len() == b@.len(),
            k <= a@.len(),
            forall|j: int| 0 <= j < k ==> a@[j] == b@[j],
        decreases a@.len() - k,
    {
        if a[k] != b[k] {
            return false;
        }
        k += 1;
    }
    assert(a@ =~= b@);
    true
}

/// Relies on `str::chars` (collected): the iterator yields exactly the
/// string's characters in order.
#[verifier::external_body]
pub fn str_chars(s: &str) -> (r: Vec<char>)
    ensures
        r@ == s@,
{
    s.chars().collect()
}

/// Relies on `String`'s `FromIterator<char>`: the collected string holds
/// exactly the characters of the vector in order.
#[verifier::external_body]
pub fn chars_string(v: &Vec<char>) -> (r: String)
    ensures
        r@ == v@,
{
    v.iter().collect()
}

} // verus!
