//! Character-level text primitives.
//!
//! Every function reads a string through its sequence of characters, so that
//! positions count characters, and states its result over that sequence.

use vstd::prelude::*;
use vstd::std_specs::iter::IteratorSpec;
use vstd::string::StrSliceExecFns;
use vstd::string::StringExecFns;
use vstd::string::StringSliceAdditionalSpecFns;

verus! {

/// The pattern `p` stands in `s` at position `i`.
pub open spec fn occurs_at(s: Seq<char>, p: Seq<char>, i: int) -> bool {
    0 <= i && i + p.len() <= s.len() && s.subrange(i, i + p.len()) == p
}

/// The least position at or after `i` where `p` stands in `s`, or -1.
pub open spec fn index_from(s: Seq<char>, p: Seq<char>, i: int) -> int
    decreases s.len() - i + 1,
{
    if i < 0 || i + p.len() > s.len() {
        -1int
    } else if occurs_at(s, p, i) {
        i
    } else {
        index_from(s, p, i + 1)
    }
}

/// The least position where `p` stands in `s`, or -1.
pub open spec fn index_of(s: Seq<char>, p: Seq<char>) -> int {
    index_from(s, p, 0)
}

/// The greatest position at or before `i` where `p` stands in `s`, or -1.
pub open spec fn last_index_upto(s: Seq<char>, p: Seq<char>, i: int) -> int
    decreases i + 1,
{
    if i < 0 {
        -1
    } else if occurs_at(s, p, i) {
        i
    } else {
        last_index_upto(s, p, i - 1)
    }
}

/// The greatest position where `p` stands in `s`, or -1.
pub open spec fn last_index_of(s: Seq<char>, p: Seq<char>) -> int {
    last_index_upto(s, p, s.len() - p.len())
}

/// Whether `p` stands somewhere in `s`.
pub open spec fn contains(s: Seq<char>, p: Seq<char>) -> bool {
    index_of(s, p) >= 0
}

/// Whether `s` begins with `p`.
pub open spec fn starts_with(s: Seq<char>, p: Seq<char>) -> bool {
    occurs_at(s, p, 0)
}

/// Whether `s` ends with `p`.
pub open spec fn ends_with(s: Seq<char>, p: Seq<char>) -> bool {
    occurs_at(s, p, s.len() - p.len())
}

/// `index_from` finds an occurrence, and the first one.
pub proof fn lemma_index_from(s: Seq<char>, p: Seq<char>, i: int)
    requires
        0 <= i,
    ensures
        index_from(s, p, i) == -1 || (i <= index_from(s, p, i) && occurs_at(
            s,
            p,
            index_from(s, p, i),
        )),
        forall|j: int|
            i <= j && (j < index_from(s, p, i) || index_from(s, p, i) == -1) ==> !occurs_at(
                s,
                p,
                j,
            ),
    decreases s.len() - i + 1,
{
    if i + p.len() > s.len() {
    } else if occurs_at(s, p, i) {
    } else {
        lemma_index_from(s, p, i + 1);
    }
}

/// `last_index_upto` finds an occurrence.
pub proof fn lemma_last_index_upto(s: Seq<char>, p: Seq<char>, i: int)
    ensures
        last_index_upto(s, p, i) == -1 || (0 <= last_index_upto(s, p, i) <= i && occurs_at(
            s,
            p,
            last_index_upto(s, p, i),
        )),
    decreases i + 1,
{
    if i >= 0 && !occurs_at(s, p, i) {
        lemma_last_index_upto(s, p, i - 1);
    }
}

/// `contains` holds exactly when the pattern stands somewhere.
pub proof fn lemma_contains(s: Seq<char>, p: Seq<char>)
    ensures
        contains(s, p) <==> exists|i: int| occurs_at(s, p, i),
{
    lemma_index_from(s, p, 0);
    if contains(s, p) {
        assert(occurs_at(s, p, index_of(s, p)));
    }
}

/// The characters of a string, one vector element each.
pub fn to_chars(s: &str) -> (v: Vec<char>)
    ensures
        v@ == s@,
{
    let mut v: Vec<char> = Vec::new();
    let mut it = s.chars();
    loop
        invariant
            s@ == v@ + it.remaining(),
            it.obeys_prophetic_iter_laws(),
            it.decrease() is Some,
        decreases it.decrease()->0,
    {
        match it.next() {
            Some(c) => {
                v.push(c);
                assert(s@ =~= v@ + it.remaining());
            },
            None => {
                assert(s@ =~= v@);
                return v;
            },
        }
    }
}

/// Whether two strings hold the same characters.
pub fn same(a: &str, b: &str) -> (r: bool)
    ensures
        r == (a@ == b@),
{
    let x = a.as_bytes();
    let y = b.as_bytes();
    proof {
        vstd::utf8::encode_utf8_decode_utf8(a@);
        vstd::utf8::encode_utf8_decode_utf8(b@);
    }
    if x.len() != y.len() {
        return false;
    }
    let mut i: usize = 0;
    while i < x.len()
        invariant
            x@ == a.spec_bytes(),
            y@ == b.spec_bytes(),
            vstd::utf8::decode_utf8(a.spec_bytes()) == a@,
            vstd::utf8::decode_utf8(b.spec_bytes()) == b@,
            x.len() == y.len(),
            i <= x.len(),
            forall|k: int| 0 <= k < i ==> x@[k] == y@[k],
        decreases x.len() - i,
    {
        if x[i] != y[i] {
            return false;
        }
        i += 1;
    }
    assert(x@ =~= y@);
    true
}

/// Whether `p` stands in `s` at position `i`.
pub fn match_at(s: &Vec<char>, p: &Vec<char>, i: usize) -> (r: bool)
    ensures
        r == occurs_at(s@, p@, i as int),
{
    if p.len() > s.len() || i > s.len() - p.len() {
        return false;
    }
    let mut k: usize = 0;
    while k < p.len()
        invariant
            k <= p.len(),
            i + p.len() <= s.len(),
            forall|j: int| 0 <= j < k ==> s@[i + j] == p@[j],
        decreases p.len() - k,
    {
        if s[i + k] != p[k] {
            assert(s@.subrange(i as int, i + p.len())[k as int] != p@[k as int]);
            return false;
        }
        k += 1;
    }
    assert(s@.subrange(i as int, i + p.len()) =~= p@);
    true
}

/// The first position at or after `from` where `p` stands in `s`.
pub fn find_from(s: &Vec<char>, p: &Vec<char>, from: usize) -> (r: Option<usize>)
    ensures
        match r {
            Some(i) => i as int == index_from(s@, p@, from as int),
            None => index_from(s@, p@, from as int) == -1,
        },
{
    if p.len() > s.len() {
        return None;
    }
    let last = s.len() - p.len();
    let mut i: usize = from;
    while i <= last
        invariant
            last == s.len() - p.len(),
            from <= i,
            index_from(s@, p@, from as int) == index_from(s@, p@, i as int),
        decreases last + 1 - i,
    {
        if match_at(s, p, i) {
            return Some(i);
        }
        if i == last {
            assert(index_from(s@, p@, i + 1) == -1);
            return None;
        }
        i += 1;
    }
    None
}

/// The last position at or before `upto` where `p` stands in `s`.
pub fn rfind_upto(s: &Vec<char>, p: &Vec<char>, upto: usize) -> (r: Option<usize>)
    ensures
        match r {
            Some(i) => i as int == last_index_upto(s@, p@, upto as int),
            None => last_index_upto(s@, p@, upto as int) == -1,
        },
{
    let mut i: usize = upto;
    loop
        invariant
            i <= upto,
            last_index_upto(s@, p@, upto as int) == last_index_upto(s@, p@, i as int),
        decreases i,
    {
        if match_at(s, p, i) {
            return Some(i);
        }
        if i == 0 {
            assert(last_index_upto(s@, p@, -1) == -1);
            return None;
        }
        i -= 1;
    }
}

/// The first position where `p` stands in `s`, counted in characters.
pub fn find(s: &str, p: &str) -> (r: Option<usize>)
    ensures
        match r {
            Some(i) => i as int == index_of(s@, p@) && i + p@.len() <= s@.len(),
            None => index_of(s@, p@) == -1,
        },
{
    let sv = to_chars(s);
    let pv = to_chars(p);
    proof {
        lemma_index_from(s@, p@, 0);
    }
    find_from(&sv, &pv, 0)
}

/// The last position where `p` stands in `s`, counted in characters.
pub fn rfind(s: &str, p: &str) -> (r: Option<usize>)
    ensures
        match r {
            Some(i) => i as int == last_index_of(s@, p@) && i + p@.len() <= s@.len(),
            None => last_index_of(s@, p@) == -1,
        },
{
    let sv = to_chars(s);
    let pv = to_chars(p);
    if pv.len() > sv.len() {
        return None;
    }
    proof {
        lemma_last_index_upto(s@, p@, s@.len() - p@.len());
    }
    rfind_upto(&sv, &pv, sv.len() - pv.len())
}

/// The number of characters of a text.
pub fn count(s: &str) -> (r: usize)
    ensures
        r == s@.len(),
{
    s.unicode_len()
}

/// Whether `p` stands somewhere in `s`.
pub fn holds(s: &str, p: &str) -> (r: bool)
    ensures
        r == contains(s@, p@),
{
    find(s, p).is_some()
}

/// Whether `s` begins with `p`.
pub fn begins(s: &str, p: &str) -> (r: bool)
    ensures
        r == starts_with(s@, p@),
{
    let sv = to_chars(s);
    let pv = to_chars(p);
    match_at(&sv, &pv, 0)
}

/// Whether `s` ends with `p`.
pub fn ends(s: &str, p: &str) -> (r: bool)
    ensures
        r == ends_with(s@, p@),
{
    let sv = to_chars(s);
    let pv = to_chars(p);
    if pv.len() > sv.len() {
        return false;
    }
    match_at(&sv, &pv, sv.len() - pv.len())
}

/// The characters that count as white space: those with the Unicode property
/// White_Space.
pub open spec fn is_blank(c: char) -> bool {
    let u = c as u32;
    (0x09 <= u <= 0x0D) || u == 0x20 || u == 0x85 || u == 0xA0 || u == 0x1680 || (0x2000 <= u
        <= 0x200A) || u == 0x2028 || u == 0x2029 || u == 0x202F || u == 0x205F || u == 0x3000
}

/// A space or a tab: what separates the words of a declaration.
pub open spec fn is_gap(c: char) -> bool {
    c == ' ' || c == '\t'
}

/// The first position at or after `i` that holds no white space.
pub open spec fn lead(s: Seq<char>, i: int) -> int
    decreases s.len() - i,
{
    if 0 <= i < s.len() && is_blank(s[i]) {
        lead(s, i + 1)
    } else {
        i
    }
}

/// The end of the text before `j` once trailing white space is dropped, never
/// below `lo`.
pub open spec fn tail(s: Seq<char>, lo: int, j: int) -> int
    decreases j,
{
    if lo < j <= s.len() && 0 < j && is_blank(s[j - 1]) {
        tail(s, lo, j - 1)
    } else {
        j
    }
}

/// The text without leading and trailing white space.
pub open spec fn trimmed(s: Seq<char>) -> Seq<char> {
    let a = lead(s, 0);
    let b = tail(s, a, s.len() as int);
    s.subrange(a, b)
}

/// The text with every occurrence of `from` at or after `i` replaced by `to`,
/// taken from left to right without overlap. An empty pattern occurs nowhere.
pub open spec fn replaced_from(s: Seq<char>, from: Seq<char>, to: Seq<char>, i: int) -> Seq<char>
    decreases s.len() - i,
{
    if i < 0 || i >= s.len() {
        Seq::empty()
    } else if from.len() > 0 && occurs_at(s, from, i) {
        to + replaced_from(s, from, to, i + from.len())
    } else {
        seq![s[i]] + replaced_from(s, from, to, i + 1)
    }
}

/// The text with every occurrence of `from` replaced by `to`.
pub open spec fn replaced(s: Seq<char>, from: Seq<char>, to: Seq<char>) -> Seq<char> {
    replaced_from(s, from, to, 0)
}

/// The pieces of `s` from `start` on, cut at each `sep` at or after `i`.
pub open spec fn split_from(s: Seq<char>, sep: char, start: int, i: int) -> Seq<Seq<char>>
    decreases s.len() - i,
{
    if i < 0 || i >= s.len() {
        seq![s.subrange(start, s.len() as int)]
    } else if s[i] == sep {
        seq![s.subrange(start, i)] + split_from(s, sep, i + 1, i + 1)
    } else {
        split_from(s, sep, start, i + 1)
    }
}

/// The pieces between the occurrences of `sep`, empty ones included.
pub open spec fn split(s: Seq<char>, sep: char) -> Seq<Seq<char>> {
    split_from(s, sep, 0, 0)
}

/// The words of `s` from `start` on: maximal runs without space or tab.
pub open spec fn words_from(s: Seq<char>, start: int, i: int) -> Seq<Seq<char>>
    decreases s.len() - i,
{
    if i < 0 || i >= s.len() {
        if start < s.len() {
            seq![s.subrange(start, s.len() as int)]
        } else {
            Seq::empty()
        }
    } else if is_gap(s[i]) {
        if start < i {
            seq![s.subrange(start, i)] + words_from(s, i + 1, i + 1)
        } else {
            words_from(s, i + 1, i + 1)
        }
    } else {
        words_from(s, start, i + 1)
    }
}

/// The non-empty pieces of `s` between spaces and tabs.
pub open spec fn words(s: Seq<char>) -> Seq<Seq<char>> {
    words_from(s, 0, 0)
}

/// The parts in order with `sep` between neighbours.
pub open spec fn joined(parts: Seq<Seq<char>>, sep: Seq<char>) -> Seq<char>
    decreases parts.len(),
{
    if parts.len() == 0 {
        Seq::empty()
    } else if parts.len() == 1 {
        parts[0]
    } else {
        joined(parts.drop_last(), sep) + sep + parts.last()
    }
}

/// Joining a list with a text in front puts the text and the separator
/// before the join of the list.
pub proof fn lemma_joined_front(x: Seq<char>, rest: Seq<Seq<char>>, sep: Seq<char>)
    requires
        rest.len() > 0,
    ensures
        joined(seq![x] + rest, sep) == x + sep + joined(rest, sep),
    decreases rest.len(),
{
    let all = seq![x] + rest;
    assert(all.last() == rest.last());
    assert(all.drop_last() =~= seq![x] + rest.drop_last());
    if rest.len() == 1 {
        assert(all.drop_last() =~= seq![x]);
        assert(joined(seq![x], sep) == x);
        assert(joined(rest, sep) == rest[0]);
        assert(joined(all, sep) =~= x + sep + joined(rest, sep));
    } else {
        lemma_joined_front(x, rest.drop_last(), sep);
        assert(joined(all, sep) =~= x + sep + joined(rest, sep));
    }
}

/// The pieces that a separator cuts a text into, joined by the separator,
/// give the text back.
pub proof fn lemma_split_joins_back(s: Seq<char>, sep: char, start: int, i: int)
    requires
        0 <= start <= i <= s.len(),
    ensures
        joined(split_from(s, sep, start, i), seq![sep]) == s.subrange(start, s.len() as int),
        split_from(s, sep, start, i).len() >= 1,
    decreases s.len() - i,
{
    if i >= s.len() {
        assert(joined(seq![s.subrange(start, s.len() as int)], seq![sep]) == s.subrange(
            start,
            s.len() as int,
        ));
    } else if s[i] == sep {
        lemma_split_joins_back(s, sep, i + 1, i + 1);
        lemma_joined_front(s.subrange(start, i), split_from(s, sep, i + 1, i + 1), seq![sep]);
        assert(s.subrange(start, i) + seq![sep] + s.subrange(i + 1, s.len() as int)
            =~= s.subrange(start, s.len() as int));
    } else {
        lemma_split_joins_back(s, sep, start, i + 1);
    }
}

/// A trimmed text neither starts nor ends with white space, and is a part
/// of the text.
pub proof fn lemma_trimmed(s: Seq<char>)
    ensures
        0 <= lead(s, 0) <= tail(s, lead(s, 0), s.len() as int) <= s.len(),
        trimmed(s).len() > 0 ==> !is_blank(trimmed(s)[0]) && !is_blank(trimmed(s).last()),
{
    lemma_lead(s, 0);
    lemma_tail(s, lead(s, 0), s.len() as int);
}

/// `lead` stops within the text, at a character that is no white space.
pub proof fn lemma_lead(s: Seq<char>, i: int)
    requires
        0 <= i <= s.len(),
    ensures
        i <= lead(s, i) <= s.len(),
        lead(s, i) < s.len() ==> !is_blank(s[lead(s, i)]),
    decreases s.len() - i,
{
    if i < s.len() && is_blank(s[i]) {
        lemma_lead(s, i + 1);
    }
}

/// `tail` stops at or above its bound, behind a character that is no white
/// space.
pub proof fn lemma_tail(s: Seq<char>, lo: int, j: int)
    requires
        0 <= lo <= j <= s.len(),
    ensures
        lo <= tail(s, lo, j) <= j,
        tail(s, lo, j) > lo ==> !is_blank(s[tail(s, lo, j) - 1]),
    decreases j,
{
    if lo < j && is_blank(s[j - 1]) {
        lemma_tail(s, lo, j - 1);
    }
}

/// The view of each element, in order.
pub open spec fn views<T: View>(v: Seq<T>) -> Seq<T::V> {
    Seq::new(v.len(), |i: int| v[i]@)
}

/// The character of a decimal digit.
pub open spec fn digit(d: int) -> char {
    if d == 0 {
        '0'
    } else if d == 1 {
        '1'
    } else if d == 2 {
        '2'
    } else if d == 3 {
        '3'
    } else if d == 4 {
        '4'
    } else if d == 5 {
        '5'
    } else if d == 6 {
        '6'
    } else if d == 7 {
        '7'
    } else if d == 8 {
        '8'
    } else {
        '9'
    }
}

/// The decimal numeral of `n`, without leading zeros.
pub open spec fn decimal(n: nat) -> Seq<char>
    decreases n,
{
    if n < 10 {
        seq![digit(n as int)]
    } else {
        decimal(n / 10).push(digit((n % 10) as int))
    }
}

/// Whether a character counts as white space.
pub fn blank(c: char) -> (r: bool)
    ensures
        r == is_blank(c),
{
    let u: u32 = c as u32;
    (0x09 <= u && u <= 0x0D) || u == 0x20 || u == 0x85 || u == 0xA0 || u == 0x1680 || (0x2000 <= u
        && u <= 0x200A) || u == 0x2028 || u == 0x2029 || u == 0x202F || u == 0x205F || u == 0x3000
}

/// Whether a character is a space or a tab.
pub fn gap(c: char) -> (r: bool)
    ensures
        r == is_gap(c),
{
    c == ' ' || c == '\t'
}

/// The characters of `s` from position `from` up to `to`.
pub fn cut(s: &str, from: usize, to: usize) -> (r: String)
    requires
        from <= to <= s@.len(),
    ensures
        r@ == s@.subrange(from as int, to as int),
{
    s.substring_char(from, to).to_owned()
}

/// The text without leading and trailing white space.
pub fn trim(s: &str) -> (r: String)
    ensures
        r@ == trimmed(s@),
{
    let v = to_chars(s);
    let mut a: usize = 0;
    while a < v.len() && blank(v[a])
        invariant
            a <= v.len(),
            lead(v@, 0) == lead(v@, a as int),
        decreases v.len() - a,
    {
        a += 1;
    }
    let mut b: usize = v.len();
    while a < b && blank(v[b - 1])
        invariant
            a <= b <= v.len(),
            tail(v@, a as int, v.len() as int) == tail(v@, a as int, b as int),
        decreases b,
    {
        b -= 1;
    }
    cut(s, a, b)
}

/// The text with every occurrence of `from` replaced by `to`.
pub fn replace_all(s: &str, from: &str, to: &str) -> (r: String)
    ensures
        r@ == replaced(s@, from@, to@),
{
    let v = to_chars(s);
    let p = to_chars(from);
    let mut out = String::new();
    let mut start: usize = 0;
    let mut i: usize = 0;
    while i < v.len()
        invariant
            v@ == s@,
            p@ == from@,
            start <= i <= v.len(),
            replaced(s@, from@, to@) == out@ + replaced_from(s@, from@, to@, start as int),
            replaced_from(s@, from@, to@, start as int) == s@.subrange(start as int, i as int)
                + replaced_from(s@, from@, to@, i as int),
        decreases v.len() - i,
    {
        if p.len() > 0 && match_at(&v, &p, i) {
            let piece = cut(s, start, i);
            out.append(piece.as_str());
            out.append(to);
            i = i + p.len();
            start = i;
            assert(s@.subrange(start as int, i as int) =~= Seq::<char>::empty());
            assert(replaced(s@, from@, to@) =~= out@ + replaced_from(s@, from@, to@, start as int));
        } else {
            assert(s@.subrange(start as int, i + 1) =~= s@.subrange(start as int, i as int)
                + seq![s@[i as int]]);
            i += 1;
        }
    }
    let piece = cut(s, start, i);
    out.append(piece.as_str());
    assert(replaced_from(s@, from@, to@, i as int) =~= Seq::<char>::empty());
    assert(out@ =~= replaced(s@, from@, to@));
    out
}

/// The pieces between the occurrences of `sep`.
pub fn split_on(s: &str, sep: char) -> (r: Vec<String>)
    ensures
        views(r@) == split(s@, sep),
{
    let v = to_chars(s);
    let mut out: Vec<String> = Vec::new();
    let mut start: usize = 0;
    let mut i: usize = 0;
    while i < v.len()
        invariant
            v@ == s@,
            start <= i <= v.len(),
            split(s@, sep) == views(out@) + split_from(s@, sep, start as int, i as int),
        decreases v.len() - i,
    {
        if v[i] == sep {
            let piece = cut(s, start, i);
            proof {
                lemma_views_push(out@, piece);
            }
            out.push(piece);
            start = i + 1;
        }
        i += 1;
    }
    let piece = cut(s, start, i);
    proof {
        lemma_views_push(out@, piece);
    }
    out.push(piece);
    out
}

/// The words of the text: its non-empty pieces between spaces and tabs.
pub fn split_words(s: &str) -> (r: Vec<String>)
    ensures
        views(r@) == words(s@),
{
    let v = to_chars(s);
    let mut out: Vec<String> = Vec::new();
    let mut start: usize = 0;
    let mut i: usize = 0;
    while i < v.len()
        invariant
            v@ == s@,
            start <= i <= v.len(),
            words(s@) == views(out@) + words_from(s@, start as int, i as int),
        decreases v.len() - i,
    {
        if gap(v[i]) {
            if start < i {
                let piece = cut(s, start, i);
                proof {
                    lemma_views_push(out@, piece);
                }
                out.push(piece);
            }
            start = i + 1;
        }
        i += 1;
    }
    if start < i {
        let piece = cut(s, start, i);
        proof {
            lemma_views_push(out@, piece);
        }
        out.push(piece);
    }
    out
}

/// The parts in order with `sep` between neighbours.
pub fn join(parts: &Vec<String>, sep: &str) -> (r: String)
    ensures
        r@ == joined(views(parts@), sep@),
{
    let mut out = String::new();
    let mut i: usize = 0;
    while i < parts.len()
        invariant
            i <= parts.len(),
            out@ == joined(views(parts@).take(i as int), sep@),
        decreases parts.len() - i,
    {
        proof {
            let a = views(parts@).take(i as int);
            let b = views(parts@).take(i + 1);
            assert(b.drop_last() =~= a);
            assert(b.last() == parts@[i as int]@);
            if i == 1 {
                assert(a.drop_last() =~= Seq::<Seq<char>>::empty());
            }
        }
        if i > 0 {
            out.append(sep);
        }
        out.append(parts[i].as_str());
        assert(out@ =~= joined(views(parts@).take(i + 1), sep@));
        i += 1;
    }
    assert(views(parts@).take(parts.len() as int) =~= views(parts@));
    out
}

/// One decimal digit as text.
pub fn digit_text(d: u64) -> (r: &'static str)
    requires
        d < 10,
    ensures
        r@ == seq![digit(d as int)],
{
    proof {
        reveal_strlit("0");
        reveal_strlit("1");
        reveal_strlit("2");
        reveal_strlit("3");
        reveal_strlit("4");
        reveal_strlit("5");
        reveal_strlit("6");
        reveal_strlit("7");
        reveal_strlit("8");
        reveal_strlit("9");
    }
    let r = if d == 0 {
        "0"
    } else if d == 1 {
        "1"
    } else if d == 2 {
        "2"
    } else if d == 3 {
        "3"
    } else if d == 4 {
        "4"
    } else if d == 5 {
        "5"
    } else if d == 6 {
        "6"
    } else if d == 7 {
        "7"
    } else if d == 8 {
        "8"
    } else {
        "9"
    };
    assert(r@ =~= seq![digit(d as int)]);
    r
}

/// The decimal numeral of `n`.
pub fn decimal_text(n: u64) -> (r: String)
    ensures
        r@ == decimal(n as nat),
    decreases n,
{
    if n < 10 {
        digit_text(n).to_owned()
    } else {
        let mut out = decimal_text(n / 10);
        out.append(digit_text(n % 10));
        assert(out@ =~= decimal(n as nat));
        out
    }
}

/// Appending an element appends its view.
pub proof fn lemma_views_push<T: View>(v: Seq<T>, x: T)
    ensures
        views(v.push(x)) == views(v).push(x@),
        views(v.push(x)) == views(v) + seq![x@],
{
    assert(views(v.push(x)) =~= views(v).push(x@));
    assert(views(v).push(x@) =~= views(v) + seq![x@]);
}

/// The two texts one behind the other.
pub fn cat2(a: &str, b: &str) -> (r: String)
    ensures
        r@ == a@ + b@,
{
    let mut out = String::from_str(a);
    out.append(b);
    out
}

/// The three texts one behind the other.
pub fn cat3(a: &str, b: &str, c: &str) -> (r: String)
    ensures
        r@ == a@ + b@ + c@,
{
    let mut out = String::from_str(a);
    out.append(b);
    out.append(c);
    out
}

/// The four texts one behind the other.
pub fn cat4(a: &str, b: &str, c: &str, d: &str) -> (r: String)
    ensures
        r@ == a@ + b@ + c@ + d@,
{
    let mut out = String::from_str(a);
    out.append(b);
    out.append(c);
    out.append(d);
    out
}

/// The five texts one behind the other.
pub fn cat5(a: &str, b: &str, c: &str, d: &str, e: &str) -> (r: String)
    ensures
        r@ == a@ + b@ + c@ + d@ + e@,
{
    let mut out = String::from_str(a);
    out.append(b);
    out.append(c);
    out.append(d);
    out.append(e);
    out
}

/// Appends a text to a list of texts.
pub fn push_text(list: &mut Vec<String>, item: String)
    ensures
        views(final(list)@) == views(old(list)@).push(item@),
{
    proof {
        lemma_views_push(list@, item);
    }
    list.push(item);
}

/// Appends the texts of one list to another.
pub fn push_all(list: &mut Vec<String>, items: &Vec<String>)
    ensures
        views(final(list)@) == views(old(list)@) + views(items@),
{
    let mut i: usize = 0;
    while i < items.len()
        invariant
            i <= items.len(),
            views(list@) == views(old(list)@) + views(items@).take(i as int),
        decreases items.len() - i,
    {
        let item = items[i].clone();
        proof {
            assert(views(items@).take(i + 1) =~= views(items@).take(i as int).push(item@));
            assert((views(old(list)@) + views(items@).take(i as int)).push(item@) =~= views(
                old(list)@,
            ) + views(items@).take(i + 1));
        }
        push_text(list, item);
        i += 1;
    }
    assert(views(items@).take(items.len() as int) =~= views(items@));
}

/// The pieces of `s` from `start` on, cut at each space or tab at or after
/// `i`; empty pieces stay.
pub open spec fn fields_from(s: Seq<char>, start: int, i: int) -> Seq<Seq<char>>
    decreases s.len() - i,
{
    if i < 0 || i >= s.len() {
        seq![s.subrange(start, s.len() as int)]
    } else if is_gap(s[i]) {
        seq![s.subrange(start, i)] + fields_from(s, i + 1, i + 1)
    } else {
        fields_from(s, start, i + 1)
    }
}

/// The pieces between spaces and tabs, empty ones too.
pub open spec fn fields(s: Seq<char>) -> Seq<Seq<char>> {
    fields_from(s, 0, 0)
}

/// The pieces between spaces and tabs, empty ones too.
pub fn split_fields(s: &str) -> (r: Vec<String>)
    ensures
        views(r@) == fields(s@),
        r.len() >= 1,
{
    let v = to_chars(s);
    let mut out: Vec<String> = Vec::new();
    let mut start: usize = 0;
    let mut i: usize = 0;
    while i < v.len()
        invariant
            v@ == s@,
            start <= i <= v.len(),
            fields(s@) == views(out@) + fields_from(s@, start as int, i as int),
        decreases v.len() - i,
    {
        if gap(v[i]) {
            let piece = cut(s, start, i);
            proof {
                lemma_views_push(out@, piece);
            }
            out.push(piece);
            start = i + 1;
        }
        i += 1;
    }
    let piece = cut(s, start, i);
    proof {
        lemma_views_push(out@, piece);
    }
    out.push(piece);
    out
}

/// Whether a character is a decimal digit.
pub open spec fn is_digit(c: char) -> bool {
    '0' <= c <= '9'
}

/// The number that a decimal digit stands for.
pub open spec fn digit_value(c: char) -> int {
    c as u32 - '0' as u32
}

/// The number that a run of decimal digits writes.
pub open spec fn digits_value(s: Seq<char>) -> int
    decreases s.len(),
{
    if s.len() == 0 {
        0
    } else {
        digits_value(s.drop_last()) * 10 + digit_value(s.last())
    }
}

/// Whether every character is a decimal digit.
pub open spec fn all_digits(s: Seq<char>) -> bool {
    forall|i: int| 0 <= i < s.len() ==> is_digit(#[trigger] s[i])
}

/// The digits of a numeral: what follows its sign, if it has one.
pub open spec fn numeral_body(s: Seq<char>) -> Seq<char> {
    if s.len() > 0 && (s[0] == '-' || s[0] == '+') {
        s.subrange(1, s.len() as int)
    } else {
        s
    }
}

/// The 32-bit integer that a decimal numeral writes: an optional sign, then
/// one digit or more, and a value in range.
pub open spec fn parsed_i32(s: Seq<char>) -> Option<int> {
    let body = numeral_body(s);
    let v = if s.len() > 0 && s[0] == '-' {
        -digits_value(body)
    } else {
        digits_value(body)
    };
    if body.len() > 0 && all_digits(body) && -2147483648 <= v <= 2147483647 {
        Some(v)
    } else {
        None
    }
}

/// More digits never write a smaller number.
pub proof fn lemma_digits_grow(s: Seq<char>, k: int)
    requires
        0 <= k <= s.len(),
        all_digits(s),
    ensures
        0 <= digits_value(s.take(k)) <= digits_value(s),
    decreases s.len() - k,
{
    if k < s.len() {
        lemma_digits_grow(s, k + 1);
        assert(s.take(k + 1).drop_last() =~= s.take(k));
        assert(is_digit(s[k]));
        lemma_digits_nonneg(s.take(k));
    } else {
        assert(s.take(k) =~= s);
        lemma_digits_nonneg(s);
    }
}

/// A run of digits writes no negative number.
pub proof fn lemma_digits_nonneg(s: Seq<char>)
    requires
        all_digits(s),
    ensures
        0 <= digits_value(s),
    decreases s.len(),
{
    if s.len() > 0 {
        assert(is_digit(s.last()));
        lemma_digits_nonneg(s.drop_last());
    }
}

/// Reads a decimal numeral of a 32-bit integer.
pub fn parse_i32(s: &str) -> (r: Option<i32>)
    ensures
        match r {
            Some(v) => parsed_i32(s@) == Some(v as int),
            None => parsed_i32(s@) is None,
        },
{
    let v = to_chars(s);
    if v.len() == 0 {
        return None;
    }
    let negative = v[0] == '-';
    let first: usize = if v[0] == '-' || v[0] == '+' {
        1
    } else {
        0
    };
    if first == v.len() {
        return None;
    }
    let ghost body = numeral_body(s@);
    assert(body =~= s@.subrange(first as int, s@.len() as int));
    let mut acc: i64 = 0;
    let mut i: usize = first;
    while i < v.len()
        invariant
            v@ == s@,
            v.len() > 0,
            first <= i <= v.len(),
            first < v.len(),
            first == (if s@[0] == '-' || s@[0] == '+' {
                1int
            } else {
                0int
            }),
            negative == (s@[0] == '-'),
            body == numeral_body(s@),
            body == s@.subrange(first as int, s@.len() as int),
            all_digits(body.take(i - first)),
            acc as int == digits_value(body.take(i - first)),
            0 <= acc <= 2147483648,
        decreases v.len() - i,
    {
        let c = v[i];
        if !(c >= '0' && c <= '9') {
            assert(!is_digit(body[i - first]));
            return None;
        }
        let d: i64 = (c as u32 - '0' as u32) as i64;
        proof {
            assert(body.take(i - first + 1).drop_last() =~= body.take(i - first));
            assert(body.take(i - first + 1).last() == c);
        }
        acc = acc * 10 + d;
        if acc > 2147483648 {
            proof {
                if all_digits(body) {
                    lemma_digits_grow(body, i - first + 1);
                }
            }
            return None;
        }
        i += 1;
    }
    assert(body.take(body.len() as int) =~= body);
    if negative {
        Some((-acc) as i32)
    } else if acc == 2147483648 {
        None
    } else {
        Some(acc as i32)
    }
}

/// Whether `a` comes before `b`, or equals it, in the order of their
/// characters from `i` on.
pub open spec fn lex_le_from(a: Seq<char>, b: Seq<char>, i: int) -> bool
    decreases a.len() - i,
{
    if i < 0 || i >= a.len() {
        true
    } else if i >= b.len() {
        false
    } else if a[i] != b[i] {
        (a[i] as u32) < (b[i] as u32)
    } else {
        lex_le_from(a, b, i + 1)
    }
}

/// Whether `a` comes before `b`, or equals it, in dictionary order by
/// character code.
pub open spec fn lex_le(a: Seq<char>, b: Seq<char>) -> bool {
    lex_le_from(a, b, 0)
}

/// Of two texts, one comes before the other or equals it.
pub proof fn lemma_lex_total(a: Seq<char>, b: Seq<char>, i: int)
    requires
        0 <= i,
    ensures
        lex_le_from(a, b, i) || lex_le_from(b, a, i),
    decreases a.len() - i,
{
    if i < a.len() && i < b.len() {
        if a[i] == b[i] {
            lemma_lex_total(a, b, i + 1);
        } else {
            vstd::utf8::char_u32_cast(a[i], a[i] as u32);
            vstd::utf8::char_u32_cast(b[i], b[i] as u32);
        }
    }
}

/// The dictionary order passes on: what comes before a text comes before
/// all that the text comes before.
pub proof fn lemma_lex_transitive(a: Seq<char>, b: Seq<char>, c: Seq<char>, i: int)
    requires
        0 <= i,
        lex_le_from(a, b, i),
        lex_le_from(b, c, i),
    ensures
        lex_le_from(a, c, i),
    decreases a.len() - i,
{
    if i < a.len() {
        if a[i] == b[i] && b[i] == c[i] {
            lemma_lex_transitive(a, b, c, i + 1);
        }
    }
}

/// Whether `a` comes before `b`, or equals it, in dictionary order by
/// character code.
pub fn ordered(a: &str, b: &str) -> (r: bool)
    ensures
        r == lex_le(a@, b@),
{
    let x = to_chars(a);
    let y = to_chars(b);
    let mut i: usize = 0;
    while i < x.len()
        invariant
            x@ == a@,
            y@ == b@,
            i <= x.len(),
            lex_le(x@, y@) == lex_le_from(x@, y@, i as int),
        decreases x.len() - i,
    {
        if i >= y.len() {
            return false;
        }
        if x[i] != y[i] {
            let p: u32 = x[i] as u32;
            let q: u32 = y[i] as u32;
            return p < q;
        }
        i += 1;
    }
    true
}

/// Whether the bytes from `start` up to `end` of the text's encoding are
/// whole characters of it.
pub open spec fn span_ok(content: Seq<char>, start: int, end: int) -> bool {
    let bytes = vstd::utf8::encode_utf8(content);
    &&& 0 <= start <= end
    &&& vstd::utf8::is_char_boundary(bytes, end)
    &&& vstd::utf8::is_char_boundary(bytes.subrange(0, end), start)
}

/// The characters that the bytes from `start` up to `end` encode.
pub open spec fn span_chars(content: Seq<char>, start: int, end: int) -> Seq<char> {
    vstd::utf8::decode_utf8(vstd::utf8::encode_utf8(content).subrange(start, end))
}

/// The part of a text between two byte offsets, where they bound whole
/// characters of it.
pub fn span_text(content: &str, start: usize, end: usize) -> (r: Option<String>)
    ensures
        match r {
            Some(t) => span_ok(content@, start as int, end as int) && t@ == span_chars(
                content@,
                start as int,
                end as int,
            ),
            None => !span_ok(content@, start as int, end as int),
        },
{
    if start > end || !content.is_char_boundary(end) {
        return None;
    }
    let head = content.split_at(end).0;
    if !head.is_char_boundary(start) {
        return None;
    }
    let part = head.split_at(start).1;
    proof {
        vstd::utf8::encode_utf8_decode_utf8(part@);
        let bytes = vstd::utf8::encode_utf8(content@);
        vstd::utf8::encode_utf8_valid_utf8(content@);
        lemma_boundary_in_range(bytes, end as int);
        assert(end <= bytes.len());
        assert(bytes.subrange(0, end as int).subrange(start as int, end as int) =~= bytes.subrange(
            start as int,
            end as int,
        ));
    }
    Some(part.to_owned())
}

/// A character boundary lies within the bytes.
pub proof fn lemma_boundary_in_range(bytes: Seq<u8>, index: int)
    requires
        vstd::utf8::valid_utf8(bytes),
        vstd::utf8::is_char_boundary(bytes, index),
    ensures
        0 <= index <= bytes.len(),
{
    reveal_with_fuel(vstd::utf8::is_char_boundary, 2);
}

/// Takes the line at a position out of a list of lines.
pub fn remove_line(lines: &mut Vec<String>, at: usize) -> (r: String)
    requires
        at < old(lines).len(),
    ensures
        views(final(lines)@) == views(old(lines)@).remove(at as int),
        r@ == views(old(lines)@)[at as int],
        final(lines).len() == old(lines).len() - 1,
{
    let r = lines.remove(at);
    assert(views(lines@) =~= views(old(lines)@).remove(at as int));
    r
}

/// Puts a line in the place of the one at a position.
pub fn set_line(lines: &mut Vec<String>, at: usize, line: String)
    requires
        at < old(lines).len(),
    ensures
        views(final(lines)@) == views(old(lines)@).update(at as int, line@),
        final(lines).len() == old(lines).len(),
{
    lines[at] = line;
    assert(views(lines@) =~= views(old(lines)@).update(at as int, line@));
}

/// Puts a line in before the one at a position.
pub fn insert_line(lines: &mut Vec<String>, at: usize, line: String)
    requires
        at <= old(lines).len(),
    ensures
        views(final(lines)@) == views(old(lines)@).insert(at as int, line@),
        final(lines).len() == old(lines).len() + 1,
{
    lines.insert(at, line);
    assert(views(lines@) =~= views(old(lines)@).insert(at as int, line@));
}

/// The lower-case form of an upper-case letter of the basic alphabet; any
/// other character as it is.
pub open spec fn lower(c: char) -> char {
    if 'A' <= c <= 'Z' {
        ((c as u32 + 32) as u8) as char
    } else {
        c
    }
}

/// The pattern stands in `s` at position `i` when letters of the basic
/// alphabet in `s` are read as lower-case.
pub open spec fn occurs_lowered_at(s: Seq<char>, p: Seq<char>, i: int) -> bool {
    &&& 0 <= i
    &&& i + p.len() <= s.len()
    &&& forall|k: int| 0 <= k < p.len() ==> lower(#[trigger] s[i + k]) == p[k]
}

/// Whether the pattern stands somewhere in `s` at or after `i` when letters
/// of the basic alphabet in `s` are read as lower-case.
pub open spec fn contains_lowered_from(s: Seq<char>, p: Seq<char>, i: int) -> bool
    decreases s.len() - i + 1,
{
    if i < 0 || i + p.len() > s.len() {
        false
    } else if occurs_lowered_at(s, p, i) {
        true
    } else {
        contains_lowered_from(s, p, i + 1)
    }
}

/// Whether the pattern stands somewhere in `s` when letters of the basic
/// alphabet in `s` are read as lower-case.
pub open spec fn contains_lowered(s: Seq<char>, p: Seq<char>) -> bool {
    contains_lowered_from(s, p, 0)
}

/// The lower-case form of a letter of the basic alphabet.
pub fn to_lower(c: char) -> (r: char)
    ensures
        r == lower(c),
{
    if c >= 'A' && c <= 'Z' {
        let u: u32 = c as u32 + 32;
        let b: u8 = u as u8;
        b as char
    } else {
        c
    }
}

/// Whether the pattern stands at a position when letters of the basic
/// alphabet are read as lower-case.
pub fn lowered_match_at(s: &Vec<char>, p: &Vec<char>, i: usize) -> (r: bool)
    ensures
        r == occurs_lowered_at(s@, p@, i as int),
{
    if p.len() > s.len() || i > s.len() - p.len() {
        return false;
    }
    let mut k: usize = 0;
    while k < p.len()
        invariant
            k <= p.len(),
            i + p.len() <= s.len(),
            forall|j: int| 0 <= j < k ==> lower(#[trigger] s@[i + j]) == p@[j],
        decreases p.len() - k,
    {
        if to_lower(s[i + k]) != p[k] {
            assert(lower(s@[i + k as int]) != p@[k as int]);
            return false;
        }
        k += 1;
    }
    true
}

/// Whether a text holds the pattern when letters of the basic alphabet in
/// it are read as lower-case.
pub fn has_lowered(s: &str, p: &str) -> (r: bool)
    ensures
        r == contains_lowered(s@, p@),
{
    let sv = to_chars(s);
    let pv = to_chars(p);
    if pv.len() > sv.len() {
        return false;
    }
    let last = sv.len() - pv.len();
    let mut i: usize = 0;
    while i <= last
        invariant
            sv@ == s@,
            pv@ == p@,
            last == sv.len() - pv.len(),
            contains_lowered(s@, p@) == contains_lowered_from(s@, p@, i as int),
        decreases last + 1 - i,
    {
        if lowered_match_at(&sv, &pv, i) {
            return true;
        }
        if i == last {
            assert(!contains_lowered_from(s@, p@, i + 1));
            return false;
        }
        i += 1;
    }
    false
}

/// Whether a text is the pattern when letters of the basic alphabet in it
/// are read as lower-case.
pub open spec fn equals_lowered(s: Seq<char>, p: Seq<char>) -> bool {
    s.len() == p.len() && occurs_lowered_at(s, p, 0)
}

/// Whether a text is the pattern when letters of the basic alphabet in it
/// are read as lower-case.
pub fn same_lowered(s: &str, p: &str) -> (r: bool)
    ensures
        r == equals_lowered(s@, p@),
{
    let sv = to_chars(s);
    let pv = to_chars(p);
    sv.len() == pv.len() && lowered_match_at(&sv, &pv, 0)
}

} // verus!
