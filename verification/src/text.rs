//! Character-level text helpers shared by the other modules: equality,
//! the byte-wise (equivalently, code-point-wise) order of strings, sorting,
//! ASCII case folding, trimming and decimal rendering.

use vstd::prelude::*;
use vstd::relations::{sorted_by, total_ordering};

verus! {

broadcast use vstd::seq_lib::group_to_multiset_ensures;

/// The characters of `s`, in order.
pub fn chars_of(s: &str) -> (r: Vec<char>)
    ensures
        r@ == s@,
{
    let mut out: Vec<char> = Vec::new();
    for c in it: s.chars()
        invariant
            out@ == it.seq().take(it.index() as int),
            it.seq() == s@,
    {
        out.push(c);
    }
    out
}

/// Whether `a` and `b` hold the same characters.
pub fn same_text(a: &str, b: &str) -> (r: bool)
    ensures
        r == (a@ == b@),
{
    let x = chars_of(a);
    let y = chars_of(b);
    if x.len() != y.len() {
        return false;
    }
    let mut i: usize = 0;
    while i < x.len()
        invariant
            x@ == a@,
            y@ == b@,
            x.len() == y.len(),
            i <= x.len(),
            forall|k: int| 0 <= k < i ==> x@[k] == y@[k],
        decreases x.len() - i,
    {
        if x[i] != y[i] {
            return false;
        }
        i = i + 1;
    }
    assert(x@ =~= y@);
    true
}

/// A fresh `String` holding the characters of `s`.
pub fn owned(s: &str) -> (r: String)
    ensures
        r@ == s@,
{
    String::from_str(s)
}

/// `a` followed by `b`.
pub fn join2(a: &str, b: &str) -> (r: String)
    ensures
        r@ == a@ + b@,
{
    let mut out = String::from_str(a);
    out.append(b);
    out
}

/// `a`, `b` and `c` one after the other.
pub fn join3(a: &str, b: &str, c: &str) -> (r: String)
    ensures
        r@ == a@ + b@ + c@,
{
    let mut out = String::from_str(a);
    out.append(b);
    out.append(c);
    out
}

/// Appends one character to a string (`String::push`).
#[verifier::external_body]
pub(crate) fn push_char(s: &mut String, c: char)
    ensures
        final(s)@ == old(s)@.push(c),
{
    s.push(c);
}

// ---------------------------------------------------------------------------
// Order of strings
// ---------------------------------------------------------------------------
/// `a` sorts no later than `b`. Strings compare byte by byte in their UTF-8
/// encoding; UTF-8 preserves the order of code points, so this is the
/// lexicographic order of the characters.
pub open spec fn text_le(a: Seq<char>, b: Seq<char>) -> bool
    decreases a.len(),
{
    if a.len() == 0 {
        true
    } else if b.len() == 0 {
        false
    } else if a[0] != b[0] {
        a[0] < b[0]
    } else {
        text_le(a.drop_first(), b.drop_first())
    }
}

/// The order `text_le` as a relation.
pub open spec fn text_order() -> spec_fn(Seq<char>, Seq<char>) -> bool {
    |a: Seq<char>, b: Seq<char>| text_le(a, b)
}

/// The character views of a sequence of strings.
pub open spec fn views(s: Seq<String>) -> Seq<Seq<char>> {
    s.map_values(|x: String| x@)
}

proof fn lemma_text_le_reflexive(a: Seq<char>)
    ensures
        text_le(a, a),
    decreases a.len(),
{
    if a.len() > 0 {
        lemma_text_le_reflexive(a.drop_first());
    }
}

proof fn lemma_text_le_antisymmetric(a: Seq<char>, b: Seq<char>)
    requires
        text_le(a, b),
        text_le(b, a),
    ensures
        a == b,
    decreases a.len(),
{
    if a.len() > 0 && b.len() > 0 {
        lemma_text_le_antisymmetric(a.drop_first(), b.drop_first());
        assert(a =~= seq![a[0]] + a.drop_first());
        assert(b =~= seq![b[0]] + b.drop_first());
    }
}

proof fn lemma_text_le_transitive(a: Seq<char>, b: Seq<char>, c: Seq<char>)
    requires
        text_le(a, b),
        text_le(b, c),
    ensures
        text_le(a, c),
    decreases a.len(),
{
    if a.len() > 0 && b.len() > 0 && c.len() > 0 && a[0] == b[0] && b[0] == c[0] {
        lemma_text_le_transitive(a.drop_first(), b.drop_first(), c.drop_first());
    }
}

proof fn lemma_text_le_total(a: Seq<char>, b: Seq<char>)
    ensures
        text_le(a, b) || text_le(b, a),
    decreases a.len(),
{
    if a.len() > 0 && b.len() > 0 && a[0] == b[0] {
        lemma_text_le_total(a.drop_first(), b.drop_first());
    }
}

/// `text_le` is a total order.
pub proof fn lemma_text_order_total()
    ensures
        total_ordering(text_order()),
{
    assert forall|x: Seq<char>| #[trigger] text_order()(x, x) by {
        lemma_text_le_reflexive(x);
    }
    assert forall|x: Seq<char>, y: Seq<char>|
        #[trigger] text_order()(x, y) && #[trigger] text_order()(y, x) implies x == y by {
        lemma_text_le_antisymmetric(x, y);
    }
    assert forall|x: Seq<char>, y: Seq<char>, z: Seq<char>|
        #[trigger] text_order()(x, y) && #[trigger] text_order()(y, z) implies text_order()(
        x,
        z,
    ) by {
        lemma_text_le_transitive(x, y, z);
    }
    assert forall|x: Seq<char>, y: Seq<char>|
        #[trigger] text_order()(x, y) || #[trigger] text_order()(y, x) by {
        lemma_text_le_total(x, y);
    }
}

/// `a` is a prefix of `b`.
pub open spec fn is_text_prefix(a: Seq<char>, b: Seq<char>) -> bool {
    a.len() <= b.len() && b.take(a.len() as int) == a
}

/// `a` and `b` first differ at position `k`, where `a` has the smaller code point.
pub open spec fn first_smaller_at(a: Seq<char>, b: Seq<char>, k: int) -> bool {
    &&& 0 <= k < a.len()
    &&& k < b.len()
    &&& a.take(k) == b.take(k)
    &&& (a[k] as int) < (b[k] as int)
}

/// The order of strings is the lexicographic order of their code points, as
/// `String`'s `Ord` orders them: `a` sorts no later than `b` exactly when `a`
/// is a prefix of `b`, or at the first position where they differ `a` has the
/// smaller code point.
pub proof fn lemma_text_le_is_code_point_order(a: Seq<char>, b: Seq<char>)
    ensures
        text_le(a, b) <==> (is_text_prefix(a, b) || exists|k: int| first_smaller_at(a, b, k)),
    decreases a.len(),
{
    if a.len() == 0 {
        assert(b.take(0) =~= a);
    } else if b.len() == 0 {
        assert forall|k: int| !first_smaller_at(a, b, k) by {}
    } else if a[0] != b[0] {
        if (a[0] as int) < (b[0] as int) {
            assert(a.take(0) =~= b.take(0));
            assert(first_smaller_at(a, b, 0));
        } else {
            assert forall|k: int| !first_smaller_at(a, b, k) by {
                if 0 < k && k < a.len() && k < b.len() && a.take(k) == b.take(k) {
                    assert(a.take(k)[0] == b.take(k)[0]);
                }
            }
            if is_text_prefix(a, b) {
                assert(b.take(a.len() as int)[0] == b[0]);
            }
        }
    } else {
        let a1 = a.drop_first();
        let b1 = b.drop_first();
        lemma_text_le_is_code_point_order(a1, b1);
        if is_text_prefix(a1, b1) {
            assert(b.take(a.len() as int) =~= seq![a[0]] + b1.take(a1.len() as int));
            assert(a =~= seq![a[0]] + a1);
        }
        if is_text_prefix(a, b) {
            assert(b1.take(a1.len() as int) =~= b.take(a.len() as int).drop_first());
        }
        if exists|k: int| first_smaller_at(a1, b1, k) {
            let k = choose|k: int| first_smaller_at(a1, b1, k);
            assert(a.take(k + 1) =~= seq![a[0]] + a1.take(k));
            assert(b.take(k + 1) =~= seq![b[0]] + b1.take(k));
            assert(first_smaller_at(a, b, k + 1));
        }
        if exists|k: int| first_smaller_at(a, b, k) {
            let k = choose|k: int| first_smaller_at(a, b, k);
            if k == 0 {
                assert(false);
            } else {
                assert(a1.take(k - 1) =~= a.take(k).drop_first());
                assert(b1.take(k - 1) =~= b.take(k).drop_first());
                assert(first_smaller_at(a1, b1, k - 1));
            }
        }
    }
}

/// Two different characters are ordered by their code points.
pub proof fn lemma_char_order(x: char, y: char)
    requires
        x != y,
    ensures
        text_le(seq![x], seq![y]) <==> (x as int) < (y as int),
{
    assert(seq![x].drop_first() =~= Seq::<char>::empty());
}

/// Whether `a` sorts no later than `b`.
pub fn text_le_exec(a: &str, b: &str) -> (r: bool)
    ensures
        r == text_le(a@, b@),
{
    let x = chars_of(a);
    let y = chars_of(b);
    assert(a@.skip(0) =~= a@);
    assert(b@.skip(0) =~= b@);
    let mut i: usize = 0;
    while i < x.len() && i < y.len()
        invariant
            x@ == a@,
            y@ == b@,
            i <= x.len(),
            i <= y.len(),
            text_le(a@, b@) == text_le(a@.skip(i as int), b@.skip(i as int)),
        decreases x.len() - i,
    {
        assert(a@.skip(i as int).drop_first() =~= a@.skip(i + 1));
        assert(b@.skip(i as int).drop_first() =~= b@.skip(i + 1));
        if x[i] != y[i] {
            return x[i] < y[i];
        }
        i = i + 1;
    }
    i == x.len()
}

/// The strings of `names`, sorted ascending (as `slice::sort` orders
/// `String`s).
pub fn sort_texts(names: &Vec<String>) -> (r: Vec<String>)
    ensures
        sorted_by(views(r@), text_order()),
        views(r@).to_multiset() == views(names@).to_multiset(),
{
    let mut out: Vec<String> = Vec::new();
    let mut i: usize = 0;
    assert(views(names@).take(0) =~= Seq::<Seq<char>>::empty());
    while i < names.len()
        invariant
            i <= names.len(),
            sorted_by(views(out@), text_order()),
            views(out@).to_multiset() == views(names@).take(i as int).to_multiset(),
        decreases names.len() - i,
    {
        let s = names[i].clone();
        let mut pos: usize = 0;
        while pos < out.len() && text_le_exec(out[pos].as_str(), s.as_str())
            invariant
                pos <= out.len(),
                forall|k: int| 0 <= k < pos ==> text_le(#[trigger] views(out@)[k], s@),
            decreases out.len() - pos,
        {
            pos = pos + 1;
        }
        proof {
            lemma_text_order_total();
            if pos < out.len() {
                lemma_text_le_total(s@, out@[pos as int]@);
            }
            assert forall|k: int| pos <= k < out@.len() implies text_le(s@, #[trigger] views(out@)[k]) by {
                if k > pos {
                    assert(text_order()(views(out@)[pos as int], views(out@)[k]));
                    lemma_text_le_transitive(s@, views(out@)[pos as int], views(out@)[k]);
                }
            }
        }
        let ghost before = out@;
        out.insert(pos, s);
        proof {
            assert(views(out@) =~= views(before).insert(pos as int, s@));
            assert(views(names@).take(i + 1) =~= views(names@).take(i as int).push(s@));
            assert forall|a: int, b: int| 0 <= a < b < views(out@).len() implies #[trigger] text_order()(
                views(out@)[a],
                views(out@)[b],
            ) by {
                let va = views(out@)[a];
                let vb = views(out@)[b];
                if a < pos && b > pos {
                    assert(text_le(va, s@));
                    assert(text_le(s@, views(before)[b - 1]));
                    lemma_text_le_transitive(va, s@, vb);
                } else if a < pos && b < pos {
                    assert(text_order()(views(before)[a], views(before)[b]));
                } else if a > pos {
                    assert(text_order()(views(before)[a - 1], views(before)[b - 1]));
                } else if a == pos {
                    assert(text_le(s@, views(before)[b - 1]));
                } else {
                    assert(text_le(views(before)[a], s@));
                }
            }
        }
        i = i + 1;
    }
    assert(views(names@).take(names.len() as int) =~= views(names@));
    out
}

/// Every element sorts strictly before the ones after it.
pub open spec fn strictly_ascending(s: Seq<Seq<char>>) -> bool {
    forall|a: int, b: int| 0 <= a < b < s.len() ==> text_le(s[a], s[b]) && s[a] != s[b]
}

proof fn lemma_push_keeps_ascending(s: Seq<Seq<char>>, x: Seq<char>)
    requires
        strictly_ascending(s),
        s.len() > 0 ==> text_le(s.last(), x) && s.last() != x,
    ensures
        strictly_ascending(s.push(x)),
{
    assert forall|a: int, b: int| 0 <= a < b < s.push(x).len() implies text_le(
        s.push(x)[a],
        s.push(x)[b],
    ) && s.push(x)[a] != s.push(x)[b] by {
        if b == s.len() && a < s.len() - 1 {
            lemma_text_le_transitive(s[a], s.last(), x);
            if s[a] == x {
                lemma_text_le_antisymmetric(s.last(), x);
            }
        }
    }
}

/// Keeps the first of each run of equal strings in a sorted sequence.
pub fn dedup_sorted(names: &Vec<String>) -> (r: Vec<String>)
    requires
        sorted_by(views(names@), text_order()),
    ensures
        strictly_ascending(views(r@)),
        views(r@).to_set() == views(names@).to_set(),
{
    let mut out: Vec<String> = Vec::new();
    let mut i: usize = 0;
    while i < names.len()
        invariant
            i <= names.len(),
            sorted_by(views(names@), text_order()),
            strictly_ascending(views(out@)),
            views(out@).to_set() == views(names@).take(i as int).to_set(),
            i > 0 ==> out@.len() > 0 && views(out@).last() == views(names@)[i - 1],
            i == 0 ==> out@.len() == 0,
        decreases names.len() - i,
    {
        let ghost before = out@;
        let keep = out.len() == 0 || !same_text(out[out.len() - 1].as_str(), names[i].as_str());
        if keep {
            out.push(names[i].clone());
        }
        proof {
            assert(views(names@).take(i + 1) =~= views(names@).take(i as int).push(
                views(names@)[i as int],
            ));
            if keep {
                assert(views(out@) =~= views(before).push(views(names@)[i as int]));
                if i > 0 {
                    assert(text_order()(views(names@)[i - 1], views(names@)[i as int]));
                }
                lemma_push_keeps_ascending(views(before), views(names@)[i as int]);
                views(before).lemma_push_to_set_commute(views(names@)[i as int]);
                views(names@).take(i as int).lemma_push_to_set_commute(views(names@)[i as int]);
            } else {
                assert(views(out@) =~= views(before));
                views(names@).take(i as int).lemma_push_to_set_commute(views(names@)[i as int]);
                assert(views(before).to_set().contains(views(before)[views(before).len() - 1]));
                assert(views(names@).take(i as int).to_set().insert(views(names@)[i as int])
                    =~= views(names@).take(i as int).to_set());
            }
        }
        i = i + 1;
    }
    assert(views(names@).take(names.len() as int) =~= views(names@));
    out
}

// ---------------------------------------------------------------------------
// ASCII case folding
// ---------------------------------------------------------------------------
/// `c` with an ASCII upper-case letter mapped to its lower-case form.
pub open spec fn ascii_lower(c: char) -> char {
    if 'A' <= c <= 'Z' {
        ((c as int) + 32) as char
    } else {
        c
    }
}

/// `c` with an ASCII lower-case letter mapped to its upper-case form.
pub open spec fn ascii_upper(c: char) -> char {
    if 'a' <= c <= 'z' {
        ((c as int) - 32) as char
    } else {
        c
    }
}

/// Whether two characters are equal up to ASCII case.
pub open spec fn same_ignoring_ascii_case(a: char, b: char) -> bool {
    ascii_lower(a) == ascii_lower(b)
}

/// `str::eq_ignore_ascii_case`: equal length, and equal characters up to ASCII case.
pub open spec fn eq_ignore_ascii_case(a: Seq<char>, b: Seq<char>) -> bool {
    a.len() == b.len() && forall|i: int|
        0 <= i < a.len() ==> same_ignoring_ascii_case(#[trigger] a[i], b[i])
}

/// `a.to_ascii_lowercase().ends_with(suffix)` for a lower-case `suffix`.
pub open spec fn ends_with_ignore_ascii_case(a: Seq<char>, suffix: Seq<char>) -> bool {
    a.len() >= suffix.len() && eq_ignore_ascii_case(a.skip(a.len() - suffix.len()), suffix)
}

fn same_char_ignoring_ascii_case(a: char, b: char) -> (r: bool)
    ensures
        r == same_ignoring_ascii_case(a, b),
{
    let la: u32 = if 'A' <= a && a <= 'Z' {
        (a as u32) + 32
    } else {
        a as u32
    };
    let lb: u32 = if 'A' <= b && b <= 'Z' {
        (b as u32) + 32
    } else {
        b as u32
    };
    la == lb
}

fn eq_ignore_ascii_case_from(a: &Vec<char>, start: usize, b: &Vec<char>) -> (r: bool)
    requires
        start <= a.len(),
    ensures
        r == eq_ignore_ascii_case(a@.skip(start as int), b@),
{
    if a.len() - start != b.len() {
        assert(a@.skip(start as int).len() != b@.len());
        return false;
    }
    let mut i: usize = 0;
    while i < b.len()
        invariant
            start <= a.len(),
            a.len() - start == b.len(),
            i <= b.len(),
            forall|k: int|
                0 <= k < i ==> same_ignoring_ascii_case(#[trigger] a@.skip(start as int)[k], b@[k]),
        decreases b.len() - i,
    {
        if !same_char_ignoring_ascii_case(a[start + i], b[i]) {
            assert(!same_ignoring_ascii_case(a@.skip(start as int)[i as int], b@[i as int]));
            return false;
        }
        i = i + 1;
    }
    true
}

/// `str::eq_ignore_ascii_case`.
pub fn eq_ignore_ascii_case_exec(a: &str, b: &str) -> (r: bool)
    ensures
        r == eq_ignore_ascii_case(a@, b@),
{
    let x = chars_of(a);
    let y = chars_of(b);
    assert(x@.skip(0) =~= x@);
    eq_ignore_ascii_case_from(&x, 0, &y)
}

/// Whether `a`, folded to ASCII lower case, ends with `suffix`.
pub fn ends_with_ignore_ascii_case_exec(a: &str, suffix: &str) -> (r: bool)
    ensures
        r == ends_with_ignore_ascii_case(a@, suffix@),
{
    let x = chars_of(a);
    let y = chars_of(suffix);
    if x.len() < y.len() {
        return false;
    }
    eq_ignore_ascii_case_from(&x, x.len() - y.len(), &y)
}

// ---------------------------------------------------------------------------
// Whitespace and trimming
// ---------------------------------------------------------------------------
/// `char::is_whitespace`: whether `c` has the Unicode `White_Space`
/// property (tab, line feed, vertical tab, form feed, carriage return,
/// space, next line, no-break space, ogham space mark, the spaces from en
/// quad to hair space, line and paragraph separators, narrow no-break space,
/// medium mathematical space and ideographic space).
pub open spec fn char_is_whitespace(c: char) -> bool {
    let u = c as u32;
    (0x9 <= u <= 0xD) || u == 0x20 || u == 0x85 || u == 0xA0 || u == 0x1680 || (0x2000 <= u
        <= 0x200A) || u == 0x2028 || u == 0x2029 || u == 0x202F || u == 0x205F || u == 0x3000
}

fn is_whitespace(c: char) -> (r: bool)
    ensures
        r == char_is_whitespace(c),
{
    let u = c as u32;
    (0x9 <= u && u <= 0xD) || u == 0x20 || u == 0x85 || u == 0xA0 || u == 0x1680 || (0x2000 <= u
        && u <= 0x200A) || u == 0x2028 || u == 0x2029 || u == 0x202F || u == 0x205F || u == 0x3000
}

/// `s` without its leading whitespace.
pub open spec fn trim_start(s: Seq<char>) -> Seq<char>
    decreases s.len(),
{
    if s.len() > 0 && char_is_whitespace(s[0]) {
        trim_start(s.drop_first())
    } else {
        s
    }
}

/// `s` without its trailing whitespace.
pub open spec fn trim_end(s: Seq<char>) -> Seq<char>
    decreases s.len(),
{
    if s.len() > 0 && char_is_whitespace(s.last()) {
        trim_end(s.drop_last())
    } else {
        s
    }
}

/// `str::trim`: `s` without leading and trailing whitespace.
pub open spec fn trimmed(s: Seq<char>) -> Seq<char> {
    trim_end(trim_start(s))
}

/// `str::trim` followed by `to_string`.
pub fn trim(s: &str) -> (r: String)
    ensures
        r@ == trimmed(s@),
{
    let x = chars_of(s);
    assert(s@.skip(0) =~= s@);
    let mut lo: usize = 0;
    while lo < x.len() && is_whitespace(x[lo])
        invariant
            x@ == s@,
            lo <= x.len(),
            trim_start(s@) == trim_start(s@.skip(lo as int)),
        decreases x.len() - lo,
    {
        assert(s@.skip(lo as int).drop_first() =~= s@.skip(lo + 1));
        lo = lo + 1;
    }
    assert(trim_start(s@) == s@.skip(lo as int));
    let mut hi: usize = x.len();
    while hi > lo && is_whitespace(x[hi - 1])
        invariant
            x@ == s@,
            lo <= hi <= x.len(),
            trim_end(s@.skip(lo as int)) == trim_end(s@.subrange(lo as int, hi as int)),
        decreases hi,
    {
        assert(s@.subrange(lo as int, hi as int).drop_last() =~= s@.subrange(
            lo as int,
            hi - 1,
        ));
        hi = hi - 1;
    }
    assert(s@.skip(lo as int) =~= s@.subrange(lo as int, x.len() as int)) by {
    }
    let mut out = String::new();
    let mut k: usize = lo;
    while k < hi
        invariant
            x@ == s@,
            lo <= k <= hi <= x.len(),
            out@ == s@.subrange(lo as int, k as int),
        decreases hi - k,
    {
        push_char(&mut out, x[k]);
        assert(s@.subrange(lo as int, k + 1) =~= s@.subrange(lo as int, k as int).push(x@[k as int]));
        k = k + 1;
    }
    out
}

// ---------------------------------------------------------------------------
// Decimal numbers
// ---------------------------------------------------------------------------
/// The decimal digit character for `d < 10`.
pub open spec fn digit_char(d: nat) -> char {
    ((('0' as int) + d) as char)
}

/// The decimal rendering of `n`, without sign or leading zeros.
pub open spec fn decimal(n: nat) -> Seq<char>
    decreases n,
{
    if n < 10 {
        seq![digit_char(n)]
    } else {
        decimal(n / 10).push(digit_char(n % 10))
    }
}

fn append_decimal(out: &mut String, n: u64)
    ensures
        final(out)@ == old(out)@ + decimal(n as nat),
    decreases n,
{
    if n >= 10 {
        append_decimal(out, n / 10);
    }
    let d: u8 = (n % 10) as u8;
    let c = (48u8 + d) as char;
    assert(c == digit_char((n % 10) as nat));
    push_char(out, c);
    proof {
        if n >= 10 {
            assert(decimal(n as nat) == decimal((n / 10) as nat).push(digit_char((n % 10) as nat)));
        } else {
            assert(decimal(n as nat) == seq![digit_char(n as nat)]);
        }
    }
}

/// The decimal rendering of `n`, as `u64::to_string` writes it.
pub fn decimal_text(n: u64) -> (r: String)
    ensures
        r@ == decimal(n as nat),
{
    let mut out = String::new();
    append_decimal(&mut out, n);
    assert(out@ =~= decimal(n as nat));
    out
}

} // verus!
