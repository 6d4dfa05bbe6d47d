//! Strings as sequences of characters: equality, order, building.

use vstd::prelude::*;
use vstd::string::*;
use vstd::std_specs::iter::IteratorSpec;

verus! {

/// `String::push` of the standard library: the character is appended and
/// nothing else changes.
pub assume_specification[ String::push ](s: &mut String, c: char)
    ensures
        final(s)@ == old(s)@.push(c),
;

/// Whether `c` is alphabetic or numeric, as `char::is_alphanumeric` of the
/// standard library decides it from the Unicode tables.
pub uninterp spec fn is_alphanumeric_char(c: char) -> bool;

/// `char::is_alphanumeric` of the standard library: a function of the
/// character alone.
pub assume_specification[ char::is_alphanumeric ](c: char) -> (r: bool)
    ensures
        r == is_alphanumeric_char(c),
;

/// The characters of `s`, in order.
pub fn chars_of(s: &str) -> (v: Vec<char>)
    ensures
        v@ == s@,
{
    let mut v: Vec<char> = Vec::new();
    let chars = s.chars();
    for c in it: chars
        invariant
            it.seq() == s@,
            v@ == s@.take(it.index() as int),
    {
        v.push(c);
    }
    v
}

/// A string holding exactly the characters of `v`.
pub fn string_of(v: &Vec<char>) -> (s: String)
    ensures
        s@ == v@,
{
    let mut s = String::new();
    let mut i: usize = 0;
    while i < v.len()
        invariant
            i <= v.len(),
            s@ == v@.take(i as int),
        decreases v.len() - i,
    {
        s.push(v[i]);
        i += 1;
    }
    s
}

/// Whether `a` and `b` hold the same characters.
pub fn same_text(a: &str, b: &str) -> (r: bool)
    ensures
        r == (a@ == b@),
{
    let x = chars_of(a);
    let y = chars_of(b);
    if x.len() != y.len() {
        return false;
    }
    let mut i: usize = 0;
    while i < x.len()
        invariant
            i <= x.len(),
            x.len() == y.len(),
            x@ == a@,
            y@ == b@,
            forall|k: int| 0 <= k < i ==> x@[k] == y@[k],
        decreases x.len() - i,
    {
        if x[i] != y[i] {
            return false;
        }
        i += 1;
    }
    assert(a@ =~= b@);
    true
}

/// The position of a first difference between `a` and `b` at or after `i`,
/// or the shorter length where one runs out first.
pub open spec fn first_difference(a: Seq<char>, b: Seq<char>, i: int) -> int
    decreases a.len() - i,
{
    if 0 <= i < a.len() && i < b.len() && a[i] == b[i] {
        first_difference(a, b, i + 1)
    } else {
        i
    }
}

/// Lexicographic order by character value, a proper prefix first. This is the
/// order of `str` in the standard library.
pub open spec fn lex_le(a: Seq<char>, b: Seq<char>) -> bool {
    let k = first_difference(a, b, 0);
    k >= a.len() || (k < b.len() && a[k] < b[k])
}

/// Strict lexicographic order.
pub open spec fn lex_lt(a: Seq<char>, b: Seq<char>) -> bool {
    lex_le(a, b) && a != b
}

/// What `first_difference` finds: the two agree before it, and differ at it
/// unless one of them ends there.
pub proof fn lemma_first_difference(a: Seq<char>, b: Seq<char>, i: int)
    requires
        0 <= i <= a.len(),
        i <= b.len(),
    ensures
        i <= first_difference(a, b, i) <= a.len(),
        first_difference(a, b, i) <= b.len(),
        forall|k: int| i <= k < first_difference(a, b, i) ==> a[k] == b[k],
        first_difference(a, b, i) < a.len() && first_difference(a, b, i) < b.len()
            ==> a[first_difference(a, b, i)] != b[first_difference(a, b, i)],
    decreases a.len() - i,
{
    if i < a.len() && i < b.len() && a[i] == b[i] {
        lemma_first_difference(a, b, i + 1);
    }
}

/// A position where the two differ after agreeing up to it is the first
/// difference.
pub proof fn lemma_first_difference_is(a: Seq<char>, b: Seq<char>, i: int, k: int)
    requires
        0 <= i <= k,
        k <= a.len(),
        k <= b.len(),
        forall|j: int| i <= j < k ==> a[j] == b[j],
        k < a.len() && k < b.len() ==> a[k] != b[k],
    ensures
        first_difference(a, b, i) == k,
    decreases k - i,
{
    if i < k {
        lemma_first_difference_is(a, b, i + 1, k);
    }
}

/// Every string is below or equal to itself.
pub proof fn lemma_lex_le_reflexive(a: Seq<char>)
    ensures
        lex_le(a, a),
{
    lemma_first_difference_is(a, a, 0, a.len() as int);
}

/// Of two strings one is below or equal to the other.
pub proof fn lemma_lex_le_total(a: Seq<char>, b: Seq<char>)
    ensures
        lex_le(a, b) || lex_le(b, a),
{
    lemma_first_difference(a, b, 0);
    let k = first_difference(a, b, 0);
    lemma_first_difference_is(b, a, 0, k);
}

/// Two strings each below or equal to the other are the same string.
pub proof fn lemma_lex_le_antisymmetric(a: Seq<char>, b: Seq<char>)
    requires
        lex_le(a, b),
        lex_le(b, a),
    ensures
        a == b,
{
    lemma_first_difference(a, b, 0);
    let k = first_difference(a, b, 0);
    lemma_first_difference_is(b, a, 0, k);
    assert(a =~= b);
}

/// The order is transitive.
pub proof fn lemma_lex_le_transitive(a: Seq<char>, b: Seq<char>, c: Seq<char>)
    requires
        lex_le(a, b),
        lex_le(b, c),
    ensures
        lex_le(a, c),
{
    lemma_first_difference(a, b, 0);
    lemma_first_difference(b, c, 0);
    let k1 = first_difference(a, b, 0);
    let k2 = first_difference(b, c, 0);
    if k1 >= a.len() {
        if k2 >= a.len() {
            lemma_first_difference_is(a, c, 0, a.len() as int);
        } else {
            lemma_first_difference_is(a, c, 0, k2);
        }
    } else if k1 <= k2 {
        if k1 < k2 {
            assert(b[k1] == c[k1]);
        }
        lemma_first_difference_is(a, c, 0, k1);
    } else {
        lemma_first_difference_is(a, c, 0, k2);
    }
}

/// Whether the characters `x` come before the characters `y` or equal them,
/// in lexicographic order.
pub fn chars_le(x: &Vec<char>, y: &Vec<char>) -> (r: bool)
    ensures
        r == lex_le(x@, y@),
{
    let mut i: usize = 0;
    while i < x.len() && i < y.len()
        invariant
            i <= x.len(),
            i <= y.len(),
            forall|k: int| 0 <= k < i ==> x@[k] == y@[k],
        decreases x.len() - i,
    {
        if x[i] != y[i] {
            proof {
                lemma_first_difference_is(x@, y@, 0, i as int);
            }
            return x[i] < y[i];
        }
        i += 1;
    }
    proof {
        lemma_first_difference_is(x@, y@, 0, i as int);
    }
    i >= x.len()
}

/// Whether `a` comes before `b` or equals it, in lexicographic order.
pub fn text_le(a: &str, b: &str) -> (r: bool)
    ensures
        r == lex_le(a@, b@),
{
    let x = chars_of(a);
    let y = chars_of(b);
    chars_le(&x, &y)
}

/// Whether `a` comes strictly before `b`.
pub fn text_lt(a: &str, b: &str) -> (r: bool)
    ensures
        r == lex_lt(a@, b@),
{
    let le = text_le(a, b);
    let ge = text_le(b, a);
    proof {
        if le && ge {
            lemma_lex_le_antisymmetric(a@, b@);
        }
        if a@ == b@ {
            lemma_lex_le_reflexive(a@);
        }
    }
    le && !ge
}

/// The character of the decimal digit `d`.
pub open spec fn digit_char(d: nat) -> char
    recommends
        d < 10,
{
    (48 + d) as u8 as char
}

/// The decimal digits of `n`, most significant first, without leading zeros.
pub open spec fn decimal_digits(n: nat) -> Seq<char>
    decreases n,
{
    if n < 10 {
        seq![digit_char(n)]
    } else {
        decimal_digits(n / 10).push(digit_char(n % 10))
    }
}

/// `n` written in decimal.
pub fn decimal(n: u128) -> (s: String)
    ensures
        s@ == decimal_digits(n as nat),
{
    let mut rev: Vec<char> = Vec::new();
    let mut rest: u128 = n;
    let ghost mut tail: Seq<char> = Seq::empty();
    while rest >= 10
        invariant
            tail.len() == rev.len(),
            forall|k: int| 0 <= k < rev.len() ==> rev@[k] == tail[tail.len() - 1 - k],
            decimal_digits(n as nat) == decimal_digits(rest as nat) + tail,
        decreases rest,
    {
        let d: u8 = (rest % 10) as u8;
        let c: char = (48u8 + d) as char;
        proof {
            let t = seq![c] + tail;
            assert(decimal_digits(rest as nat) == decimal_digits((rest / 10) as nat).push(c));
            assert(decimal_digits((rest / 10) as nat).push(c) + tail =~= decimal_digits(
                (rest / 10) as nat,
            ) + t);
            assert forall|k: int| 0 <= k < rev.len() + 1 implies rev@.push(c)[k] == t[t.len() - 1 - k] by {
                if k < rev.len() {
                    assert(t[t.len() - 1 - k] == tail[tail.len() - 1 - k]);
                }
            }
            tail = t;
        }
        rev.push(c);
        rest = rest / 10;
    }
    let last: char = (48u8 + (rest as u8)) as char;
    let mut s = String::new();
    s.push(last);
    let mut i: usize = rev.len();
    assert(decimal_digits(rest as nat) =~= seq![last]);
    while i > 0
        invariant
            i <= rev.len(),
            tail.len() == rev.len(),
            forall|k: int| 0 <= k < rev.len() ==> rev@[k] == tail[tail.len() - 1 - k],
            s@ == seq![last] + tail.take(rev.len() - i),
        decreases i,
    {
        i -= 1;
        s.push(rev[i]);
        assert(tail.take(rev.len() - i) =~= tail.take(rev.len() - i - 1).push(rev@[i as int]));
        assert(s@ =~= seq![last] + tail.take(rev.len() - i));
    }
    assert(tail.take(tail.len() as int) =~= tail);
    s
}

/// `a` followed by `b`.
pub fn join_text(a: &str, b: &str) -> (s: String)
    ensures
        s@ == a@ + b@,
{
    let mut s = String::from_str(a);
    s.append(b);
    s
}

/// The texts of a sequence of strings.
pub open spec fn texts(v: Seq<String>) -> Seq<Seq<char>> {
    Seq::new(v.len(), |i: int| v[i]@)
}

/// A copy of a list of strings.
pub fn clone_texts(v: &Vec<String>) -> (r: Vec<String>)
    ensures
        texts(r@) == texts(v@),
{
    let mut r: Vec<String> = Vec::new();
    let mut i: usize = 0;
    while i < v.len()
        invariant
            i <= v.len(),
            r.len() == i,
            forall|k: int| 0 <= k < i ==> r@[k]@ == v@[k]@,
        decreases v.len() - i,
    {
        r.push(v[i].clone());
        i += 1;
    }
    assert(texts(r@) =~= texts(v@));
    r
}

/// `n` spaces.
pub open spec fn spaces(n: nat) -> Seq<char> {
    Seq::new(n, |i: int| ' ')
}

/// `s` at the left of a field of `width` characters: spaces follow it up to
/// the width. A text that is wider stays as it is.
pub open spec fn left_aligned(s: Seq<char>, width: nat) -> Seq<char> {
    if s.len() >= width {
        s
    } else {
        s + spaces((width - s.len()) as nat)
    }
}

/// `s` at the right of a field of `width` characters: spaces come before it
/// up to the width. A text that is wider stays as it is.
pub open spec fn right_aligned(s: Seq<char>, width: nat) -> Seq<char> {
    if s.len() >= width {
        s
    } else {
        spaces((width - s.len()) as nat) + s
    }
}

/// The number of bytes that a text takes in UTF-8, as `str::len` gives it.
pub open spec fn byte_len(s: Seq<char>) -> usize {
    vstd::utf8::encode_utf8(s).len() as usize
}

/// `n` spaces.
pub fn blank(n: usize) -> (s: String)
    ensures
        s@ == spaces(n as nat),
{
    let mut s = String::new();
    let mut i: usize = 0;
    while i < n
        invariant
            i <= n,
            s@ == spaces(i as nat),
        decreases n - i,
    {
        s.push(' ');
        assert(s@ =~= spaces((i + 1) as nat));
        i += 1;
    }
    s
}

/// `s` at the left of a field of `width` characters.
pub fn align_left(s: &str, width: usize) -> (r: String)
    ensures
        r@ == left_aligned(s@, width as nat),
{
    let len = s.unicode_len();
    if len >= width {
        String::from_str(s)
    } else {
        let pad = blank(width - len);
        join_text(s, pad.as_str())
    }
}

/// `s` at the right of a field of `width` characters.
pub fn align_right(s: &str, width: usize) -> (r: String)
    ensures
        r@ == right_aligned(s@, width as nat),
{
    let len = s.unicode_len();
    if len >= width {
        String::from_str(s)
    } else {
        let pad = blank(width - len);
        join_text(pad.as_str(), s)
    }
}

/// The first `n` texts one after the other, `sep` between neighbours.
pub open spec fn joined(cells: Seq<Seq<char>>, sep: Seq<char>, n: int) -> Seq<char>
    decreases n,
{
    if n <= 0 {
        Seq::empty()
    } else if n == 1 {
        cells[0]
    } else {
        joined(cells, sep, n - 1) + sep + cells[n - 1]
    }
}

/// The texts one after the other, `sep` between neighbours.
pub fn join_with(cells: &Vec<String>, sep: &str) -> (r: String)
    ensures
        r@ == joined(texts(cells@), sep@, cells@.len() as int),
{
    let mut r = String::new();
    let mut i: usize = 0;
    while i < cells.len()
        invariant
            i <= cells.len(),
            r@ == joined(texts(cells@), sep@, i as int),
        decreases cells.len() - i,
    {
        let ghost before = r@;
        if i > 0 {
            r.append(sep);
        }
        r.append(cells[i].as_str());
        proof {
            assert(texts(cells@)[i as int] == cells@[i as int]@);
            if i == 0 {
                assert(before =~= Seq::<char>::empty());
                assert(r@ =~= texts(cells@)[0]);
            }
        }
        i += 1;
    }
    r
}

/// The first `n` texts in a row, two spaces between neighbours.
pub open spec fn columns(cells: Seq<Seq<char>>, n: int) -> Seq<char> {
    joined(cells, "  "@, n)
}

/// The texts in a row, two spaces between neighbours.
pub fn join_columns(cells: &Vec<String>) -> (r: String)
    ensures
        r@ == columns(texts(cells@), cells@.len() as int),
{
    join_with(cells, "  ")
}

} // verus!
