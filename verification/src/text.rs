//! Character-level text handling used by the parsers of this crate.
//!
//! Every function here works on the characters of a string (`Seq<char>` in
//! the contracts) and states its result in terms of the spec functions below.
use vstd::prelude::*;

verus! {

// ---------------------------------------------------------------------------
// Specifications
// ---------------------------------------------------------------------------

/// `p` occurs in `s` starting at position `i`.
pub open spec fn occurs_at(s: Seq<char>, p: Seq<char>, i: int) -> bool {
    &&& 0 <= i
    &&& i + p.len() <= s.len()
    &&& s.subrange(i, i + p.len()) == p
}

/// `p` occurs somewhere in `s` (the empty pattern occurs in every string).
pub open spec fn contains(s: Seq<char>, p: Seq<char>) -> bool {
    exists|i: int| occurs_at(s, p, i)
}

/// `s` begins with `p`.
pub open spec fn starts_with(s: Seq<char>, p: Seq<char>) -> bool {
    occurs_at(s, p, 0)
}

/// The pieces of `s` between the occurrences of `sep`, in order: `n`
/// separators give `n + 1` pieces, some of which may be empty.
pub open spec fn split_on(s: Seq<char>, sep: char) -> Seq<Seq<char>>
    decreases s.len(),
{
    if s.len() == 0 {
        seq![Seq::<char>::empty()]
    } else {
        let pieces = split_on(s.drop_last(), sep);
        if s.last() == sep {
            pieces.push(Seq::<char>::empty())
        } else {
            pieces.update(pieces.len() - 1, pieces.last().push(s.last()))
        }
    }
}

/// The characters that carry the Unicode `White_Space` property.
pub open spec fn is_white_space(c: char) -> bool {
    let n = c as int;
    ||| 9 <= n <= 13
    ||| n == 32
    ||| n == 0x85
    ||| n == 0xA0
    ||| n == 0x1680
    ||| 0x2000 <= n <= 0x200A
    ||| n == 0x2028
    ||| n == 0x2029
    ||| n == 0x202F
    ||| n == 0x205F
    ||| n == 0x3000
}

/// `s` without its leading white space.
pub open spec fn trim_start(s: Seq<char>) -> Seq<char>
    decreases s.len(),
{
    if s.len() > 0 && is_white_space(s[0]) {
        trim_start(s.drop_first())
    } else {
        s
    }
}

/// `s` without its trailing white space.
pub open spec fn trim_end(s: Seq<char>) -> Seq<char>
    decreases s.len(),
{
    if s.len() > 0 && is_white_space(s.last()) {
        trim_end(s.drop_last())
    } else {
        s
    }
}

/// `s` without leading and trailing white space.
pub open spec fn trim(s: Seq<char>) -> Seq<char> {
    trim_end(trim_start(s))
}

/// An ASCII decimal digit.
pub open spec fn is_digit(c: char) -> bool {
    '0' <= c && c <= '9'
}

/// The value of a decimal digit character.
pub open spec fn digit_value(c: char) -> int {
    (c as int) - ('0' as int)
}

/// The character of the decimal digit `d` (for `0 <= d < 10`).
pub open spec fn digit_char(d: int) -> char {
    (d + ('0' as int)) as char
}

/// Every character of `s` is a decimal digit.
pub open spec fn all_digits(s: Seq<char>) -> bool {
    forall|i: int| 0 <= i < s.len() ==> is_digit(#[trigger] s[i])
}

/// The number that the digits `s` spell in base ten.
pub open spec fn digits_value(s: Seq<char>) -> nat
    decreases s.len(),
{
    if s.len() == 0 {
        0
    } else {
        (digits_value(s.drop_last()) * 10 + digit_value(s.last())) as nat
    }
}

/// The digits of an unsigned number: `s` without one leading `+`.
pub open spec fn unsigned_digits(s: Seq<char>) -> Seq<char> {
    if s.len() > 0 && s[0] == '+' {
        s.drop_first()
    } else {
        s
    }
}

/// What parsing `s` as a `u64` in base ten gives: an optional `+`, then one
/// or more ASCII digits, whose value fits in 64 bits.
pub open spec fn parse_u64_spec(s: Seq<char>) -> Option<u64> {
    let d = unsigned_digits(s);
    if d.len() > 0 && all_digits(d) && digits_value(d) <= u64::MAX {
        Some(digits_value(d) as u64)
    } else {
        None
    }
}

/// The base-ten representation of `n`, without leading zeros.
pub open spec fn decimal(n: nat) -> Seq<char>
    decreases n,
{
    if n < 10 {
        seq![digit_char(n as int)]
    } else {
        decimal(n / 10).push(digit_char((n % 10) as int))
    }
}

/// `rel` appended to the path `base` with one `/` between them, as a path
/// join does when `rel` is relative: no separator is added after an empty
/// base or after a base that already ends in `/`.
pub open spec fn join_path(base: Seq<char>, rel: Seq<char>) -> Seq<char> {
    if base.len() == 0 {
        rel
    } else if base.last() == '/' {
        base + rel
    } else {
        base + seq!['/'] + rel
    }
}

/// `rel` appended to the path `base` as a path join does on Windows when
/// `rel` is relative: both `/` and `\` count as separators, one `\` is
/// added unless `base` is empty, already ends in a separator, or is a bare
/// drive such as `C:`.
pub open spec fn join_path_windows(base: Seq<char>, rel: Seq<char>) -> Seq<char> {
    if base.len() == 0 {
        rel
    } else if base.last() == '/' || base.last() == '\\' {
        base + rel
    } else if base.len() == 2 && base[1] == ':' && (('a' <= base[0] && base[0] <= 'z') || ('A'
        <= base[0] && base[0] <= 'Z')) {
        base + rel
    } else {
        base + seq!['\\'] + rel
    }
}

// ---------------------------------------------------------------------------
// Lemmas
// ---------------------------------------------------------------------------

/// Splitting always yields at least one piece.
pub proof fn lemma_split_nonempty(s: Seq<char>, sep: char)
    ensures
        split_on(s, sep).len() >= 1,
    decreases s.len(),
{
    if s.len() > 0 {
        lemma_split_nonempty(s.drop_last(), sep);
    }
}

/// A string without the separator splits into itself alone.
pub proof fn lemma_split_no_sep(s: Seq<char>, sep: char)
    requires
        forall|i: int| 0 <= i < s.len() ==> #[trigger] s[i] != sep,
    ensures
        split_on(s, sep) == seq![s],
    decreases s.len(),
{
    if s.len() == 0 {
        assert(s =~= Seq::<char>::empty());
        assert(split_on(s, sep) =~= seq![s]);
    } else {
        let t = s.drop_last();
        assert forall|i: int| 0 <= i < t.len() implies #[trigger] t[i] != sep by {
            assert(t[i] == s[i]);
        }
        lemma_split_no_sep(t, sep);
        assert(s.last() == s[s.len() - 1]);
        assert(s.last() != sep);
        assert(t.push(s.last()) =~= s);
        let pieces = split_on(t, sep);
        assert(pieces.last() == t);
        assert(split_on(s, sep) == pieces.update(pieces.len() - 1, pieces.last().push(s.last())));
        assert(split_on(s, sep) =~= seq![s]);
    }
}

/// Appending text without the separator extends the last piece.
pub proof fn lemma_split_append(x: Seq<char>, b: Seq<char>, sep: char)
    requires
        forall|i: int| 0 <= i < b.len() ==> #[trigger] b[i] != sep,
    ensures
        split_on(x + b, sep) == split_on(x, sep).update(
            split_on(x, sep).len() - 1,
            split_on(x, sep).last() + b,
        ),
    decreases b.len(),
{
    lemma_split_nonempty(x, sep);
    if b.len() == 0 {
        assert(x + b =~= x);
        assert(split_on(x, sep).last() + b =~= split_on(x, sep).last());
        assert(split_on(x, sep).update(split_on(x, sep).len() - 1, split_on(x, sep).last())
            =~= split_on(x, sep));
    } else {
        let c = b.last();
        let b0 = b.drop_last();
        assert forall|i: int| 0 <= i < b0.len() implies #[trigger] b0[i] != sep by {
            assert(b0[i] == b[i]);
        }
        lemma_split_append(x, b0, sep);
        assert(b.last() == b[b.len() - 1]);
        assert((x + b).drop_last() =~= x + b0);
        assert((x + b).last() == c);
        let p = split_on(x, sep);
        assert(split_on(x + b, sep) =~= p.update(p.len() - 1, p.last() + b)) by {
            assert((p.last() + b0).push(c) =~= p.last() + b);
        }
    }
}

/// Text without the separator, the separator, and more text without it,
/// split into exactly those two pieces.
pub proof fn lemma_split_at_sep(a: Seq<char>, b: Seq<char>, sep: char)
    requires
        forall|i: int| 0 <= i < a.len() ==> #[trigger] a[i] != sep,
        forall|i: int| 0 <= i < b.len() ==> #[trigger] b[i] != sep,
    ensures
        split_on(a.push(sep) + b, sep) == seq![a, b],
{
    lemma_split_no_sep(a, sep);
    assert(a.push(sep).drop_last() =~= a);
    assert(split_on(a.push(sep), sep) =~= seq![a, Seq::<char>::empty()]);
    lemma_split_append(a.push(sep), b, sep);
    assert(Seq::<char>::empty() + b =~= b);
    assert(split_on(a.push(sep) + b, sep) =~= seq![a, b]);
}

/// White space in front of text that begins with something else is all that
/// trimming the start removes.
pub proof fn lemma_trim_start_white(w: Seq<char>, t: Seq<char>)
    requires
        forall|i: int| 0 <= i < w.len() ==> is_white_space(#[trigger] w[i]),
        t.len() > 0,
        !is_white_space(t[0]),
    ensures
        trim_start(w + t) == t,
    decreases w.len(),
{
    if w.len() == 0 {
        assert(w + t =~= t);
    } else {
        let w1 = w.drop_first();
        assert forall|i: int| 0 <= i < w1.len() implies is_white_space(#[trigger] w1[i]) by {
            assert(w1[i] == w[i + 1]);
        }
        lemma_trim_start_white(w1, t);
        assert((w + t)[0] == w[0]);
        assert((w + t).drop_first() =~= w1 + t);
    }
}

/// White space after text that ends with something else is all that trimming
/// the end removes.
pub proof fn lemma_trim_end_white(t: Seq<char>, w: Seq<char>)
    requires
        forall|i: int| 0 <= i < w.len() ==> is_white_space(#[trigger] w[i]),
        t.len() > 0,
        !is_white_space(t.last()),
    ensures
        trim_end(t + w) == t,
    decreases w.len(),
{
    if w.len() == 0 {
        assert(t + w =~= t);
    } else {
        let w0 = w.drop_last();
        assert forall|i: int| 0 <= i < w0.len() implies is_white_space(#[trigger] w0[i]) by {
            assert(w0[i] == w[i]);
        }
        assert((t + w).last() == w[w.len() - 1]);
        assert((t + w).drop_last() =~= t + w0);
        lemma_trim_end_white(t, w0);
    }
}

/// Trimming removes exactly the white space around text that begins and
/// ends with something else.
pub proof fn lemma_trim_around(w1: Seq<char>, t: Seq<char>, w2: Seq<char>)
    requires
        forall|i: int| 0 <= i < w1.len() ==> is_white_space(#[trigger] w1[i]),
        forall|i: int| 0 <= i < w2.len() ==> is_white_space(#[trigger] w2[i]),
        t.len() > 0,
        !is_white_space(t[0]),
        !is_white_space(t.last()),
    ensures
        trim(w1 + t + w2) == t,
{
    assert(w1 + t + w2 =~= w1 + (t + w2));
    assert((t + w2)[0] == t[0]);
    lemma_trim_start_white(w1, t + w2);
    lemma_trim_end_white(t, w2);
}

/// The last piece of a split is the end of the string after its last
/// separator: a suffix that holds no separator, and the whole string when it
/// holds none.
pub proof fn lemma_split_last(s: Seq<char>, sep: char)
    ensures
        split_on(s, sep).len() >= 1,
        split_on(s, sep).last().len() <= s.len(),
        s.subrange(s.len() - split_on(s, sep).last().len(), s.len() as int) == split_on(
            s,
            sep,
        ).last(),
        forall|i: int|
            0 <= i < split_on(s, sep).last().len() ==> #[trigger] split_on(s, sep).last()[i]
                != sep,
        (forall|i: int| 0 <= i < s.len() ==> #[trigger] s[i] != sep) ==> split_on(s, sep).last()
            == s,
    decreases s.len(),
{
    if s.len() == 0 {
        assert(s.subrange(0, 0) =~= Seq::<char>::empty());
    } else {
        let t = s.drop_last();
        lemma_split_last(t, sep);
        let l = split_on(s, sep).last();
        if s.last() == sep {
            assert(s.subrange(s.len() as int, s.len() as int) =~= l);
        } else {
            let lt = split_on(t, sep).last();
            assert(l == lt.push(s.last()));
            assert(s.subrange(s.len() - l.len(), s.len() as int) =~= t.subrange(
                t.len() - lt.len(),
                t.len() as int,
            ).push(s.last()));
            if forall|i: int| 0 <= i < s.len() ==> #[trigger] s[i] != sep {
                assert forall|i: int| 0 <= i < t.len() implies #[trigger] t[i] != sep by {
                    assert(t[i] == s[i]);
                }
                assert(lt == t);
                assert(l =~= s);
            }
        }
    }
}

/// The value of a digit string is at least the value of each of its prefixes.
pub proof fn lemma_digits_value_prefix(s: Seq<char>, i: int)
    requires
        0 <= i <= s.len(),
        all_digits(s),
    ensures
        digits_value(s.take(i)) <= digits_value(s),
    decreases s.len() - i,
{
    if i < s.len() {
        lemma_digits_value_prefix(s, i + 1);
        assert(s.take(i + 1).drop_last() =~= s.take(i));
        assert(is_digit(s[i]));
    } else {
        assert(s.take(i) =~= s);
    }
}

/// The base-ten representation of a number consists of digits and spells it.
pub proof fn lemma_decimal_digits(n: nat)
    ensures
        decimal(n).len() > 0,
        all_digits(decimal(n)),
        digits_value(decimal(n)) == n,
    decreases n,
{
    if n < 10 {
        assert(decimal(n).drop_last() =~= Seq::<char>::empty());
        assert(digit_value(digit_char(n as int)) == n);
        assert(digits_value(decimal(n)) == digits_value(decimal(n).drop_last()) * 10
            + digit_value(decimal(n).last()));
        assert(digits_value(decimal(n)) == n);
    } else {
        lemma_decimal_digits(n / 10);
        let d = decimal(n);
        assert(d.drop_last() =~= decimal(n / 10));
        assert(digit_value(digit_char((n % 10) as int)) == n % 10);
        assert((n / 10) * 10 + n % 10 == n) by (nonlinear_arith);
        assert(d.last() == digit_char((n % 10) as int));
        assert(digits_value(d) == digits_value(d.drop_last()) * 10 + digit_value(d.last()));
        assert(digits_value(d) == n);
        assert forall|i: int| 0 <= i < d.len() implies is_digit(#[trigger] d[i]) by {
            if i < d.len() - 1 {
                assert(d[i] == decimal(n / 10)[i]);
            }
        }
    }
}

/// Parsing the base-ten representation of a `u64` gives that number back.
pub proof fn lemma_parse_decimal(n: u64)
    ensures
        parse_u64_spec(decimal(n as nat)) == Some(n),
{
    lemma_decimal_digits(n as nat);
    let d = decimal(n as nat);
    assert(is_digit(d[0]));
    assert(unsigned_digits(d) == d);
}

// ---------------------------------------------------------------------------
// Executable functions
// ---------------------------------------------------------------------------

/// The characters of `s`, in order.
pub fn chars_of(s: &str) -> (r: Vec<char>)
    ensures
        r@ == s@,
{
    let mut r: Vec<char> = Vec::new();
    for c in it: s.chars()
        invariant
            r@ == it.seq().take(it.index() as int),
            it.seq() == s@,
    {
        r.push(c);
    }
    r
}

/// Whether the strings `a` and `b` hold the same characters.
pub fn str_equal(a: &str, b: &str) -> (r: bool)
    ensures
        r == (a@ == b@),
{
    let x = chars_of(a);
    let y = chars_of(b);
    if x.len() != y.len() {
        return false;
    }
    let mut i: usize = 0;
    while i < x.len()
        invariant
            x@ == a@,
            y@ == b@,
            x.len() == y.len(),
            i <= x.len(),
            forall|j: int| 0 <= j < i ==> x@[j] == y@[j],
        decreases x.len() - i,
    {
        if x[i] != y[i] {
            assert(x@[i as int] != y@[i as int]);
            return false;
        }
        i = i + 1;
    }
    assert(x@ =~= y@);
    true
}

/// Whether `p` occurs in `s` at position `i`.
pub fn occurs_at_exec(s: &Vec<char>, p: &Vec<char>, i: usize) -> (r: bool)
    requires
        i <= s.len(),
    ensures
        r == occurs_at(s@, p@, i as int),
{
    if p.len() > s.len() - i {
        return false;
    }
    let mut k: usize = 0;
    while k < p.len()
        invariant
            i + p.len() <= s.len(),
            k <= p.len(),
            forall|j: int| 0 <= j < k ==> s@[i + j] == p@[j],
        decreases p.len() - k,
    {
        if s[i + k] != p[k] {
            assert(s@.subrange(i as int, i + p.len())[k as int] != p@[k as int]);
            return false;
        }
        k = k + 1;
    }
    assert(s@.subrange(i as int, i + p.len()) =~= p@);
    true
}

/// Whether `p` occurs anywhere in `s`.
pub fn contains_exec(s: &Vec<char>, p: &Vec<char>) -> (r: bool)
    ensures
        r == contains(s@, p@),
{
    if p.len() == 0 {
        assert(s@.subrange(0, 0) =~= p@);
        assert(occurs_at(s@, p@, 0));
        return true;
    }
    if p.len() > s.len() {
        assert(!contains(s@, p@));
        return false;
    }
    let last = s.len() - p.len();
    let mut i: usize = 0;
    while i <= last
        invariant
            p.len() >= 1,
            last + p.len() == s.len(),
            i <= last + 1,
            forall|j: int| 0 <= j < i ==> !occurs_at(s@, p@, j),
        decreases last + 1 - i,
    {
        if occurs_at_exec(s, p, i) {
            return true;
        }
        i = i + 1;
    }
    assert forall|j: int| !occurs_at(s@, p@, j) by {
        if 0 <= j && j + p.len() <= s.len() {
            assert(j < i);
        }
    }
    false
}

/// Whether `s` begins with `p`.
pub fn starts_with_exec(s: &Vec<char>, p: &Vec<char>) -> (r: bool)
    ensures
        r == starts_with(s@, p@),
{
    occurs_at_exec(s, p, 0)
}

/// Whether `c` carries the Unicode `White_Space` property.
pub fn is_white_space_exec(c: char) -> (r: bool)
    ensures
        r == is_white_space(c),
{
    let n = c as u32;
    (9 <= n && n <= 13) || n == 32 || n == 0x85 || n == 0xA0 || n == 0x1680 || (0x2000 <= n
        && n <= 0x200A) || n == 0x2028 || n == 0x2029 || n == 0x202F || n == 0x205F || n == 0x3000
}

/// The positions where the pieces of `s` between occurrences of `sep` begin
/// and end.
pub fn split_ranges(s: &Vec<char>, sep: char) -> (r: Vec<(usize, usize)>)
    ensures
        r.len() == split_on(s@, sep).len(),
        forall|k: int|
            0 <= k < r.len() ==> {
                &&& (#[trigger] r@[k]).0 <= r@[k].1 <= s.len()
                &&& s@.subrange(r@[k].0 as int, r@[k].1 as int) == split_on(s@, sep)[k]
            },
{
    let mut done: Vec<(usize, usize)> = Vec::new();
    let mut start: usize = 0;
    let mut i: usize = 0;
    proof {
        assert(s@.take(0) =~= Seq::<char>::empty());
    }
    while i < s.len()
        invariant
            start <= i <= s.len(),
            split_on(s@.take(i as int), sep).len() == done.len() + 1,
            forall|k: int|
                0 <= k < done.len() ==> {
                    &&& (#[trigger] done@[k]).0 <= done@[k].1 <= start
                    &&& s@.subrange(done@[k].0 as int, done@[k].1 as int) == split_on(
                        s@.take(i as int),
                        sep,
                    )[k]
                },
            split_on(s@.take(i as int), sep)[done.len() as int] == s@.subrange(
                start as int,
                i as int,
            ),
        decreases s.len() - i,
    {
        let c = s[i];
        let ghost prev = split_on(s@.take(i as int), sep);
        proof {
            assert(s@.take(i + 1).drop_last() =~= s@.take(i as int));
            assert(s@.take(i + 1).last() == c);
        }
        if c == sep {
            done.push((start, i));
            start = i + 1;
            proof {
                assert(s@.subrange(start as int, i + 1) =~= Seq::<char>::empty());
            }
        } else {
            proof {
                assert(s@.subrange(start as int, i + 1) =~= s@.subrange(start as int, i as int).push(
                    c,
                ));
            }
        }
        i = i + 1;
    }
    proof {
        assert(s@.take(s.len() as int) =~= s@);
    }
    done.push((start, s.len()));
    done
}

/// The bounds of the part of `s[lo..hi]` that is left once white space is
/// removed from both ends.
pub fn trim_range(s: &Vec<char>, lo: usize, hi: usize) -> (r: (usize, usize))
    requires
        lo <= hi <= s.len(),
    ensures
        lo <= r.0 <= r.1 <= hi,
        s@.subrange(r.0 as int, r.1 as int) == trim(s@.subrange(lo as int, hi as int)),
{
    let mut a = lo;
    while a < hi && is_white_space_exec(s[a])
        invariant
            lo <= a <= hi <= s.len(),
            trim_start(s@.subrange(lo as int, hi as int)) == trim_start(
                s@.subrange(a as int, hi as int),
            ),
        decreases hi - a,
    {
        proof {
            assert(s@.subrange(a as int, hi as int).drop_first() =~= s@.subrange(
                a + 1,
                hi as int,
            ));
        }
        a = a + 1;
    }
    let mut b = hi;
    while b > a && is_white_space_exec(s[b - 1])
        invariant
            lo <= a <= b <= hi <= s.len(),
            trim_end(s@.subrange(a as int, hi as int)) == trim_end(
                s@.subrange(a as int, b as int),
            ),
        decreases b - a,
    {
        proof {
            assert(s@.subrange(a as int, b as int).drop_last() =~= s@.subrange(
                a as int,
                b - 1,
            ));
        }
        b = b - 1;
    }
    (a, b)
}

/// Parses `s[lo..hi]` as an unsigned 64-bit number in base ten, as `u64`'s
/// `FromStr` does.
pub fn parse_u64_range(s: &Vec<char>, lo: usize, hi: usize) -> (r: Option<u64>)
    requires
        lo <= hi <= s.len(),
    ensures
        r == parse_u64_spec(s@.subrange(lo as int, hi as int)),
{
    let ghost whole = s@.subrange(lo as int, hi as int);
    let mut a = lo;
    if lo < hi && s[lo] == '+' {
        a = lo + 1;
    }
    let ghost d = s@.subrange(a as int, hi as int);
    proof {
        if lo < hi && s@[lo as int] == '+' {
            assert(d =~= whole.drop_first());
        } else {
            assert(d =~= whole);
        }
        assert(unsigned_digits(whole) == d);
    }
    if a == hi {
        return None;
    }
    let mut acc: u64 = 0;
    let mut i = a;
    while i < hi
        invariant
            a < hi,
            a <= i <= hi <= s.len(),
            d == s@.subrange(a as int, hi as int),
            d == unsigned_digits(s@.subrange(lo as int, hi as int)),
            all_digits(d.take(i - a)),
            acc == digits_value(d.take(i - a)),
        decreases hi - i,
    {
        let c = s[i];
        let ghost k = i - a;
        proof {
            assert(d[k] == c);
            assert(d.take(k + 1).drop_last() =~= d.take(k));
            assert(d.take(k + 1).last() == c);
        }
        if !('0' <= c && c <= '9') {
            assert(!all_digits(d));
            return None;
        }
        let v = (c as u32 - '0' as u32) as u64;
        proof {
            assert(v == digit_value(c));
            assert forall|j: int| 0 <= j < k + 1 implies is_digit(#[trigger] d.take(k + 1)[j]) by {
                if j < k {
                    assert(d.take(k + 1)[j] == d.take(k)[j]);
                }
            }
        }
        match acc.checked_mul(10) {
            None => {
                proof {
                    lemma_parse_overflow(d, k + 1);
                }
                return None;
            },
            Some(m) => match m.checked_add(v) {
                None => {
                    proof {
                        lemma_parse_overflow(d, k + 1);
                    }
                    return None;
                },
                Some(next) => {
                    acc = next;
                },
            },
        }
        i = i + 1;
    }
    proof {
        assert(d.take(hi - a) =~= d);
    }
    Some(acc)
}

/// Once a prefix of a string spells a number beyond 64 bits, so does the
/// string, or the string is not all digits.
proof fn lemma_parse_overflow(d: Seq<char>, k: int)
    requires
        0 < k <= d.len(),
        all_digits(d.take(k)),
        digits_value(d.take(k)) > u64::MAX,
    ensures
        !(all_digits(d) && digits_value(d) <= u64::MAX),
{
    if all_digits(d) {
        lemma_digits_value_prefix(d, k);
    }
}

/// The one-character string of the decimal digit `d`.
pub fn digit_str(d: u64) -> (r: &'static str)
    requires
        d < 10,
    ensures
        r@ == seq![digit_char(d as int)],
{
    proof {
        reveal_strlit("0");
        reveal_strlit("1");
        reveal_strlit("2");
        reveal_strlit("3");
        reveal_strlit("4");
        reveal_strlit("5");
        reveal_strlit("6");
        reveal_strlit("7");
        reveal_strlit("8");
        reveal_strlit("9");
    }
    let r = if d == 0 {
        "0"
    } else if d == 1 {
        "1"
    } else if d == 2 {
        "2"
    } else if d == 3 {
        "3"
    } else if d == 4 {
        "4"
    } else if d == 5 {
        "5"
    } else if d == 6 {
        "6"
    } else if d == 7 {
        "7"
    } else if d == 8 {
        "8"
    } else {
        "9"
    };
    assert(r@ =~= seq![digit_char(d as int)]);
    r
}

/// The base-ten representation of `n`, as `u64`'s `to_string` gives it.
pub fn format_u64(n: u64) -> (r: String)
    ensures
        r@ == decimal(n as nat),
    decreases n,
{
    if n < 10 {
        String::from_str(digit_str(n))
    } else {
        let mut r = format_u64(n / 10);
        r.append(digit_str(n % 10));
        r
    }
}

/// Appends the relative path `rel` to the path `base` as Windows does (see
/// [`join_path_windows`]).
pub fn join_path_windows_exec(base: &str, rel: &str) -> (r: String)
    ensures
        r@ == join_path_windows(base@, rel@),
{
    let b = chars_of(base);
    if b.len() == 0 {
        return String::from_str(rel);
    }
    let mut r = String::from_str(base);
    let last = b[b.len() - 1];
    let drive = b.len() == 2 && b[1] == ':' && (('a' <= b[0] && b[0] <= 'z') || ('A' <= b[0]
        && b[0] <= 'Z'));
    if last != '/' && last != '\\' && !drive {
        proof {
            reveal_strlit("\\");
        }
        r.append("\\");
    }
    r.append(rel);
    r
}

/// Appends the relative path `rel` to the path `base` (see [`join_path`]).
pub fn join_path_exec(base: &str, rel: &str) -> (r: String)
    ensures
        r@ == join_path(base@, rel@),
{
    let b = chars_of(base);
    if b.len() == 0 {
        return String::from_str(rel);
    }
    let mut r = String::from_str(base);
    if b[b.len() - 1] != '/' {
        proof {
            reveal_strlit("/");
        }
        r.append("/");
    }
    r.append(rel);
    r
}

} // verus!
