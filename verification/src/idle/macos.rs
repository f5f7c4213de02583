//! Reading the time since the last user input from `ioreg`'s report of the
//! HID system.
use vstd::prelude::*;

use crate::text::chars_of;
use crate::text::contains;
use crate::text::contains_exec;
use crate::text::decimal;
use crate::text::is_white_space;
use crate::text::parse_u64_range;
use crate::text::parse_u64_spec;
use crate::text::split_on;
use crate::text::split_ranges;
use crate::text::trim;
use crate::text::trim_range;

verus! {

/// The value on a report line: the text between its first and second `=`
/// (or its end), without surrounding white space, read as a number of
/// nanoseconds; none where the line has no `=` or the value is no `u64`.
pub open spec fn idle_ns_of_line(line: Seq<char>) -> Option<u64> {
    let fields = split_on(line, '=');
    if fields.len() < 2 {
        None
    } else {
        parse_u64_spec(trim(fields[1]))
    }
}

/// The value of the first line that mentions `HIDIdleTime`; none where no
/// line does.
pub open spec fn idle_ns_of_lines(lines: Seq<Seq<char>>) -> Option<u64>
    decreases lines.len(),
{
    if lines.len() == 0 {
        None
    } else if contains(lines[0], "HIDIdleTime"@) {
        idle_ns_of_line(lines[0])
    } else {
        idle_ns_of_lines(lines.drop_first())
    }
}

/// The idle time, in nanoseconds, that an `ioreg` report gives: the lines are
/// the pieces of the report between its `\n` characters.
pub open spec fn hid_idle_ns(report: Seq<char>) -> Option<u64> {
    idle_ns_of_lines(split_on(report, '\n'))
}

/// A copy of the characters `s[lo..hi]`.
fn copy_range(s: &Vec<char>, lo: usize, hi: usize) -> (r: Vec<char>)
    requires
        lo <= hi <= s.len(),
    ensures
        r@ == s@.subrange(lo as int, hi as int),
{
    let mut r: Vec<char> = Vec::new();
    let mut i = lo;
    while i < hi
        invariant
            lo <= i <= hi <= s.len(),
            r@ == s@.subrange(lo as int, i as int),
        decreases hi - i,
    {
        r.push(s[i]);
        proof {
            assert(s@.subrange(lo as int, i + 1) =~= s@.subrange(lo as int, i as int).push(
                s@[i as int],
            ));
        }
        i = i + 1;
    }
    r
}

/// The value of one report line (see [`idle_ns_of_line`]).
fn idle_ns_from_line(line: &Vec<char>) -> (r: Option<u64>)
    ensures
        r == idle_ns_of_line(line@),
{
    let fields = split_ranges(line, '=');
    if fields.len() < 2 {
        return None;
    }
    let field = fields[1];
    let (a, b) = trim_range(line, field.0, field.1);
    parse_u64_range(line, a, b)
}

/// Reads the time since the last user input, in nanoseconds, from the text
/// that `ioreg -c IOHIDSystem -d 4` prints: the value of the first line that
/// mentions `HIDIdleTime`.
pub fn idle_ns_from_ioreg(report: &str) -> (r: Option<u64>)
    ensures
        r == hid_idle_ns(report@),
{
    let chars = chars_of(report);
    let lines = split_ranges(&chars, '\n');
    let key = chars_of("HIDIdleTime");
    let ghost all = split_on(report@, '\n');
    let mut k: usize = 0;
    proof {
        assert(all.skip(0) =~= all);
    }
    while k < lines.len()
        invariant
            chars@ == report@,
            key@ == "HIDIdleTime"@,
            all == split_on(report@, '\n'),
            lines.len() == all.len(),
            forall|m: int|
                0 <= m < lines.len() ==> {
                    &&& (#[trigger] lines@[m]).0 <= lines@[m].1 <= chars.len()
                    &&& chars@.subrange(lines@[m].0 as int, lines@[m].1 as int) == all[m]
                },
            k <= lines.len(),
            hid_idle_ns(report@) == idle_ns_of_lines(all.skip(k as int)),
        decreases lines.len() - k,
    {
        let range = lines[k];
        let line = copy_range(&chars, range.0, range.1);
        proof {
            assert(all.skip(k as int)[0] == all[k as int]);
            assert(all.skip(k as int).drop_first() =~= all.skip(k + 1));
        }
        if contains_exec(&line, &key) {
            return idle_ns_from_line(&line);
        }
        k = k + 1;
    }
    None
}

/// A report line `key = value`, with any white space around the value,
/// gives the number that the value spells, for every idle time that fits in
/// 64 bits (the key holds no `=`, and nothing but white space surrounds the
/// digits).
pub proof fn lemma_idle_line_value(key: Seq<char>, w1: Seq<char>, w2: Seq<char>, ns: u64)
    requires
        forall|i: int| 0 <= i < key.len() ==> #[trigger] key[i] != '=',
        forall|i: int| 0 <= i < w1.len() ==> is_white_space(#[trigger] w1[i]),
        forall|i: int| 0 <= i < w2.len() ==> is_white_space(#[trigger] w2[i]),
    ensures
        idle_ns_of_line(key.push('=') + w1 + decimal(ns as nat) + w2) == Some(ns),
{
    let d = decimal(ns as nat);
    crate::text::lemma_decimal_digits(ns as nat);
    let value = w1 + d + w2;
    assert forall|i: int| 0 <= i < value.len() implies #[trigger] value[i] != '=' by {
        if i < w1.len() {
            assert(value[i] == w1[i]);
            assert(is_white_space(w1[i]));
        } else if i < w1.len() + d.len() {
            assert(value[i] == d[i - w1.len()]);
            assert(crate::text::is_digit(d[i - w1.len()]));
        } else {
            assert(value[i] == w2[i - w1.len() - d.len()]);
            assert(is_white_space(w2[i - w1.len() - d.len()]));
        }
    }
    assert(key.push('=') + w1 + d + w2 =~= key.push('=') + value);
    crate::text::lemma_split_at_sep(key, value, '=');
    assert(crate::text::is_digit(d[0]));
    assert(crate::text::is_digit(d[d.len() - 1]));
    crate::text::lemma_trim_around(w1, d, w2);
    crate::text::lemma_parse_decimal(ns);
}

/// A report whose first line mentions `HIDIdleTime` gives the value of that
/// line, whatever follows it.
pub proof fn lemma_idle_first_line(line: Seq<char>, rest: Seq<char>)
    requires
        forall|i: int| 0 <= i < line.len() ==> #[trigger] line[i] != '\n',
        contains(line, "HIDIdleTime"@),
    ensures
        hid_idle_ns(line.push('\n') + rest) == idle_ns_of_line(line),
{
    crate::text::lemma_split_no_sep(line, '\n');
    lemma_first_piece(line, rest, '\n');
}

/// Text without the separator, the separator, then anything: the first piece
/// of the split is that text.
proof fn lemma_first_piece(a: Seq<char>, rest: Seq<char>, sep: char)
    requires
        forall|i: int| 0 <= i < a.len() ==> #[trigger] a[i] != sep,
    ensures
        split_on(a.push(sep) + rest, sep).len() >= 2,
        split_on(a.push(sep) + rest, sep)[0] == a,
    decreases rest.len(),
{
    if rest.len() == 0 {
        assert(a.push(sep) + rest =~= a.push(sep));
        crate::text::lemma_split_no_sep(a, sep);
        assert(a.push(sep).drop_last() =~= a);
    } else {
        let r0 = rest.drop_last();
        lemma_first_piece(a, r0, sep);
        assert((a.push(sep) + rest).drop_last() =~= a.push(sep) + r0);
        crate::text::lemma_split_nonempty(a.push(sep) + r0, sep);
    }
}

} // verus!
