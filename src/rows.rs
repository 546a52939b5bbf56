//! The row count reported by a `CommandComplete` tag.
use vstd::prelude::*;
use vstd::string::*;

verus! {

/// Whether `c` is an ASCII decimal digit.
pub open spec fn is_digit(c: char) -> bool {
    '0' <= c && c <= '9'
}

/// The value of an ASCII decimal digit.
pub open spec fn digit_value(c: char) -> int {
    c as int - '0' as int
}

/// The value of a string of decimal digits, most significant first.
pub open spec fn digits_value(s: Seq<char>) -> int
    decreases s.len(),
{
    if s.len() == 0 {
        0
    } else {
        digits_value(s.drop_last()) * 10 + digit_value(s.last())
    }
}

/// Whether `s` is a non-empty string of decimal digits.
pub open spec fn all_digits(s: Seq<char>) -> bool {
    s.len() > 0 && forall|i: int| 0 <= i < s.len() ==> is_digit(#[trigger] s[i])
}

/// The `u64` that `s` denotes in the syntax of Rust's `u64::from_str`: an
/// optional `+`, then one or more decimal digits, whose value fits in `u64`.
pub open spec fn parse_u64(s: Seq<char>) -> Option<u64> {
    let d = if s.len() > 0 && s[0] == '+' { s.drop_first() } else { s };
    if all_digits(d) && digits_value(d) <= u64::MAX {
        Some(digits_value(d) as u64)
    } else {
        None
    }
}

/// The text after the last space of `s`, or all of `s` if it holds none.
pub open spec fn last_word(s: Seq<char>) -> Seq<char>
    decreases s.len(),
{
    if s.len() == 0 {
        s
    } else if s.last() == ' ' {
        Seq::empty()
    } else {
        last_word(s.drop_last()).push(s.last())
    }
}

/// The row count of a command tag: its last space-separated word read as a
/// decimal number, or 0 where that word is no such number.
pub open spec fn tag_rows(tag: Seq<char>) -> u64 {
    match parse_u64(last_word(tag)) {
        Some(n) => n,
        None => 0,
    }
}

proof fn lemma_digits_value_nonneg(s: Seq<char>)
    requires
        forall|i: int| 0 <= i < s.len() ==> is_digit(#[trigger] s[i]),
    ensures
        digits_value(s) >= 0,
    decreases s.len(),
{
    if s.len() > 0 {
        lemma_digits_value_nonneg(s.drop_last());
    }
}

/// A digit string is worth at least as much as each of its prefixes.
proof fn lemma_digits_value_prefix(s: Seq<char>, k: int)
    requires
        0 <= k <= s.len(),
        forall|i: int| 0 <= i < s.len() ==> is_digit(#[trigger] s[i]),
    ensures
        digits_value(s) >= digits_value(s.subrange(0, k)),
    decreases s.len() - k,
{
    if k < s.len() {
        lemma_digits_value_prefix(s, k + 1);
        let p = s.subrange(0, k + 1);
        assert(p.drop_last() =~= s.subrange(0, k));
        lemma_digits_value_nonneg(s.subrange(0, k));
    } else {
        assert(s.subrange(0, k) =~= s);
    }
}

/// The decimal digits of `n`, most significant first.
pub open spec fn decimal(n: nat) -> Seq<char>
    decreases n,
{
    if n < 10 {
        seq![digit_char(n)]
    } else {
        decimal(n / 10).push(digit_char(n % 10))
    }
}

/// The character of the decimal digit `d`.
pub open spec fn digit_char(d: nat) -> char {
    if d == 0 { '0' }
    else if d == 1 { '1' }
    else if d == 2 { '2' }
    else if d == 3 { '3' }
    else if d == 4 { '4' }
    else if d == 5 { '5' }
    else if d == 6 { '6' }
    else if d == 7 { '7' }
    else if d == 8 { '8' }
    else { '9' }
}

proof fn lemma_decimal_digits(n: nat)
    ensures
        all_digits(decimal(n)),
        digits_value(decimal(n)) == n,
        decimal(n)[0] != '+',
        forall|i: int| 0 <= i < decimal(n).len() ==> #[trigger] decimal(n)[i] != ' ',
    decreases n,
{
    if n < 10 {
        assert(digits_value(decimal(n).drop_last()) == 0);
    } else {
        lemma_decimal_digits(n / 10);
        let d = decimal(n);
        assert(d.drop_last() =~= decimal(n / 10));
        assert(n / 10 * 10 + n % 10 == n) by (nonlinear_arith);
        assert forall|i: int| 0 <= i < d.len() implies is_digit(#[trigger] d[i]) && d[i] != ' ' by {
            if i < d.len() - 1 {
                assert(d[i] == decimal(n / 10)[i]);
            }
        }
    }
}

proof fn lemma_last_word_after_space(p: Seq<char>, w: Seq<char>)
    requires
        forall|i: int| 0 <= i < w.len() ==> #[trigger] w[i] != ' ',
    ensures
        last_word(p + seq![' '] + w) == w,
    decreases w.len(),
{
    let t = p + seq![' '] + w;
    if w.len() == 0 {
        assert(t.last() == ' ');
    } else {
        lemma_last_word_after_space(p, w.drop_last());
        assert(t.drop_last() =~= p + seq![' '] + w.drop_last());
        assert(w.drop_last().push(w.last()) =~= w);
    }
}

/// The row count of a command tag that ends in a space and the decimal
/// digits of `n` is `n`, whatever comes before; a tag whose last word is no
/// decimal number counts no rows.
pub proof fn lemma_row_count_suffix(prefix: Seq<char>, n: u64)
    ensures
        tag_rows(prefix + seq![' '] + decimal(n as nat)) == n,
        parse_u64(last_word(prefix)) is None ==> tag_rows(prefix) == 0,
{
    lemma_decimal_digits(n as nat);
    lemma_last_word_after_space(prefix, decimal(n as nat));
}

/// Reads the characters `from..to` of `s` as `u64::from_str` does.
fn parse_u64_range(s: &str, from: usize, to: usize) -> (r: Option<u64>)
    requires
        from <= to <= s@.len(),
    ensures
        r == parse_u64(s@.subrange(from as int, to as int)),
{
    let ghost w = s@.subrange(from as int, to as int);
    let mut start = from;
    if from < to && s.get_char(from) == '+' {
        start = from + 1;
    }
    let ghost d = s@.subrange(start as int, to as int);
    assert(d =~= (if w.len() > 0 && w[0] == '+' { w.drop_first() } else { w }));
    if start == to {
        assert(d.len() == 0);
        return None;
    }
    let mut acc: u64 = 0;
    let mut i = start;
    while i < to
        invariant
            start <= i <= to <= s@.len(),
            d == s@.subrange(start as int, to as int),
            w == s@.subrange(from as int, to as int),
            parse_u64(w) == (if all_digits(d) && digits_value(d) <= u64::MAX {
                Some(digits_value(d) as u64)
            } else {
                None
            }),
            forall|j: int| 0 <= j < i - start ==> is_digit(#[trigger] d[j]),
            acc as int == digits_value(d.subrange(0, i - start)),
        decreases to - i,
    {
        let c = s.get_char(i);
        if !('0' <= c && c <= '9') {
            assert(!is_digit(d[i - start]));
            assert(!all_digits(d));
            return None;
        }
        let v = (c as u32 - '0' as u32) as u64;
        assert(d.subrange(0, i + 1 - start).drop_last() =~= d.subrange(0, i - start));
        if acc > (u64::MAX - v) / 10 {
            assert(digits_value(d.subrange(0, i + 1 - start)) > u64::MAX) by (nonlinear_arith)
                requires
                    acc > (u64::MAX - v) / 10,
                    digits_value(d.subrange(0, i + 1 - start)) == acc * 10 + v,
            ;
            assert(forall|j: int| 0 <= j < i + 1 - start ==> is_digit(#[trigger] d[j]));
            proof {
                if all_digits(d) {
                    lemma_digits_value_prefix(d, (i + 1 - start) as int);
                    assert(digits_value(d) > u64::MAX);
                }
            }
            return None;
        }
        acc = acc * 10 + v;
        i = i + 1;
    }
    assert(d.subrange(0, to - start) =~= d);
    Some(acc)
}

/// The position just after the last space of `s`, or 0 where it holds none.
fn last_word_start(s: &str) -> (k: usize)
    ensures
        k <= s@.len(),
        last_word(s@) == s@.subrange(k as int, s@.len() as int),
{
    let n = s.unicode_len();
    let mut k = n;
    assert(s@.subrange(0, n as int) =~= s@);
    assert(s@.subrange(n as int, n as int) =~= Seq::<char>::empty());
    while k > 0
        invariant
            k <= n == s@.len(),
            last_word(s@) == last_word(s@.subrange(0, k as int)) + s@.subrange(k as int, n as int),
            forall|j: int| k <= j < n ==> s@[j] != ' ',
        decreases k,
    {
        let c = s.get_char(k - 1);
        let ghost p = s@.subrange(0, k as int);
        assert(p.drop_last() =~= s@.subrange(0, k - 1));
        if c == ' ' {
            assert(last_word(p) =~= Seq::<char>::empty());
            assert(last_word(s@) =~= s@.subrange(k as int, n as int));
            return k;
        }
        assert(s@.subrange(k - 1, n as int) =~= seq![c] + s@.subrange(k as int, n as int));
        assert(last_word(s@.subrange(0, k - 1)) + s@.subrange(k - 1, n as int) =~= last_word(p)
            + s@.subrange(k as int, n as int));
        k = k - 1;
    }
    assert(s@.subrange(0, 0) =~= Seq::<char>::empty());
    assert(last_word(s@) =~= s@.subrange(0, n as int));
    0
}

/// The number of rows that a `CommandComplete` tag reports: the tag's last
/// space-separated word read as a decimal `u64`, or 0 where it is none.
pub fn rows_from_tag(tag: &str) -> (r: u64)
    ensures
        r == tag_rows(tag@),
{
    let k = last_word_start(tag);
    let n = tag.unicode_len();
    match parse_u64_range(tag, k, n) {
        Some(v) => v,
        None => 0,
    }
}

} // verus!
