//! Decimal text for the numbers of a contract version: reading an unsigned
//! 16-bit number the way `u16::from_str` reads it, and writing one in its
//! shortest decimal form; and the characters of a string.

use vstd::prelude::*;

verus! {

/// An ASCII decimal digit.
pub open spec fn is_digit(c: char) -> bool {
    '0' <= c && c <= '9'
}

/// The value of a decimal digit.
pub open spec fn digit_value(c: char) -> int {
    c as int - '0' as int
}

/// Every character of `s` is a decimal digit.
pub open spec fn all_digits(s: Seq<char>) -> bool {
    forall|i: int| 0 <= i < s.len() ==> #[trigger] is_digit(s[i])
}

/// The number that a run of decimal digits denotes (most significant first).
pub open spec fn digits_value(s: Seq<char>) -> int
    decreases s.len(),
{
    if s.len() == 0 {
        0
    } else {
        digits_value(s.drop_last()) * 10 + digit_value(s.last())
    }
}

/// The digits that `u16::from_str` reads: one leading `+` is allowed and
/// skipped.
pub open spec fn unsigned_digits(s: Seq<char>) -> Seq<char> {
    if s.len() > 0 && s[0] == '+' {
        s.drop_first()
    } else {
        s
    }
}

/// What `u16::from_str` gives for `s`: after an optional leading `+`, a
/// non-empty run of decimal digits whose value fits in 16 bits, and nothing
/// else.
pub open spec fn spec_parse_u16(s: Seq<char>) -> Option<u16> {
    let d = unsigned_digits(s);
    if d.len() > 0 && all_digits(d) && digits_value(d) <= u16::MAX {
        Some(digits_value(d) as u16)
    } else {
        None
    }
}

/// The character of a digit value below ten.
pub open spec fn digit_char(d: int) -> char
    recommends
        0 <= d < 10,
{
    seq!['0', '1', '2', '3', '4', '5', '6', '7', '8', '9'][d]
}

/// The shortest decimal form of `n`: no sign, no leading zeros, `"0"` for zero.
pub open spec fn decimal(n: nat) -> Seq<char>
    decreases n,
{
    if n < 10 {
        seq![digit_char(n as int)]
    } else {
        decimal(n / 10).push(digit_char((n % 10) as int))
    }
}

/// Appending one digit multiplies the value by ten and adds the digit.
pub proof fn lemma_digits_value_push(s: Seq<char>, c: char)
    ensures
        digits_value(s.push(c)) == digits_value(s) * 10 + digit_value(c),
{
    assert(s.push(c).drop_last() =~= s);
}

/// The value of a run of digits is non-negative.
pub proof fn lemma_digits_value_nonneg(s: Seq<char>)
    requires
        all_digits(s),
    ensures
        digits_value(s) >= 0,
    decreases s.len(),
{
    if s.len() > 0 {
        assert(is_digit(s[s.len() - 1]));
        let t = s.drop_last();
        assert(all_digits(t)) by {
            assert forall|i: int| 0 <= i < t.len() implies #[trigger] is_digit(t[i]) by {
                assert(is_digit(s[i]));
            }
        }
        lemma_digits_value_nonneg(t);
    }
}

/// A prefix of a run of digits never denotes more than the whole run.
pub proof fn lemma_digits_value_prefix(s: Seq<char>, k: int)
    requires
        all_digits(s),
        0 <= k <= s.len(),
    ensures
        digits_value(s.take(k)) <= digits_value(s),
    decreases s.len(),
{
    if k == s.len() {
        assert(s.take(k) =~= s);
    } else {
        let t = s.drop_last();
        assert(all_digits(t)) by {
            assert forall|i: int| 0 <= i < t.len() implies #[trigger] is_digit(t[i]) by {
                assert(is_digit(s[i]));
            }
        }
        assert(is_digit(s[s.len() - 1]));
        lemma_digits_value_prefix(t, k);
        lemma_digits_value_nonneg(t);
        assert(t.take(k) =~= s.take(k));
    }
}

/// The decimal form is a non-empty run of digits that denotes `n`.
pub proof fn lemma_decimal(n: nat)
    ensures
        decimal(n).len() > 0,
        all_digits(decimal(n)),
        digits_value(decimal(n)) == n,
    decreases n,
{
    let digits = seq!['0', '1', '2', '3', '4', '5', '6', '7', '8', '9'];
    if n < 10 {
        let s = decimal(n);
        assert(s =~= seq![digits[n as int]]);
        assert(s.drop_last() =~= Seq::<char>::empty());
        assert(digits_value(s) == digits_value(s.drop_last()) * 10 + digit_value(s.last()));
    } else {
        lemma_decimal(n / 10);
        let p = decimal(n / 10);
        let c = digit_char((n % 10) as int);
        lemma_digits_value_push(p, c);
        assert(is_digit(c) && digit_value(c) == n % 10);
        let s = decimal(n);
        assert forall|i: int| 0 <= i < s.len() implies #[trigger] is_digit(s[i]) by {
            if i < p.len() {
                assert(is_digit(p[i]));
            }
        }
    }
}

/// `t` is the shortest decimal text of `n`: a non-empty run of digits that
/// denotes `n`, with no leading zero unless it is the single digit `0`.
pub open spec fn is_shortest_decimal(t: Seq<char>, n: nat) -> bool {
    &&& t.len() > 0
    &&& all_digits(t)
    &&& digits_value(t) == n
    &&& (t.len() == 1 || t[0] != '0')
}

/// The decimal form of a positive number does not start with `0`, and the
/// decimal form of zero is the single digit `0`.
pub proof fn lemma_decimal_leading_digit(n: nat)
    ensures
        n > 0 ==> decimal(n)[0] != '0',
        n == 0 ==> decimal(n).len() == 1,
    decreases n,
{
    if n >= 10 {
        lemma_decimal_leading_digit(n / 10);
        lemma_decimal(n / 10);
        assert(decimal(n)[0] == decimal(n / 10)[0]);
    }
}

/// The decimal form of `n` is the shortest decimal text of `n`.
pub proof fn lemma_decimal_is_shortest(n: nat)
    ensures
        is_shortest_decimal(decimal(n), n),
{
    lemma_decimal(n);
    lemma_decimal_leading_digit(n);
}

/// A run of digits that does not start with `0` denotes at least 1, and at
/// least 10 when it has two digits or more.
proof fn lemma_no_leading_zero_bounds(t: Seq<char>)
    requires
        t.len() > 0,
        all_digits(t),
        t[0] != '0',
    ensures
        digits_value(t) >= 1,
        t.len() >= 2 ==> digits_value(t) >= 10,
    decreases t.len(),
{
    assert(is_digit(t[0]));
    assert(digit_value(t[0]) >= 1);
    if t.len() == 1 {
        assert(t.drop_last() =~= Seq::<char>::empty());
        assert(digits_value(t) == digits_value(t.drop_last()) * 10 + digit_value(t.last()));
    } else {
        let p = t.drop_last();
        assert(all_digits(p)) by {
            assert forall|i: int| 0 <= i < p.len() implies #[trigger] is_digit(p[i]) by {
                assert(is_digit(t[i]));
            }
        }
        assert(p[0] == t[0]);
        lemma_no_leading_zero_bounds(p);
        assert(is_digit(t[t.len() - 1]));
        assert(digits_value(t) == digits_value(p) * 10 + digit_value(t.last()));
    }
}

/// Every number has only one shortest decimal text.
pub proof fn lemma_shortest_decimal_unique(t1: Seq<char>, t2: Seq<char>, n: nat)
    requires
        is_shortest_decimal(t1, n),
        is_shortest_decimal(t2, n),
    ensures
        t1 == t2,
    decreases t1.len(),
{
    if t1.len() == 1 && t2.len() == 1 {
        assert(t1.drop_last() =~= Seq::<char>::empty());
        assert(t2.drop_last() =~= Seq::<char>::empty());
        assert(is_digit(t1[0]) && is_digit(t2[0]));
        assert(t1 =~= t2);
    } else if t1.len() == 1 {
        assert(t1.drop_last() =~= Seq::<char>::empty());
        assert(is_digit(t1[0]));
        lemma_no_leading_zero_bounds(t2);
    } else if t2.len() == 1 {
        assert(t2.drop_last() =~= Seq::<char>::empty());
        assert(is_digit(t2[0]));
        lemma_no_leading_zero_bounds(t1);
    } else {
        let p1 = t1.drop_last();
        let p2 = t2.drop_last();
        assert(all_digits(p1)) by {
            assert forall|i: int| 0 <= i < p1.len() implies #[trigger] is_digit(p1[i]) by {
                assert(is_digit(t1[i]));
            }
        }
        assert(all_digits(p2)) by {
            assert forall|i: int| 0 <= i < p2.len() implies #[trigger] is_digit(p2[i]) by {
                assert(is_digit(t2[i]));
            }
        }
        assert(is_digit(t1[t1.len() - 1]));
        assert(is_digit(t2[t2.len() - 1]));
        lemma_digits_value_nonneg(p1);
        lemma_digits_value_nonneg(p2);
        let v1 = digits_value(p1);
        let v2 = digits_value(p2);
        let d1 = digit_value(t1.last());
        let d2 = digit_value(t2.last());
        assert(v1 * 10 + d1 == v2 * 10 + d2);
        assert(v1 == v2 && d1 == d2);
        assert(p1[0] == t1[0]);
        assert(p2[0] == t2[0]);
        lemma_shortest_decimal_unique(p1, p2, v1 as nat);
        assert(t1 =~= p1.push(t1.last()));
        assert(t2 =~= p2.push(t2.last()));
    }
}

/// Read an unsigned 16-bit number from `cs[lo..hi]`, accepting exactly what
/// `u16::from_str` accepts.
pub fn parse_u16(cs: &Vec<char>, lo: usize, hi: usize) -> (r: Option<u16>)
    requires
        lo <= hi <= cs@.len(),
    ensures
        r == spec_parse_u16(cs@.subrange(lo as int, hi as int)),
{
    let ghost s = cs@.subrange(lo as int, hi as int);
    let mut start: usize = lo;
    if lo < hi && cs[lo] == '+' {
        start = lo + 1;
        assert(s.drop_first() =~= cs@.subrange(start as int, hi as int));
    } else {
        assert(s =~= cs@.subrange(start as int, hi as int));
    }
    let ghost d = cs@.subrange(start as int, hi as int);
    assert(unsigned_digits(s) == d);
    if start == hi {
        return None;
    }
    let mut acc: u32 = 0;
    let mut i: usize = start;
    assert(d.take(0) =~= Seq::<char>::empty());
    while i < hi
        invariant
            lo <= start < hi <= cs@.len(),
            start <= i <= hi,
            d == cs@.subrange(start as int, hi as int),
            unsigned_digits(s) == d,
            s == cs@.subrange(lo as int, hi as int),
            all_digits(d.take(i - start)),
            acc as int == digits_value(d.take(i - start)),
            acc <= 65535,
        decreases hi - i,
    {
        let c = cs[i];
        if !(c >= '0' && c <= '9') {
            assert(!is_digit(d[i - start]));
            return None;
        }
        let ghost k: int = i - start;
        assert(d.take(k + 1) =~= d.take(k).push(c));
        proof {
            lemma_digits_value_push(d.take(k), c);
        }
        acc = acc * 10 + (c as u32 - '0' as u32);
        i = i + 1;
        assert(all_digits(d.take(i - start))) by {
            assert forall|j: int| 0 <= j < d.take(i - start).len() implies #[trigger] is_digit(
                d.take(i - start)[j],
            ) by {
                if j < k {
                    assert(is_digit(d.take(k)[j]));
                }
            }
        }
        if acc > 65535 {
            proof {
                if all_digits(d) {
                    lemma_digits_value_prefix(d, i - start);
                }
            }
            return None;
        }
    }
    assert(d.take(d.len() as int) =~= d);
    Some(acc as u16)
}

/// Return the digit character of a value below ten, as a string.
fn digit_str(d: u16) -> (s: &'static str)
    requires
        d < 10,
    ensures
        s@ == seq![digit_char(d as int)],
{
    let ghost digits = seq!['0', '1', '2', '3', '4', '5', '6', '7', '8', '9'];
    proof {
        reveal_strlit("0");
        reveal_strlit("1");
        reveal_strlit("2");
        reveal_strlit("3");
        reveal_strlit("4");
        reveal_strlit("5");
        reveal_strlit("6");
        reveal_strlit("7");
        reveal_strlit("8");
        reveal_strlit("9");
    }
    let s = match d {
        0 => "0",
        1 => "1",
        2 => "2",
        3 => "3",
        4 => "4",
        5 => "5",
        6 => "6",
        7 => "7",
        8 => "8",
        _ => "9",
    };
    assert(s@ =~= seq![digits[d as int]]);
    s
}

/// Append the shortest decimal form of `n` to `out`.
pub fn push_decimal(out: &mut String, n: u16)
    ensures
        final(out)@ == old(out)@ + decimal(n as nat),
    decreases n,
{
    if n >= 10 {
        push_decimal(out, n / 10);
    }
    out.append(digit_str(n % 10));
    proof {
        if n >= 10 {
            assert(out@ =~= old(out)@ + decimal((n / 10) as nat).push(digit_char((n % 10) as int)));
        } else {
            assert(out@ =~= old(out)@ + decimal(n as nat));
        }
    }
}

/// The characters of `s`, in order.
pub fn chars_of(s: &str) -> (v: Vec<char>)
    ensures
        v@ == s@,
{
    let mut v: Vec<char> = Vec::new();
    for c in it: s.chars()
        invariant
            v@ == it.seq().take(it.index()),
    {
        v.push(c);
    }
    v
}

} // verus!
