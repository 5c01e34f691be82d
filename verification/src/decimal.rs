//! Decimal numerals: the text of a number and the number of a text.

use vstd::prelude::*;

verus! {

/// The character that writes the digit `d`, for `d` below ten.
pub open spec fn digit_char(d: nat) -> char {
    if d == 0 {
        '0'
    } else if d == 1 {
        '1'
    } else if d == 2 {
        '2'
    } else if d == 3 {
        '3'
    } else if d == 4 {
        '4'
    } else if d == 5 {
        '5'
    } else if d == 6 {
        '6'
    } else if d == 7 {
        '7'
    } else if d == 8 {
        '8'
    } else {
        '9'
    }
}

/// The decimal numeral of `n`: most significant digit first, no leading zero,
/// and the single digit `0` for zero.
pub open spec fn decimal(n: nat) -> Seq<char>
    decreases n,
{
    if n < 10 {
        seq![digit_char(n)]
    } else {
        decimal(n / 10).push(digit_char(n % 10))
    }
}

fn digit_str(d: u64) -> (s: &'static str)
    requires
        d < 10,
    ensures
        s@ == seq![digit_char(d as nat)],
{
    proof {
        reveal_strlit("0");
        reveal_strlit("1");
        reveal_strlit("2");
        reveal_strlit("3");
        reveal_strlit("4");
        reveal_strlit("5");
        reveal_strlit("6");
        reveal_strlit("7");
        reveal_strlit("8");
        reveal_strlit("9");
    }
    let s = if d == 0 {
        "0"
    } else if d == 1 {
        "1"
    } else if d == 2 {
        "2"
    } else if d == 3 {
        "3"
    } else if d == 4 {
        "4"
    } else if d == 5 {
        "5"
    } else if d == 6 {
        "6"
    } else if d == 7 {
        "7"
    } else if d == 8 {
        "8"
    } else {
        "9"
    };
    assert(s@ =~= seq![digit_char(d as nat)]);
    s
}

/// Appends the decimal numeral of `n` to `out`.
pub fn push_decimal(out: &mut String, n: u64)
    ensures
        final(out)@ == old(out)@ + decimal(n as nat),
    decreases n,
{
    if n >= 10 {
        push_decimal(out, n / 10);
    }
    out.append(digit_str(n % 10));
    assert(out@ =~= old(out)@ + decimal(n as nat));
}

/// Whether `c` is one of the ten decimal digits.
pub open spec fn is_digit(c: char) -> bool {
    '0' <= c <= '9'
}

/// The number that a run of digits writes, leading zeros allowed; the empty
/// run writes zero.
pub open spec fn digits_value(s: Seq<char>) -> nat
    decreases s.len(),
{
    if s.len() == 0 {
        0
    } else {
        digits_value(s.drop_last()) * 10 + (s.last() as nat - '0' as nat) as nat
    }
}

/// Whether `s` is written as `decimal` writes: digits only, at least one, and
/// no leading zero before another digit.
pub open spec fn is_canonical_numeral(s: Seq<char>) -> bool {
    &&& s.len() > 0
    &&& forall|i: int| 0 <= i < s.len() ==> is_digit(#[trigger] s[i])
    &&& s.len() > 1 ==> s[0] != '0'
}

/// Whether `s` is the decimal numeral of a number that fits in a `u64`.
pub open spec fn is_numeral(s: Seq<char>) -> bool {
    exists|n: nat| n <= u64::MAX && #[trigger] decimal(n) == s
}

/// A decimal numeral is canonical and writes the number it was made from.
pub proof fn lemma_decimal_canonical(n: nat)
    ensures
        is_canonical_numeral(decimal(n)),
        digits_value(decimal(n)) == n,
    decreases n,
{
    if n < 10 {
        let s = decimal(n);
        assert(digits_value(s.drop_last()) == 0);
    } else {
        lemma_decimal_canonical(n / 10);
        let p = decimal(n / 10);
        let s = decimal(n);
        assert(s == p.push(digit_char(n % 10)));
        assert(s.drop_last() =~= p);
        assert(s[0] == p[0]);
        assert(p[0] != '0') by {
            if p.len() == 1 && p[0] == '0' {
                assert(digits_value(p.drop_last()) == 0);
                assert(digits_value(p) == 0);
            }
        }
        assert forall|i: int| 0 <= i < s.len() implies is_digit(#[trigger] s[i]) by {
            if i < p.len() {
                assert(s[i] == p[i]);
            }
        }
    }
}

/// A canonical numeral is the decimal numeral of the number it writes.
pub proof fn lemma_canonical_decimal(s: Seq<char>)
    requires
        is_canonical_numeral(s),
    ensures
        decimal(digits_value(s)) == s,
    decreases s.len(),
{
    let p = s.drop_last();
    let d = (s.last() as nat - '0' as nat) as nat;
    assert(is_digit(s[s.len() - 1]));
    if s.len() == 1 {
        assert(digits_value(p) == 0);
        assert(digits_value(s) == d);
        assert(decimal(d) =~= s);
    } else {
        assert(p[0] == s[0]);
        assert forall|i: int| 0 <= i < p.len() implies is_digit(#[trigger] p[i]) by {
            assert(p[i] == s[i]);
        }
        lemma_canonical_decimal(p);
        let v = digits_value(p);
        assert(v != 0) by {
            if v == 0 {
                assert(decimal(0) == seq!['0']);
                assert(p[0] == '0');
            }
        }
        let n = digits_value(s);
        assert(n == v * 10 + d);
        assert(n / 10 == v && n % 10 == d);
        assert(decimal(n) == decimal(v).push(digit_char(d)));
        assert(decimal(n) =~= s);
    }
}

/// Two numbers with the same decimal numeral are the same number.
pub proof fn lemma_decimal_injective(a: nat, b: nat)
    requires
        decimal(a) == decimal(b),
    ensures
        a == b,
{
    lemma_decimal_canonical(a);
    lemma_decimal_canonical(b);
}

/// The numerals of `u64` numbers are the canonical numerals that write one.
pub proof fn lemma_numeral_canonical(s: Seq<char>)
    ensures
        is_numeral(s) <==> is_canonical_numeral(s) && digits_value(s) <= u64::MAX,
{
    if is_numeral(s) {
        let n = choose|n: nat| n <= u64::MAX && #[trigger] decimal(n) == s;
        lemma_decimal_canonical(n);
    }
    if is_canonical_numeral(s) && digits_value(s) <= u64::MAX {
        lemma_canonical_decimal(s);
        assert(decimal(digits_value(s)) == s);
    }
}

proof fn lemma_value_of_prefix(s: Seq<char>, k: int)
    requires
        0 <= k <= s.len(),
    ensures
        digits_value(s.take(k)) <= digits_value(s),
    decreases s.len() - k,
{
    if k < s.len() {
        lemma_value_of_prefix(s, k + 1);
        assert(s.take(k + 1).drop_last() =~= s.take(k));
    } else {
        assert(s.take(k) =~= s);
    }
}

/// Reads `s` as a decimal numeral: the number it writes, where `s` is the
/// numeral of a `u64` number, and nothing otherwise.
pub fn numeral_value(s: &str) -> (r: Option<u64>)
    ensures
        r is Some <==> is_numeral(s@),
        r matches Some(n) ==> decimal(n as nat) == s@,
{
    proof {
        lemma_numeral_canonical(s@);
    }
    if !s.is_ascii() {
        return None;
    }
    let bytes = s.as_bytes();
    proof {
        vstd::string::is_ascii_spec_bytes(s);
    }
    let len = bytes.len();
    if len == 0 {
        return None;
    }
    if len > 1 && bytes[0] == 48 {
        assert(s@[0] as u8 == bytes@[0]);
        return None;
    }
    let mut acc: u64 = 0;
    let mut i: usize = 0;
    while i < len
        invariant
            i <= len,
            len == bytes@.len(),
            bytes@.len() == s@.len(),
            forall|k: int| 0 <= k < s@.len() ==> #[trigger] bytes@[k] == s@[k] as u8,
            forall|k: int| 0 <= k < s@.len() ==> '\0' <= #[trigger] s@[k] <= '\u{7f}',
            forall|k: int| 0 <= k < i ==> is_digit(#[trigger] s@[k]),
            acc == digits_value(s@.take(i as int)),
            is_numeral(s@) <==> is_canonical_numeral(s@) && digits_value(s@) <= u64::MAX,
        decreases len - i,
    {
        let b = bytes[i];
        assert(s@[i as int] as u8 == b);
        if b < 48 || b > 57 {
            assert(!is_digit(s@[i as int]));
            return None;
        }
        let d: u64 = (b - 48) as u64;
        proof {
            let next = s@.take(i + 1);
            assert(next.drop_last() =~= s@.take(i as int));
            assert(next.last() == s@[i as int]);
            assert(digits_value(next) == acc * 10 + d);
            lemma_value_of_prefix(s@, i + 1);
        }
        if acc > (u64::MAX - d) / 10 {
            return None;
        }
        acc = acc * 10 + d;
        i += 1;
    }
    proof {
        assert(s@.take(len as int) =~= s@);
        lemma_canonical_decimal(s@);
    }
    Some(acc)
}

} // verus!
