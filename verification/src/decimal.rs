//! Decimal text for unsigned integers: reading a `u64` typed by a user and
//! writing one back out, with the two proved to be inverse.

use vstd::prelude::*;

verus! {

/// Whether `c` is one of the ASCII digits `0` to `9`.
pub open spec fn is_digit_char(c: char) -> bool {
    48 <= (c as int) && (c as int) <= 57
}

/// The numeric value of an ASCII digit.
pub open spec fn digit_value(c: char) -> nat {
    ((c as int) - 48) as nat
}

/// The ASCII digit for a value below ten.
pub open spec fn digit_char(d: nat) -> char {
    ((d + 48) as u8) as char
}

/// Every character of `s` is an ASCII digit.
pub open spec fn all_digits(s: Seq<char>) -> bool {
    forall|i: int| 0 <= i < s.len() ==> is_digit_char(#[trigger] s[i])
}

/// The number that a string of digits spells, most significant first.
pub open spec fn digits_value(s: Seq<char>) -> nat
    decreases s.len(),
{
    if s.len() == 0 {
        0
    } else {
        digits_value(s.drop_last()) * 10 + digit_value(s.last())
    }
}

/// The digits of an unsigned number once an optional leading `+` is removed.
pub open spec fn unsigned_digits(s: Seq<char>) -> Seq<char> {
    if s.len() > 0 && s[0] == '+' {
        s.drop_first()
    } else {
        s
    }
}

/// What reading `s` as a decimal `u64` gives: an optional `+` followed by at
/// least one digit, with a value that fits; anything else is rejected.
pub open spec fn spec_parse_u64(s: Seq<char>) -> Option<u64> {
    let d = unsigned_digits(s);
    if d.len() > 0 && all_digits(d) && digits_value(d) <= u64::MAX {
        Some(digits_value(d) as u64)
    } else {
        None
    }
}

/// The shortest decimal spelling of `n`.
pub open spec fn decimal_digits(n: nat) -> Seq<char>
    decreases n,
{
    if n < 10 {
        seq![digit_char(n)]
    } else {
        decimal_digits(n / 10).push(digit_char(n % 10))
    }
}

/// Appends `c` to `s` (`String::push`); the documentation states that the
/// character is added at the end and nothing else changes.
#[verifier::external_body]
pub(crate) fn push_char(s: &mut String, c: char)
    ensures
        final(s)@ == old(s)@.push(c),
{
    s.push(c);
}

proof fn lemma_digit_roundtrip(d: nat)
    requires
        d < 10,
    ensures
        is_digit_char(digit_char(d)),
        digit_value(digit_char(d)) == d,
{
}

proof fn lemma_digits_value_push(s: Seq<char>, c: char)
    ensures
        digits_value(s.push(c)) == digits_value(s) * 10 + digit_value(c),
{
    assert(s.push(c).drop_last() =~= s);
}

/// Reads `text` as a decimal `u64` the way `u64::from_str` does.
pub fn parse_u64(text: &str) -> (r: Option<u64>)
    ensures
        r == spec_parse_u64(text@),
{
    let n = text.unicode_len();
    let mut start: usize = 0;
    if n > 0 && text.get_char(0) == '+' {
        start = 1;
    }
    let ghost d = unsigned_digits(text@);
    assert(d =~= text@.subrange(start as int, n as int));
    if start == n {
        return None;
    }
    let mut i: usize = start;
    let mut value: u64 = 0;
    let mut overflow = false;
    assert(text@.subrange(start as int, start as int) =~= Seq::<char>::empty());
    while i < n
        invariant
            start < n,
            start <= i <= n,
            n == text@.len(),
            d == text@.subrange(start as int, n as int),
            d == unsigned_digits(text@),
            all_digits(text@.subrange(start as int, i as int)),
            !overflow ==> value == digits_value(text@.subrange(start as int, i as int)),
            overflow ==> digits_value(text@.subrange(start as int, i as int)) > u64::MAX,
        decreases n - i,
    {
        let c = text.get_char(i);
        let cu = c as u32;
        if cu < 48 || cu > 57 {
            assert(d[i - start] == c);
            return None;
        }
        let dv = (cu - 48) as u64;
        let ghost prefix = text@.subrange(start as int, i as int);
        let ghost next = text@.subrange(start as int, i + 1);
        assert(next =~= prefix.push(c));
        proof {
            lemma_digits_value_push(prefix, c);
        }
        if !overflow {
            match value.checked_mul(10) {
                Some(v10) => match v10.checked_add(dv) {
                    Some(v) => {
                        value = v;
                    },
                    None => {
                        overflow = true;
                    },
                },
                None => {
                    overflow = true;
                },
            }
        }
        i = i + 1;
    }
    assert(text@.subrange(start as int, n as int) == d);
    if overflow {
        None
    } else {
        Some(value)
    }
}

fn digit_char_exec(d: u64) -> (c: char)
    requires
        d < 10,
    ensures
        c == digit_char(d as nat),
{
    ((d as u8) + 48u8) as char
}

fn push_decimal(out: &mut String, n: u64)
    ensures
        final(out)@ == old(out)@ + decimal_digits(n as nat),
    decreases n,
{
    if n >= 10 {
        push_decimal(out, n / 10);
    }
    let c = digit_char_exec(n % 10);
    push_char(out, c);
    assert(final(out)@ =~= old(out)@ + decimal_digits(n as nat)) by {
        reveal_with_fuel(decimal_digits, 2);
    };
}

/// The decimal spelling of `n` (as `n.to_string()` gives it).
pub fn to_decimal(n: u64) -> (s: String)
    ensures
        s@ == decimal_digits(n as nat),
{
    let mut s = String::new();
    push_decimal(&mut s, n);
    assert(s@ =~= decimal_digits(n as nat));
    s
}

/// Appends the decimal spelling of `n` to `prefix`.
pub fn with_decimal_suffix(prefix: &str, n: u64) -> (s: String)
    ensures
        s@ == prefix@ + decimal_digits(n as nat),
{
    let mut s = prefix.to_owned();
    push_decimal(&mut s, n);
    s
}

proof fn lemma_decimal_digits_shape(n: nat)
    ensures
        decimal_digits(n).len() > 0,
        all_digits(decimal_digits(n)),
        digits_value(decimal_digits(n)) == n,
    decreases n,
{
    if n < 10 {
        lemma_digit_roundtrip(n);
        assert(seq![digit_char(n)] =~= Seq::<char>::empty().push(digit_char(n)));
        lemma_digits_value_push(Seq::<char>::empty(), digit_char(n));
    } else {
        lemma_decimal_digits_shape(n / 10);
        lemma_digit_roundtrip(n % 10);
        lemma_digits_value_push(decimal_digits(n / 10), digit_char(n % 10));
    }
}

/// A text is read as a number only if, after at most one leading `+`, it is
/// a non-empty run of ASCII digits; the number read is then the one those
/// digits spell.
pub proof fn law_parse_accepts_only_digits(s: Seq<char>, i: int)
    ensures
        s.len() == 0 ==> spec_parse_u64(s) is None,
        s == seq!['+'] ==> spec_parse_u64(s) is None,
        (0 < i < s.len() || (i == 0 && s.len() > 0 && s[0] != '+')) && !is_digit_char(s[i])
            ==> spec_parse_u64(s) is None,
        spec_parse_u64(s) matches Some(v) ==> v == digits_value(
            if s[0] == '+' {
                s.subrange(1, s.len() as int)
            } else {
                s
            },
        ),
{
    if s == seq!['+'] {
        assert(s.drop_first() =~= Seq::<char>::empty());
    }
    if (0 < i < s.len() || (i == 0 && s.len() > 0 && s[0] != '+')) && !is_digit_char(s[i]) {
        let d = unsigned_digits(s);
        if s.len() > 0 && s[0] == '+' {
            assert(d[i - 1] == s[i]);
        } else {
            assert(d[i] == s[i]);
        }
    }
    if s.len() > 0 && s[0] == '+' {
        assert(s.drop_first() =~= s.subrange(1, s.len() as int));
    }
}

/// Reading back what `to_decimal` writes gives the same number.
pub proof fn law_decimal_roundtrip(n: u64)
    ensures
        spec_parse_u64(decimal_digits(n as nat)) == Some(n),
{
    lemma_decimal_digits_shape(n as nat);
    let s = decimal_digits(n as nat);
    assert(is_digit_char(s[0]));
    assert(s[0] != '+');
}

} // verus!
