//! Decimal encoding of a `u64` as a sequence of ASCII digit characters,
//! together with a parser that inverts it. The persisted application
//! state (see `state`) stores its numeric field in this form.

use vstd::arithmetic::div_mod::lemma_fundamental_div_mod;
use vstd::prelude::*;
use vstd::string::StrSliceExecFns;
use vstd::string::StringExecFns;

verus! {

/// True when `c` is one of the ASCII digits `'0'` through `'9'`.
pub open spec fn is_digit(c: char) -> bool {
    48 <= c as int && c as int <= 57
}

/// Numeric value of an ASCII digit character.
pub open spec fn digit_val(c: char) -> nat {
    (c as int - 48) as nat
}

/// The ASCII digit character for a value below ten.
pub open spec fn char_of_digit(d: nat) -> char {
    if d == 0 {
        '0'
    } else if d == 1 {
        '1'
    } else if d == 2 {
        '2'
    } else if d == 3 {
        '3'
    } else if d == 4 {
        '4'
    } else if d == 5 {
        '5'
    } else if d == 6 {
        '6'
    } else if d == 7 {
        '7'
    } else if d == 8 {
        '8'
    } else {
        '9'
    }
}

/// The decimal digit characters of `n`, most significant first,
/// with no leading zeros (a single `'0'` for zero itself).
pub open spec fn dec_digits(n: nat) -> Seq<char>
    decreases n,
{
    if n < 10 {
        seq![char_of_digit(n)]
    } else {
        dec_digits(n / 10).push(char_of_digit(n % 10))
    }
}

/// True when every character of `s` is an ASCII digit.
pub open spec fn all_digits(s: Seq<char>) -> bool {
    forall|i: int| 0 <= i < s.len() ==> is_digit(#[trigger] s[i])
}

/// The number that a sequence of digit characters denotes
/// (most significant first; the empty sequence denotes zero).
pub open spec fn parsed_value(s: Seq<char>) -> nat
    decreases s.len(),
{
    if s.len() == 0 {
        0
    } else {
        parsed_value(s.drop_last()) * 10 + digit_val(s.last())
    }
}

/// `char_of_digit` produces digits, and `digit_val` inverts it.
pub proof fn lemma_char_of_digit_val(d: nat)
    requires
        d < 10,
    ensures
        is_digit(char_of_digit(d)),
        digit_val(char_of_digit(d)) == d,
{
}

/// The decimal digits of `n` are all digit characters, and there is
/// at least one of them.
pub proof fn lemma_dec_digits_are_digits(n: nat)
    ensures
        dec_digits(n).len() >= 1,
        all_digits(dec_digits(n)),
    decreases n,
{
    if n < 10 {
        lemma_char_of_digit_val(n);
    } else {
        lemma_dec_digits_are_digits(n / 10);
        lemma_char_of_digit_val(n % 10);
    }
}

/// Parsing the decimal digits of `n` gives back `n`.
pub proof fn lemma_parse_dec_digits(n: nat)
    ensures
        parsed_value(dec_digits(n)) == n,
    decreases n,
{
    if n < 10 {
        let s = dec_digits(n);
        assert(s.drop_last() =~= Seq::<char>::empty());
        assert(s.last() == char_of_digit(n));
        lemma_char_of_digit_val(n);
        assert(parsed_value(s) == parsed_value(s.drop_last()) * 10 + digit_val(s.last()));
    } else {
        lemma_parse_dec_digits(n / 10);
        lemma_char_of_digit_val(n % 10);
        let prefix = dec_digits(n / 10);
        let s = dec_digits(n);
        assert(s.drop_last() =~= prefix);
        assert(s.last() == char_of_digit(n % 10));
        assert(parsed_value(s) == parsed_value(prefix) * 10 + digit_val(s.last()));
        lemma_fundamental_div_mod(n as int, 10);
    }
}

/// The decimal digit characters of `n`, as a string.
pub fn digits_string(n: u64) -> (s: String)
    ensures
        s@ == dec_digits(n as nat),
    decreases n,
{
    if n < 10 {
        let s = String::from_str(digit_str(n));
        assert(s@ =~= dec_digits(n as nat));
        s
    } else {
        let mut s = digits_string(n / 10);
        s.append(digit_str(n % 10));
        assert(s@ =~= dec_digits(n as nat));
        s
    }
}

/// The one-character string for a digit value below ten.
fn digit_str(d: u64) -> (r: &'static str)
    requires
        d < 10,
    ensures
        r@ =~= seq![char_of_digit(d as nat)],
{
    proof {
        reveal_strlit("0");
        reveal_strlit("1");
        reveal_strlit("2");
        reveal_strlit("3");
        reveal_strlit("4");
        reveal_strlit("5");
        reveal_strlit("6");
        reveal_strlit("7");
        reveal_strlit("8");
        reveal_strlit("9");
    }
    match d {
        0 => "0",
        1 => "1",
        2 => "2",
        3 => "3",
        4 => "4",
        5 => "5",
        6 => "6",
        7 => "7",
        8 => "8",
        _ => "9",
    }
}

/// Parses the digit characters `s[0 .. k]` as a decimal number.
/// Returns `None` exactly when the denoted value does not fit in a `u64`.
pub fn parse_digits(s: &str, k: usize) -> (r: Option<u64>)
    requires
        k <= s@.len(),
        all_digits(s@.subrange(0, k as int)),
    ensures
        match r {
            Some(v) => v as nat == parsed_value(s@.subrange(0, k as int)) && parsed_value(
                s@.subrange(0, k as int),
            ) <= u64::MAX,
            None => parsed_value(s@.subrange(0, k as int)) > u64::MAX,
        },
{
    let mut acc: Option<u64> = Some(0);
    let mut i: usize = 0;
    assert(s@.subrange(0, 0) =~= Seq::<char>::empty());
    while i < k
        invariant
            i <= k,
            k <= s@.len(),
            all_digits(s@.subrange(0, k as int)),
            match acc {
                Some(v) => v as nat == parsed_value(s@.subrange(0, i as int)) && parsed_value(
                    s@.subrange(0, i as int),
                ) <= u64::MAX,
                None => parsed_value(s@.subrange(0, i as int)) > u64::MAX,
            },
        decreases k - i,
    {
        let c = s.get_char(i);
        assert(s@.subrange(0, k as int)[i as int] == c);
        let code: u32 = c as u32;
        let d: u64 = (code - 48) as u64;
        proof {
            assert(s@.subrange(0, (i + 1) as int).drop_last() =~= s@.subrange(0, i as int));
            assert(s@.subrange(0, (i + 1) as int).last() == c);
        }
        match acc {
            Some(v) => {
                if v <= (u64::MAX - d) / 10 {
                    proof {
                        lemma_fundamental_div_mod((u64::MAX - d) as int, 10);
                    }
                    acc = Some(v * 10 + d);
                } else {
                    proof {
                        lemma_fundamental_div_mod((u64::MAX - d) as int, 10);
                    }
                    acc = None;
                }
            },
            None => {
                acc = None;
            },
        }
        i = i + 1;
    }
    acc
}

} // verus!
