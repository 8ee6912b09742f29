//! Base-10 text of a numeric user or group id.
//!
//! An id is written as one or more ASCII digits, optionally preceded by a
//! single `+`. Nothing else is accepted: no whitespace, no `-`, no
//! underscores, no digits of other scripts. The value must fit in 32 bits.

use vstd::prelude::*;
use vstd::string::*;

verus! {

/// The byte of the sign `+`.
const PLUS: u8 = 43;

/// The byte of the digit `0`.
const ZERO: u8 = 48;

/// The byte of the digit `9`.
const NINE: u8 = 57;

/// Whether `c` is one of the ASCII digits `0` to `9`.
pub open spec fn is_digit(c: char) -> bool {
    '0' <= c <= '9'
}

/// The number that the ASCII digit `c` stands for.
pub open spec fn digit_value(c: char) -> nat
    recommends
        is_digit(c),
{
    (c as int - '0' as int) as nat
}

/// Whether every character of `s` is an ASCII digit.
pub open spec fn all_digits(s: Seq<char>) -> bool {
    forall|i: int| 0 <= i < s.len() ==> is_digit(#[trigger] s[i])
}

/// The number that the first `k` digits of `s` denote in base 10, most
/// significant digit first. No digits denote 0.
pub open spec fn prefix_value(s: Seq<char>, k: nat) -> nat
    recommends
        k <= s.len(),
        all_digits(s),
    decreases k,
{
    if k == 0 {
        0
    } else {
        prefix_value(s, (k - 1) as nat) * 10 + digit_value(s[k - 1])
    }
}

/// The number that a sequence of digits denotes in base 10.
pub open spec fn decimal_value(s: Seq<char>) -> nat
    recommends
        all_digits(s),
{
    prefix_value(s, s.len())
}

/// The text without its leading `+`, if it has one.
pub open spec fn digits_part(s: Seq<char>) -> Seq<char> {
    if s.len() > 0 && s[0] == '+' {
        s.subrange(1, s.len() as int)
    } else {
        s
    }
}

/// The id that the text `s` denotes, if it denotes one.
pub open spec fn id_of_text(s: Seq<char>) -> Option<u32> {
    let digits = digits_part(s);
    if digits.len() > 0 && all_digits(digits) && decimal_value(digits) <= u32::MAX {
        Some(decimal_value(digits) as u32)
    } else {
        None
    }
}

/// Fewer digits never denote more: the value of a prefix is at most the
/// value of any longer prefix.
pub proof fn lemma_prefix_value_grows(s: Seq<char>, k: nat, n: nat)
    requires
        k <= n,
    ensures
        prefix_value(s, k) <= prefix_value(s, n),
    decreases n,
{
    if k < n {
        lemma_prefix_value_grows(s, k, (n - 1) as nat);
    }
}

/// Text that holds a character outside ASCII denotes no id.
pub proof fn lemma_non_ascii_denotes_nothing(s: Seq<char>)
    requires
        !vstd::utf8::is_ascii_chars(s),
    ensures
        id_of_text(s) is None,
{
    let i = choose|i: int| 0 <= i < s.len() && !('\0' <= #[trigger] s[i] <= '\u{7f}');
    let digits = digits_part(s);
    if digits.len() == s.len() {
        assert(!is_digit(digits[i]));
    } else {
        assert(digits[i - 1] == s[i]);
        assert(!is_digit(digits[i - 1]));
    }
}

/// Reads a numeric id from its base-10 text.
///
/// Returns the id exactly when the text is an optional `+` followed by at
/// least one ASCII digit and the number fits in a `u32`; otherwise `None`.
/// Leading zeros are allowed and do not count towards the size.
pub fn parse_id(text: &str) -> (id: Option<u32>)
    ensures
        id == id_of_text(text@),
{
    if !text.is_ascii() {
        proof {
            lemma_non_ascii_denotes_nothing(text@);
        }
        return None;
    }
    let bytes = text.as_bytes();
    proof {
        is_ascii_spec_bytes(text);
    }
    let n: usize = bytes.len();
    let start: usize = if n > 0 && bytes[0] == PLUS {
        1
    } else {
        0
    };
    let ghost digits = digits_part(text@);
    assert(digits =~= text@.subrange(start as int, n as int));
    if start == n {
        return None;
    }
    let mut value: u64 = 0;
    let mut i: usize = start;
    while i < n
        invariant
            start <= i <= n,
            n == bytes@.len(),
            n == text@.len(),
            forall|j: int| 0 <= j < n ==> bytes@[j] == #[trigger] text@[j] as u8,
            vstd::utf8::is_ascii_chars(text@),
            digits == digits_part(text@),
            digits == text@.subrange(start as int, n as int),
            forall|j: int| 0 <= j < i - start ==> is_digit(#[trigger] digits[j]),
            value == prefix_value(digits, (i - start) as nat),
            value <= u32::MAX,
        decreases n - i,
    {
        let b: u8 = bytes[i];
        let ghost c: char = text@[i as int];
        assert(digits[i - start] == c);
        assert('\0' <= c <= '\u{7f}');
        if b < ZERO || b > NINE {
            assert(!is_digit(c));
            return None;
        }
        assert(digit_value(c) == b - ZERO);
        let next: u64 = value * 10 + (b - ZERO) as u64;
        if next > u32::MAX as u64 {
            proof {
                lemma_prefix_value_grows(digits, (i - start + 1) as nat, digits.len());
            }
            return None;
        }
        value = next;
        i = i + 1;
    }
    Some(value as u32)
}

} // verus!
