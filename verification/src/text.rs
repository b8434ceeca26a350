//! Comparisons and small parsers on text, stated over sequences of characters.

use vstd::prelude::*;
use vstd::std_specs::iter::IteratorSpec;
use vstd::string::StringExecFns;

verus! {

/// `prefix` is an initial segment of `text`.
pub open spec fn is_prefix_of(prefix: Seq<char>, text: Seq<char>) -> bool {
    prefix.len() <= text.len() && text.subrange(0, prefix.len() as int) == prefix
}

/// Whether `text` begins with `prefix`, character by character.
pub fn starts_with(text: &str, prefix: &str) -> (found: bool)
    ensures
        found == is_prefix_of(prefix@, text@),
{
    broadcast use vstd::string::group_string_axioms;

    let mut rest_text = text.chars();
    let mut rest_prefix = prefix.chars();
    let ghost mut seen: int = 0;
    loop
        invariant
            rest_text.obeys_prophetic_iter_laws(),
            rest_prefix.obeys_prophetic_iter_laws(),
            rest_prefix.decrease() is Some,
            0 <= seen <= prefix@.len(),
            seen <= text@.len(),
            rest_text.remaining() == text@.subrange(seen, text@.len() as int),
            rest_prefix.remaining() == prefix@.subrange(seen, prefix@.len() as int),
            text@.subrange(0, seen) == prefix@.subrange(0, seen),
        decreases prefix@.len() - seen,
    {
        let wanted = rest_prefix.next();
        match wanted {
            None => {
                assert(prefix@.subrange(0, seen) =~= prefix@);
                return true;
            },
            Some(p) => {
                let got = rest_text.next();
                match got {
                    None => {
                        return false;
                    },
                    Some(t) => {
                        assert(p == prefix@[seen]);
                        assert(t == text@[seen]);
                        if p != t {
                            assert(!is_prefix_of(prefix@, text@)) by {
                                if is_prefix_of(prefix@, text@) {
                                    assert(text@.subrange(0, prefix@.len() as int)[seen]
                                        == prefix@[seen]);
                                }
                            }
                            return false;
                        }
                        proof {
                            assert(text@.subrange(0, seen + 1) =~= text@.subrange(0, seen).push(t));
                            assert(prefix@.subrange(0, seen + 1) =~= prefix@.subrange(
                                0,
                                seen,
                            ).push(p));
                            assert(rest_text.remaining() =~= text@.subrange(
                                seen + 1,
                                text@.len() as int,
                            ));
                            assert(rest_prefix.remaining() =~= prefix@.subrange(
                                seen + 1,
                                prefix@.len() as int,
                            ));
                            seen = seen + 1;
                        }
                    },
                }
            },
        }
    }
}

/// Whether the two texts hold the same characters.
pub fn same_text(left: &str, right: &str) -> (same: bool)
    ensures
        same == (left@ == right@),
{
    let forward = starts_with(left, right);
    let backward = starts_with(right, left);
    proof {
        if forward && backward {
            assert(left@.subrange(0, right@.len() as int) =~= left@);
        }
        if left@ == right@ {
            assert(left@.subrange(0, left@.len() as int) =~= left@);
        }
    }
    forward && backward
}

/// The characters of `text`, one by one.
pub fn chars_of(text: &str) -> (chars: Vec<char>)
    ensures
        chars@ == text@,
{
    broadcast use vstd::string::group_string_axioms;

    let mut rest = text.chars();
    let mut chars: Vec<char> = Vec::new();
    loop
        invariant
            rest.obeys_prophetic_iter_laws(),
            chars@.len() <= text@.len(),
            chars@ == text@.subrange(0, chars@.len() as int),
            rest.remaining() == text@.subrange(chars@.len() as int, text@.len() as int),
        decreases text@.len() - chars@.len(),
    {
        match rest.next() {
            None => {
                assert(text@.subrange(0, text@.len() as int) == text@);
                return chars;
            },
            Some(c) => {
                let ghost seen = chars@.len() as int;
                chars.push(c);
                proof {
                    assert(c == text@[seen]);
                    assert(chars@ =~= text@.subrange(0, seen + 1));
                    assert(rest.remaining() =~= text@.subrange(seen + 1, text@.len() as int));
                }
            },
        }
    }
}

/// `suffix` is a final segment of `text`.
pub open spec fn is_suffix_of(suffix: Seq<char>, text: Seq<char>) -> bool {
    suffix.len() <= text.len() && text.subrange(text.len() - suffix.len(), text.len() as int)
        == suffix
}

/// Whether the characters `text` end with the characters `suffix`.
pub fn chars_end_with(text: &Vec<char>, suffix: &Vec<char>) -> (found: bool)
    ensures
        found == is_suffix_of(suffix@, text@),
{
    if suffix.len() > text.len() {
        return false;
    }
    let shift = text.len() - suffix.len();
    let mut k: usize = 0;
    while k < suffix.len()
        invariant
            shift + suffix.len() == text.len(),
            k <= suffix.len(),
            forall|n: int| 0 <= n < k ==> text@[shift + n] == suffix@[n],
        decreases suffix.len() - k,
    {
        if text[shift + k] != suffix[k] {
            assert(!is_suffix_of(suffix@, text@)) by {
                if is_suffix_of(suffix@, text@) {
                    assert(text@.subrange(text@.len() - suffix@.len(), text@.len() as int)[k as int]
                        == suffix@[k as int]);
                }
            }
            return false;
        }
        k += 1;
    }
    assert(text@.subrange(text@.len() - suffix@.len(), text@.len() as int) =~= suffix@);
    true
}

/// The truth value that `text` spells: `true` or `false`, nothing else.
pub open spec fn spelled_bool(text: Seq<char>) -> Option<bool> {
    if text == seq!['t', 'r', 'u', 'e'] {
        Some(true)
    } else if text == seq!['f', 'a', 'l', 's', 'e'] {
        Some(false)
    } else {
        None
    }
}

/// Reads a truth value.
pub fn parse_bool(text: &str) -> (value: Option<bool>)
    ensures
        value == spelled_bool(text@),
{
    let chars = chars_of(text);
    if chars.len() == 4 && chars[0] == 't' && chars[1] == 'r' && chars[2] == 'u' && chars[3]
        == 'e' {
        assert(chars@ =~= seq!['t', 'r', 'u', 'e']);
        Some(true)
    } else if chars.len() == 5 && chars[0] == 'f' && chars[1] == 'a' && chars[2] == 'l' && chars[3]
        == 's' && chars[4] == 'e' {
        assert(chars@ =~= seq!['f', 'a', 'l', 's', 'e']);
        Some(false)
    } else {
        proof {
            if text@ == seq!['t', 'r', 'u', 'e'] {
                assert(text@[0] == 't' && text@[1] == 'r' && text@[2] == 'u' && text@[3] == 'e');
            }
            if text@ == seq!['f', 'a', 'l', 's', 'e'] {
                assert(text@[0] == 'f' && text@[1] == 'a' && text@[2] == 'l' && text@[3] == 's'
                    && text@[4] == 'e');
            }
        }
        None
    }
}

pub open spec fn is_digit(c: char) -> bool {
    '0' <= c <= '9'
}

pub open spec fn all_digits(digits: Seq<char>) -> bool {
    forall|k: int| 0 <= k < digits.len() ==> is_digit(#[trigger] digits[k])
}

/// The number that a run of decimal digits denotes.
pub open spec fn decimal_value(digits: Seq<char>) -> nat
    decreases digits.len(),
{
    if digits.len() == 0 {
        0
    } else {
        decimal_value(digits.drop_last()) * 10 + (digits.last() as u32 - '0' as u32) as nat
    }
}

/// The number that `text` spells if it is at most `max`: one or more
/// decimal digits, which a single `+` may precede.
pub open spec fn spelled_unsigned(text: Seq<char>, max: nat) -> Option<nat> {
    let digits = if text.len() > 0 && text[0] == '+' {
        text.drop_first()
    } else {
        text
    };
    if digits.len() > 0 && all_digits(digits) && decimal_value(digits) <= max {
        Some(decimal_value(digits))
    } else {
        None
    }
}

/// The number that `text` spells if it lies between `min` and `max`: one
/// or more decimal digits, which a single `+` or `-` may precede.
pub open spec fn spelled_signed(text: Seq<char>, min: int, max: int) -> Option<int> {
    let negative = text.len() > 0 && text[0] == '-';
    let digits = if text.len() > 0 && (text[0] == '+' || text[0] == '-') {
        text.drop_first()
    } else {
        text
    };
    let value = if negative {
        -(decimal_value(digits) as int)
    } else {
        decimal_value(digits) as int
    };
    if digits.len() > 0 && all_digits(digits) && min <= value <= max {
        Some(value)
    } else {
        None
    }
}

proof fn lemma_decimal_value_grows(digits: Seq<char>, upto: int)
    requires
        0 <= upto <= digits.len(),
    ensures
        decimal_value(digits.subrange(0, upto)) <= decimal_value(digits),
    decreases digits.len() - upto,
{
    if upto == digits.len() {
        assert(digits.subrange(0, upto) == digits);
    } else {
        lemma_decimal_value_grows(digits, upto + 1);
        let longer = digits.subrange(0, upto + 1);
        assert(longer.drop_last() == digits.subrange(0, upto));
    }
}

/// The value of the digits `chars[from..]` if all of them are digits and
/// the value is at most `max`.
fn read_digits(chars: &Vec<char>, from: usize, max: u64) -> (value: Option<u64>)
    requires
        from <= chars.len(),
    ensures
        ({
            let digits = chars@.subrange(from as int, chars@.len() as int);
            value == if all_digits(digits) && decimal_value(digits) <= max {
                Some(decimal_value(digits) as u64)
            } else {
                None::<u64>
            }
        }),
{
    let ghost digits = chars@.subrange(from as int, chars@.len() as int);
    let mut total: u64 = 0;
    let mut k: usize = from;
    while k < chars.len()
        invariant
            from <= k <= chars.len(),
            digits == chars@.subrange(from as int, chars@.len() as int),
            all_digits(digits.subrange(0, k - from)),
            total == decimal_value(digits.subrange(0, k - from)),
            total <= max,
        decreases chars.len() - k,
    {
        let c = chars[k];
        proof {
            let seen = digits.subrange(0, k - from);
            let longer = digits.subrange(0, k - from + 1);
            assert(longer.drop_last() == seen);
            assert(longer.last() == c);
            lemma_decimal_value_grows(digits, k - from + 1);
            if !is_digit(c) {
                assert(digits[k - from] == c);
            }
        }
        if c < '0' || c > '9' {
            return None;
        }
        let digit: u64 = (c as u32 - '0' as u32) as u64;
        if digit > max || total > (max - digit) / 10 {
            return None;
        }
        total = total * 10 + digit;
        proof {
            let longer = digits.subrange(0, k - from + 1);
            assert forall|n: int| 0 <= n < longer.len() implies is_digit(#[trigger] longer[n]) by {
                if n < k - from {
                    assert(digits.subrange(0, k - from)[n] == longer[n]);
                }
            }
        }
        k += 1;
    }
    assert(digits.subrange(0, digits.len() as int) == digits);
    Some(total)
}

/// Reads a number that is at most `max`.
pub fn parse_unsigned(text: &str, max: u64) -> (value: Option<u64>)
    ensures
        match value {
            Some(number) => spelled_unsigned(text@, max as nat) == Some(number as nat),
            None => spelled_unsigned(text@, max as nat) is None,
        },
{
    let chars = chars_of(text);
    let from: usize = if chars.len() > 0 && chars[0] == '+' {
        1
    } else {
        0
    };
    if from == chars.len() {
        return None;
    }
    assert(from == 1 ==> chars@.subrange(1, chars@.len() as int) == text@.drop_first());
    assert(from == 0 ==> chars@.subrange(0, chars@.len() as int) == text@);
    read_digits(&chars, from, max)
}

/// Reads a number that fits in 32 bits with a sign.
pub fn parse_i32(text: &str) -> (value: Option<i32>)
    ensures
        match value {
            Some(number) => spelled_signed(text@, i32::MIN as int, i32::MAX as int) == Some(
                number as int,
            ),
            None => spelled_signed(text@, i32::MIN as int, i32::MAX as int) is None,
        },
{
    let chars = chars_of(text);
    let negative = chars.len() > 0 && chars[0] == '-';
    let from: usize = if chars.len() > 0 && (chars[0] == '+' || chars[0] == '-') {
        1
    } else {
        0
    };
    if from == chars.len() {
        return None;
    }
    assert(from == 1 ==> chars@.subrange(1, chars@.len() as int) == text@.drop_first());
    assert(from == 0 ==> chars@.subrange(0, chars@.len() as int) == text@);
    if negative {
        match read_digits(&chars, from, 2147483648) {
            Some(magnitude) => {
                if magnitude == 2147483648 {
                    Some(i32::MIN)
                } else {
                    Some(-(magnitude as i32))
                }
            },
            None => None,
        }
    } else {
        match read_digits(&chars, from, 2147483647) {
            Some(magnitude) => Some(magnitude as i32),
            None => None,
        }
    }
}

/// The character for a digit.
pub open spec fn digit_char(digit: nat) -> char {
    if digit == 0 {
        '0'
    } else if digit == 1 {
        '1'
    } else if digit == 2 {
        '2'
    } else if digit == 3 {
        '3'
    } else if digit == 4 {
        '4'
    } else if digit == 5 {
        '5'
    } else if digit == 6 {
        '6'
    } else if digit == 7 {
        '7'
    } else if digit == 8 {
        '8'
    } else {
        '9'
    }
}

/// The decimal digits of a number, without leading zeros.
pub open spec fn decimal_digits(number: nat) -> Seq<char>
    decreases number,
{
    if number < 10 {
        seq![digit_char(number)]
    } else {
        decimal_digits(number / 10).push(digit_char(number % 10))
    }
}

/// Reading the digits of a number gives the number back.
pub proof fn lemma_decimal_digits_read_back(number: nat)
    ensures
        decimal_digits(number).len() > 0,
        all_digits(decimal_digits(number)),
        decimal_value(decimal_digits(number)) == number,
    decreases number,
{
    if number < 10 {
        let digits = decimal_digits(number);
        assert(digits.drop_last() == Seq::<char>::empty());
        assert(decimal_value(digits.drop_last()) == 0);
        assert(digits.last() == digit_char(number));
    } else {
        lemma_decimal_digits_read_back(number / 10);
        let head = decimal_digits(number / 10);
        let digits = decimal_digits(number);
        assert(digits.drop_last() == head);
        assert(digits.last() == digit_char(number % 10));
        assert forall|k: int| 0 <= k < digits.len() implies is_digit(#[trigger] digits[k]) by {
            if k < head.len() {
                assert(digits[k] == head[k]);
            }
        }
    }
}

/// The text of one digit.
fn digit_text(digit: usize) -> (text: &'static str)
    requires
        digit < 10,
    ensures
        text@ == seq![digit_char(digit as nat)],
{
    proof {
        reveal_strlit("0");
        reveal_strlit("1");
        reveal_strlit("2");
        reveal_strlit("3");
        reveal_strlit("4");
        reveal_strlit("5");
        reveal_strlit("6");
        reveal_strlit("7");
        reveal_strlit("8");
        reveal_strlit("9");
    }
    let text = if digit == 0 {
        "0"
    } else if digit == 1 {
        "1"
    } else if digit == 2 {
        "2"
    } else if digit == 3 {
        "3"
    } else if digit == 4 {
        "4"
    } else if digit == 5 {
        "5"
    } else if digit == 6 {
        "6"
    } else if digit == 7 {
        "7"
    } else if digit == 8 {
        "8"
    } else {
        "9"
    };
    assert(text@ =~= seq![digit_char(digit as nat)]);
    text
}

/// Writes a number in decimal digits.
pub fn decimal_text(number: usize) -> (text: String)
    ensures
        text@ == decimal_digits(number as nat),
    decreases number,
{
    if number < 10 {
        digit_text(number).to_owned()
    } else {
        let mut text = decimal_text(number / 10);
        text.append(digit_text(number % 10));
        assert(text@ =~= decimal_digits((number / 10) as nat).push(digit_char((number % 10) as nat)));
        text
    }
}

} // verus!
