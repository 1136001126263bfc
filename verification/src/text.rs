//! Text helpers: prefixes, joining and decimal numerals.

use vstd::prelude::*;
use vstd::std_specs::iter::IteratorSpec;

verus! {

/// What each of `strings` holds, in order.
pub open spec fn texts(strings: Seq<String>) -> Seq<Seq<char>> {
    Seq::new(strings.len(), |i: int| strings[i]@)
}

/// Tells whether `text` begins with `prefix`, character by character.
pub fn starts_with(text: &str, prefix: &str) -> (result: bool)
    ensures
        result == prefix@.is_prefix_of(text@),
{
    broadcast use vstd::string::group_string_axioms;

    let mut whole = text.chars();
    let mut head = prefix.chars();
    let ghost mut matched: int = 0;
    loop
        invariant
            0 <= matched <= prefix@.len(),
            matched <= text@.len(),
            head.remaining() == prefix@.skip(matched),
            whole.remaining() == text@.skip(matched),
            prefix@.take(matched) == text@.take(matched),
        decreases prefix@.len() - matched,
    {
        match head.next() {
            None => {
                assert(prefix@.take(matched) == prefix@);
                return true;
            },
            Some(expected) => {
                match whole.next() {
                    None => {
                        return false;
                    },
                    Some(found) => {
                        if expected != found {
                            return false;
                        }
                        proof {
                            matched = matched + 1;
                        }
                    },
                }
            },
        }
    }
}

/// The numeral for a single decimal digit; `'0'` for anything larger.
pub open spec fn digit(value: nat) -> char {
    if value == 1 {
        '1'
    } else if value == 2 {
        '2'
    } else if value == 3 {
        '3'
    } else if value == 4 {
        '4'
    } else if value == 5 {
        '5'
    } else if value == 6 {
        '6'
    } else if value == 7 {
        '7'
    } else if value == 8 {
        '8'
    } else if value == 9 {
        '9'
    } else {
        '0'
    }
}

/// `value` written in base ten, without sign or leading zeros.
pub open spec fn decimal(value: nat) -> Seq<char>
    decreases value,
{
    if value < 10 {
        seq![digit(value)]
    } else {
        decimal(value / 10).push(digit(value % 10))
    }
}

/// The one-character text of a decimal digit; `"0"` for anything larger.
pub fn digit_text(value: u8) -> (result: &'static str)
    ensures
        result@ == seq![digit(value as nat)],
{
    proof {
        reveal_strlit("0");
        reveal_strlit("1");
        reveal_strlit("2");
        reveal_strlit("3");
        reveal_strlit("4");
        reveal_strlit("5");
        reveal_strlit("6");
        reveal_strlit("7");
        reveal_strlit("8");
        reveal_strlit("9");
    }
    let result: &'static str = match value {
        1 => "1",
        2 => "2",
        3 => "3",
        4 => "4",
        5 => "5",
        6 => "6",
        7 => "7",
        8 => "8",
        9 => "9",
        _ => "0",
    };
    assert(result@ =~= seq![digit(value as nat)]);
    result
}

/// Writes `value` in base ten.
pub fn decimal_text(value: u128) -> (result: String)
    ensures
        result@ == decimal(value as nat),
    decreases value,
{
    if value < 10 {
        String::from_str(digit_text(value as u8))
    } else {
        let mut result: String = decimal_text(value / 10);
        result.append(digit_text((value % 10) as u8));
        result
    }
}

/// `first` followed by `second`.
pub fn join(first: &str, second: &str) -> (result: String)
    ensures
        result@ == first@ + second@,
{
    let mut result: String = String::from_str(first);
    result.append(second);
    result
}

} // verus!
