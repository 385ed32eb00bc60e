//! Rendering of integers as decimal text.

use vstd::prelude::*;
use vstd::string::*;

verus! {

/// The character that stands for a value below ten.
pub open spec fn digit(value: nat) -> char {
    if value == 0 {
        '0'
    } else if value == 1 {
        '1'
    } else if value == 2 {
        '2'
    } else if value == 3 {
        '3'
    } else if value == 4 {
        '4'
    } else if value == 5 {
        '5'
    } else if value == 6 {
        '6'
    } else if value == 7 {
        '7'
    } else if value == 8 {
        '8'
    } else {
        '9'
    }
}

/// The decimal digits of a number, most significant first, without leading
/// zeros.
pub open spec fn decimal(value: nat) -> Seq<char>
    decreases value,
{
    if value < 10 {
        seq![digit(value)]
    } else {
        decimal(value / 10).push(digit(value % 10))
    }
}

/// A run of `count` zeros; empty where `count` is not positive.
pub open spec fn zeros(count: int) -> Seq<char> {
    Seq::new(
        if count > 0 {
            count as nat
        } else {
            0
        },
        |i: int| '0',
    )
}

/// A signed number in decimal, filled with zeros between the sign and the
/// digits until it is `width` characters wide. A number that is wider than
/// `width` is rendered in full.
pub open spec fn zero_padded(value: int, width: nat) -> Seq<char> {
    if value >= 0 {
        zeros(width - decimal(value as nat).len()) + decimal(value as nat)
    } else {
        seq!['-'] + zeros(width - 1 - decimal((-value) as nat).len()) + decimal((-value) as nat)
    }
}

/// A decimal rendering has at least one digit and at most ten for a number
/// that fits in 32 bits.
pub proof fn lemma_decimal_len(value: nat)
    ensures
        decimal(value).len() >= 1,
        value <= u32::MAX ==> decimal(value).len() <= 10,
{
    reveal_with_fuel(decimal, 11);
}

fn digit_text(value: u32) -> (text: &'static str)
    requires
        value < 10,
    ensures
        text@ == seq![digit(value as nat)],
{
    proof {
        reveal_strlit("0");
        reveal_strlit("1");
        reveal_strlit("2");
        reveal_strlit("3");
        reveal_strlit("4");
        reveal_strlit("5");
        reveal_strlit("6");
        reveal_strlit("7");
        reveal_strlit("8");
        reveal_strlit("9");
    }
    let text = if value == 0 {
        "0"
    } else if value == 1 {
        "1"
    } else if value == 2 {
        "2"
    } else if value == 3 {
        "3"
    } else if value == 4 {
        "4"
    } else if value == 5 {
        "5"
    } else if value == 6 {
        "6"
    } else if value == 7 {
        "7"
    } else if value == 8 {
        "8"
    } else {
        "9"
    };
    assert(text@ =~= seq![digit(value as nat)]);
    text
}

/// Appends the decimal digits of `value` to `out` and returns how many
/// digits those are.
pub fn push_decimal(out: &mut String, value: u32) -> (count: usize)
    ensures
        final(out)@ == old(out)@ + decimal(value as nat),
        count == decimal(value as nat).len(),
    decreases value,
{
    proof {
        lemma_decimal_len(value as nat);
    }
    if value < 10 {
        out.append(digit_text(value));
        1
    } else {
        let ghost before = out@;
        let high = push_decimal(out, value / 10);
        proof {
            lemma_decimal_len((value / 10) as nat);
        }
        out.append(digit_text(value % 10));
        assert(out@ =~= before + decimal(value as nat));
        high + 1
    }
}

/// Appends `count` zeros to `out`.
fn push_zeros(out: &mut String, count: usize)
    ensures
        final(out)@ == old(out)@ + zeros(count as int),
{
    proof {
        reveal_strlit("0");
    }
    let mut done: usize = 0;
    assert(out@ =~= old(out)@ + zeros(0));
    while done < count
        invariant
            done <= count,
            out@ == old(out)@ + zeros(done as int),
            "0"@ == seq!['0'],
        decreases count - done,
    {
        out.append("0");
        done = done + 1;
        assert(out@ =~= old(out)@ + zeros(done as int));
    }
}

/// Appends `value` to `out`, filled with zeros to five characters.
pub fn push_padded(out: &mut String, value: i32)
    ensures
        final(out)@ == old(out)@ + zero_padded(value as int, 5),
{
    let mut digits = String::new();
    let ghost before = out@;
    if value >= 0 {
        let count = push_decimal(&mut digits, value as u32);
        assert(digits@ =~= decimal(value as nat));
        if count < 5 {
            push_zeros(out, 5 - count);
        } else {
            assert(out@ =~= before + zeros(5 - count));
        }
        out.append(digits.as_str());
        assert(out@ =~= before + zero_padded(value as int, 5));
    } else {
        let magnitude: u32 = (-(value as i64)) as u32;
        let count = push_decimal(&mut digits, magnitude);
        assert(digits@ =~= decimal((-value) as nat));
        proof {
            reveal_strlit("-");
        }
        out.append("-");
        let ghost signed = out@;
        if count < 4 {
            push_zeros(out, 4 - count);
        } else {
            assert(out@ =~= signed + zeros(4 - count));
        }
        out.append(digits.as_str());
        assert(out@ =~= before + zero_padded(value as int, 5));
    }
}

} // verus!
