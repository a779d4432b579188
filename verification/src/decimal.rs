use vstd::prelude::*;
use vstd::string::*;

verus! {

/// The character that stands for the digit `d`.
pub open spec fn digit_char(d: int) -> char {
    (('0' as u8) + d) as char
}

/// The digits of `n` in base ten, most significant first, without leading
/// zeros.
pub open spec fn decimal_digits(n: nat) -> Seq<char>
    decreases n,
{
    if n < 10 {
        seq![digit_char(n as int)]
    } else {
        decimal_digits(n / 10).push(digit_char((n % 10) as int))
    }
}

/// `v` written in base ten, with a minus sign in front if it is negative.
pub open spec fn decimal_text(v: int) -> Seq<char> {
    if v < 0 {
        seq!['-'] + decimal_digits((-v) as nat)
    } else {
        decimal_digits(v as nat)
    }
}

/// The one-character text for a digit.
fn digit(d: u32) -> (text: String)
    requires
        d < 10,
    ensures
        text@ == seq![digit_char(d as int)],
{
    proof {
        reveal_strlit("0123456789");
    }
    let digits = "0123456789";
    let text = String::from_str(digits.substring_char(d as usize, d as usize + 1));
    assert(text@ =~= seq![digit_char(d as int)]);
    text
}

/// `n` written in base ten.
pub fn digits(n: u32) -> (text: String)
    ensures
        text@ == decimal_digits(n as nat),
    decreases n,
{
    if n < 10 {
        digit(n)
    } else {
        let mut text = digits(n / 10);
        let last = digit(n % 10);
        text.append(last.as_str());
        assert(text@ =~= decimal_digits(n as nat));
        text
    }
}

/// `v` written in base ten, with a minus sign in front if it is negative.
pub fn decimal(v: i32) -> (text: String)
    ensures
        text@ == decimal_text(v as int),
{
    if v < 0 {
        proof {
            reveal_strlit("-");
        }
        let magnitude: u32 = (-(v as i64)) as u32;
        let tail = digits(magnitude);
        let text = String::from_str("-").concat(tail.as_str());
        assert(text@ =~= decimal_text(v as int));
        text
    } else {
        digits(v as u32)
    }
}

} // verus!
