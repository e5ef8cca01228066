//! Payload identifiers handed from the refresher to the display, and the
//! simulated scan verification.
use vstd::prelude::*;

verus! {

/// The character of a decimal digit `d` (0 through 9).
pub open spec fn digit_char(d: int) -> char {
    if d == 0 {
        '0'
    } else if d == 1 {
        '1'
    } else if d == 2 {
        '2'
    } else if d == 3 {
        '3'
    } else if d == 4 {
        '4'
    } else if d == 5 {
        '5'
    } else if d == 6 {
        '6'
    } else if d == 7 {
        '7'
    } else if d == 8 {
        '8'
    } else {
        '9'
    }
}

/// The decimal digits of `n`, most significant first, without leading zeros.
pub open spec fn decimal(n: nat) -> Seq<char>
    decreases n,
{
    if n < 10 {
        seq![digit_char(n as int)]
    } else {
        decimal(n / 10).push(digit_char((n % 10) as int))
    }
}

/// The decimal text of `i`, with a leading minus sign when it is negative.
pub open spec fn signed_decimal(i: int) -> Seq<char> {
    if i < 0 {
        seq!['-'] + decimal((-i) as nat)
    } else {
        decimal(i as nat)
    }
}

/// The image path shown for payload counter `i`.
pub open spec fn qrcode_path(i: int) -> Seq<char> {
    "./img/qrcode"@ + signed_decimal(i) + ".png"@
}

/// The simulated scan verification: a scan counts as done for any counter
/// outside 0 through 3.
pub open spec fn scan_succeeds(i: int) -> bool {
    !(0 <= i <= 3)
}

fn digit_str(d: u32) -> (r: &'static str)
    requires
        d < 10,
    ensures
        r@ == seq![digit_char(d as int)],
{
    proof {
        reveal_strlit("0");
        reveal_strlit("1");
        reveal_strlit("2");
        reveal_strlit("3");
        reveal_strlit("4");
        reveal_strlit("5");
        reveal_strlit("6");
        reveal_strlit("7");
        reveal_strlit("8");
        reveal_strlit("9");
    }
    match d {
        0 => "0",
        1 => "1",
        2 => "2",
        3 => "3",
        4 => "4",
        5 => "5",
        6 => "6",
        7 => "7",
        8 => "8",
        _ => "9",
    }
}

/// Appends the decimal digits of `n` to `s`.
fn push_decimal(s: &mut String, n: u32)
    ensures
        final(s)@ == old(s)@ + decimal(n as nat),
    decreases n,
{
    if n < 10 {
        s.append(digit_str(n));
    } else {
        push_decimal(s, n / 10);
        s.append(digit_str(n % 10));
    }
}

/// The image path for payload counter `i`: `./img/qrcode<i>.png`.
pub fn get_new_qrcode(i: i32) -> (r: String)
    ensures
        r@ == qrcode_path(i as int),
{
    let mut s = String::from_str("./img/qrcode");
    if i < 0 {
        proof {
            reveal_strlit("-");
        }
        s.append("-");
        let m: u32 = if i == i32::MIN {
            2147483648u32
        } else {
            (-i) as u32
        };
        push_decimal(&mut s, m);
    } else {
        push_decimal(&mut s, i as u32);
    }
    s.append(".png");
    s
}

/// Whether the user has scanned the code, simulated from the poll counter `i`.
pub fn get_user_scan_code_result(i: i32) -> (r: bool)
    ensures
        r == scan_succeeds(i as int),
{
    match i {
        0..=3 => false,
        _ => true,
    }
}

} // verus!
