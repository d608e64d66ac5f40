//! Decimal rendering of integers into text.
use vstd::prelude::*;

verus! {

/// The character of the decimal digit `d`.
pub open spec fn digit_char(d: nat) -> char {
    if d == 0 {
        '0'
    } else if d == 1 {
        '1'
    } else if d == 2 {
        '2'
    } else if d == 3 {
        '3'
    } else if d == 4 {
        '4'
    } else if d == 5 {
        '5'
    } else if d == 6 {
        '6'
    } else if d == 7 {
        '7'
    } else if d == 8 {
        '8'
    } else {
        '9'
    }
}

/// The decimal digits of `n`, left-padded with zeros to at least `width` characters.
pub open spec fn decimal_padded(n: nat, width: nat) -> Seq<char>
    decreases n, width,
{
    if n >= 10 || width > 1 {
        let w: nat = if width > 0 { (width - 1) as nat } else { 0 };
        decimal_padded(n / 10, w).push(digit_char(n % 10))
    } else {
        seq![digit_char(n % 10)]
    }
}

/// The plain decimal digits of `n`.
pub open spec fn decimal(n: nat) -> Seq<char> {
    decimal_padded(n, 1)
}

fn digit_str(d: u64) -> (r: &'static str)
    requires
        d < 10,
    ensures
        r@ == seq![digit_char(d as nat)],
{
    proof {
        reveal_strlit("0");
        reveal_strlit("1");
        reveal_strlit("2");
        reveal_strlit("3");
        reveal_strlit("4");
        reveal_strlit("5");
        reveal_strlit("6");
        reveal_strlit("7");
        reveal_strlit("8");
        reveal_strlit("9");
    }
    match d {
        0 => "0",
        1 => "1",
        2 => "2",
        3 => "3",
        4 => "4",
        5 => "5",
        6 => "6",
        7 => "7",
        8 => "8",
        _ => "9",
    }
}

/// Appends the decimal digits of `n`, zero-padded to at least `width` characters.
pub fn push_decimal(out: &mut String, n: u64, width: usize)
    ensures
        final(out)@ == old(out)@ + decimal_padded(n as nat, width as nat),
    decreases n, width,
{
    if n >= 10 || width > 1 {
        let w: usize = if width > 0 { width - 1 } else { 0 };
        push_decimal(out, n / 10, w);
    }
    out.append(digit_str(n % 10));
    proof {
        let ghost s = old(out)@;
        assert(s + decimal_padded(n as nat, width as nat) =~= final(out)@);
    }
}

} // verus!
