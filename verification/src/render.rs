use vstd::prelude::*;

verus! {

/// The hexadecimal digit character for `d` in `0..16`: `'0'..'9'`, then
/// `'a'..'f'` in lower case.
pub open spec fn hex_char(d: nat) -> char {
    if d == 0 {
        '0'
    } else if d == 1 {
        '1'
    } else if d == 2 {
        '2'
    } else if d == 3 {
        '3'
    } else if d == 4 {
        '4'
    } else if d == 5 {
        '5'
    } else if d == 6 {
        '6'
    } else if d == 7 {
        '7'
    } else if d == 8 {
        '8'
    } else if d == 9 {
        '9'
    } else if d == 10 {
        'a'
    } else if d == 11 {
        'b'
    } else if d == 12 {
        'c'
    } else if d == 13 {
        'd'
    } else if d == 14 {
        'e'
    } else {
        'f'
    }
}

/// The decimal rendering of `n`, most significant digit first, always at
/// least one digit and without leading zeros.
pub open spec fn dec_seq(n: nat) -> Seq<char>
    decreases n,
{
    if n < 10 {
        seq![hex_char(n)]
    } else {
        dec_seq(n / 10) + seq![hex_char(n % 10)]
    }
}

/// The lower-case hexadecimal rendering of `n`, zero-padded on the left to
/// at least `width` digits, and never fewer than one digit.
pub open spec fn hex_seq(n: nat, width: nat) -> Seq<char>
    decreases n, width,
{
    if n < 16 && width <= 1 {
        seq![hex_char(n)]
    } else {
        hex_seq(n / 16, if width == 0 { 0 } else { (width - 1) as nat }) + seq![hex_char(n % 16)]
    }
}

/// The single-character string for one hexadecimal digit.
fn digit_str(d: u64) -> (r: &'static str)
    requires
        d < 16,
    ensures
        r@.len() == 1,
        r@[0] == hex_char(d as nat),
{
    proof {
        reveal_strlit("0");
        reveal_strlit("1");
        reveal_strlit("2");
        reveal_strlit("3");
        reveal_strlit("4");
        reveal_strlit("5");
        reveal_strlit("6");
        reveal_strlit("7");
        reveal_strlit("8");
        reveal_strlit("9");
        reveal_strlit("a");
        reveal_strlit("b");
        reveal_strlit("c");
        reveal_strlit("d");
        reveal_strlit("e");
        reveal_strlit("f");
    }
    if d == 0 {
        "0"
    } else if d == 1 {
        "1"
    } else if d == 2 {
        "2"
    } else if d == 3 {
        "3"
    } else if d == 4 {
        "4"
    } else if d == 5 {
        "5"
    } else if d == 6 {
        "6"
    } else if d == 7 {
        "7"
    } else if d == 8 {
        "8"
    } else if d == 9 {
        "9"
    } else if d == 10 {
        "a"
    } else if d == 11 {
        "b"
    } else if d == 12 {
        "c"
    } else if d == 13 {
        "d"
    } else if d == 14 {
        "e"
    } else {
        "f"
    }
}

/// Renders `n` in decimal, exactly as `dec_seq` describes.
pub fn render_decimal(n: u64) -> (r: String)
    ensures
        r@ == dec_seq(n as nat),
    decreases n,
{
    if n < 10 {
        let s = String::from_str(digit_str(n));
        proof {
            assert(s@ =~= dec_seq(n as nat));
        }
        s
    } else {
        let mut s = render_decimal(n / 10);
        s.append(digit_str(n % 10));
        proof {
            assert(s@ =~= dec_seq(n as nat));
        }
        s
    }
}

/// Renders `n` in lower-case hexadecimal, zero-padded to at least `width`
/// digits, exactly as `hex_seq` describes.
pub fn render_hex(n: u64, width: usize) -> (r: String)
    ensures
        r@ == hex_seq(n as nat, width as nat),
    decreases n, width,
{
    if n < 16 && width <= 1 {
        let s = String::from_str(digit_str(n));
        proof {
            assert(s@ =~= hex_seq(n as nat, width as nat));
        }
        s
    } else {
        let rest: usize = if width == 0 { 0 } else { width - 1 };
        let mut s = render_hex(n / 16, rest);
        s.append(digit_str(n % 16));
        proof {
            assert(s@ =~= hex_seq(n as nat, width as nat));
        }
        s
    }
}

} // verus!
