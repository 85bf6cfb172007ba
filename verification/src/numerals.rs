use vstd::prelude::*;
use vstd::string::StringExecFns;

verus! {

/// The character for one decimal digit value.
pub open spec fn dec_digit(d: int) -> char {
    if d == 0 {
        '0'
    } else if d == 1 {
        '1'
    } else if d == 2 {
        '2'
    } else if d == 3 {
        '3'
    } else if d == 4 {
        '4'
    } else if d == 5 {
        '5'
    } else if d == 6 {
        '6'
    } else if d == 7 {
        '7'
    } else if d == 8 {
        '8'
    } else {
        '9'
    }
}

/// The decimal numeral for a nonnegative number: most significant digit
/// first, no leading zeros (a single zero for zero itself).
pub open spec fn dec_rep(n: int) -> Seq<char>
    decreases n,
{
    if n < 10 {
        seq![dec_digit(n)]
    } else {
        dec_rep(n / 10).push(dec_digit(n % 10))
    }
}

/// The character for one hexadecimal digit value, lower case.
pub open spec fn hex_digit(d: int) -> char {
    if d < 10 {
        dec_digit(d)
    } else if d == 10 {
        'a'
    } else if d == 11 {
        'b'
    } else if d == 12 {
        'c'
    } else if d == 13 {
        'd'
    } else if d == 14 {
        'e'
    } else {
        'f'
    }
}

/// A sixteen-bit value as exactly four hexadecimal digits, zero padded.
pub open spec fn hex4_rep(v: int) -> Seq<char> {
    seq![
        hex_digit(v / 4096 % 16),
        hex_digit(v / 256 % 16),
        hex_digit(v / 16 % 16),
        hex_digit(v % 16),
    ]
}

/// One decimal digit as a string slice.
fn dec_digit_str(d: usize) -> (s: &'static str)
    requires
        d < 10,
    ensures
        s@ == seq![dec_digit(d as int)],
{
    proof {
        reveal_strlit("0");
        reveal_strlit("1");
        reveal_strlit("2");
        reveal_strlit("3");
        reveal_strlit("4");
        reveal_strlit("5");
        reveal_strlit("6");
        reveal_strlit("7");
        reveal_strlit("8");
        reveal_strlit("9");
    }
    let s = match d {
        0 => "0",
        1 => "1",
        2 => "2",
        3 => "3",
        4 => "4",
        5 => "5",
        6 => "6",
        7 => "7",
        8 => "8",
        _ => "9",
    };
    proof {
        assert(s@ =~= seq![dec_digit(d as int)]);
    }
    s
}

/// One hexadecimal digit as a string slice, lower case.
fn hex_digit_str(d: usize) -> (s: &'static str)
    requires
        d < 16,
    ensures
        s@ == seq![hex_digit(d as int)],
{
    if d < 10 {
        dec_digit_str(d)
    } else {
        proof {
            reveal_strlit("a");
            reveal_strlit("b");
            reveal_strlit("c");
            reveal_strlit("d");
            reveal_strlit("e");
            reveal_strlit("f");
        }
        let s = match d {
            10 => "a",
            11 => "b",
            12 => "c",
            13 => "d",
            14 => "e",
            _ => "f",
        };
        proof {
            assert(s@ =~= seq![hex_digit(d as int)]);
        }
        s
    }
}

/// Render a count as its decimal numeral.
pub fn dec_string(n: usize) -> (s: String)
    ensures
        s@ == dec_rep(n as int),
    decreases n,
{
    if n < 10 {
        String::from_str(dec_digit_str(n))
    } else {
        let prefix = dec_string(n / 10);
        let s = prefix.concat(dec_digit_str(n % 10));
        proof {
            assert(s@ =~= dec_rep(n as int));
        }
        s
    }
}

/// Render a sixteen-bit identifier as four zero-padded hexadecimal
/// digits, as vendor and product identifiers are conventionally shown.
pub fn hex4_string(v: u16) -> (s: String)
    ensures
        s@ == hex4_rep(v as int),
{
    let d0 = (v / 4096 % 16) as usize;
    let d1 = (v / 256 % 16) as usize;
    let d2 = (v / 16 % 16) as usize;
    let d3 = (v % 16) as usize;
    let s = String::from_str(hex_digit_str(d0)).concat(hex_digit_str(d1)).concat(
        hex_digit_str(d2),
    ).concat(hex_digit_str(d3));
    proof {
        assert(s@ =~= hex4_rep(v as int));
    }
    s
}

} // verus!
