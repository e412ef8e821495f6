//! Rendering of a telegraph code as a four-digit zero-padded decimal string.

use vstd::prelude::*;

verus! {

/// The decimal digit character for a value in 0..=9.
pub open spec fn digit_char(d: int) -> char {
    if d == 0 {
        '0'
    } else if d == 1 {
        '1'
    } else if d == 2 {
        '2'
    } else if d == 3 {
        '3'
    } else if d == 4 {
        '4'
    } else if d == 5 {
        '5'
    } else if d == 6 {
        '6'
    } else if d == 7 {
        '7'
    } else if d == 8 {
        '8'
    } else {
        '9'
    }
}

/// The numeric value of a decimal digit character.
pub open spec fn digit_val(c: char) -> int {
    if c == '0' {
        0
    } else if c == '1' {
        1
    } else if c == '2' {
        2
    } else if c == '3' {
        3
    } else if c == '4' {
        4
    } else if c == '5' {
        5
    } else if c == '6' {
        6
    } else if c == '7' {
        7
    } else if c == '8' {
        8
    } else {
        9
    }
}

/// The canonical presentation of a code: exactly four decimal digits,
/// most significant first, padded with leading zeros.
pub open spec fn format4(n: int) -> Seq<char> {
    seq![
        digit_char(n / 1000 % 10),
        digit_char(n / 100 % 10),
        digit_char(n / 10 % 10),
        digit_char(n % 10),
    ]
}

/// The number a four-digit string denotes.
pub open spec fn decode4(s: Seq<char>) -> int {
    1000 * digit_val(s[0]) + 100 * digit_val(s[1]) + 10 * digit_val(s[2]) + digit_val(s[3])
}

/// The four-digit rendering of a code in range is faithful: it has exactly
/// four characters and denotes the code itself.
pub proof fn lemma_format4_faithful(n: int)
    requires
        0 <= n <= 9999,
    ensures
        format4(n).len() == 4,
        decode4(format4(n)) == n,
{
    let q1 = n / 10;
    let q2 = n / 100;
    let q3 = n / 1000;
    vstd::arithmetic::div_mod::lemma_fundamental_div_mod(n, 10);
    vstd::arithmetic::div_mod::lemma_fundamental_div_mod(q1, 10);
    vstd::arithmetic::div_mod::lemma_fundamental_div_mod(q2, 10);
    vstd::arithmetic::div_mod::lemma_div_denominator(n, 10, 10);
    vstd::arithmetic::div_mod::lemma_div_denominator(n, 100, 10);
    vstd::arithmetic::div_mod::lemma_small_mod(q3 as nat, 10);
    assert(digit_val(digit_char(n / 1000 % 10)) == n / 1000 % 10);
    assert(digit_val(digit_char(n / 100 % 10)) == n / 100 % 10);
    assert(digit_val(digit_char(n / 10 % 10)) == n / 10 % 10);
    assert(digit_val(digit_char(n % 10)) == n % 10);
    assert(1000 * (n / 1000 % 10) + 100 * (n / 100 % 10) + 10 * (n / 10 % 10) + n % 10 == n);
}

/// A one-character string slice holding the given decimal digit.
fn digit_str(d: usize) -> (r: &'static str)
    requires
        d < 10,
    ensures
        r@ == seq![digit_char(d as int)],
{
    if d == 0 {
        proof {
            reveal_strlit("0");
        }
        let r = "0";
        proof {
            assert(r@ =~= seq![digit_char(d as int)]);
        }
        r
    } else if d == 1 {
        proof {
            reveal_strlit("1");
        }
        let r = "1";
        proof {
            assert(r@ =~= seq![digit_char(d as int)]);
        }
        r
    } else if d == 2 {
        proof {
            reveal_strlit("2");
        }
        let r = "2";
        proof {
            assert(r@ =~= seq![digit_char(d as int)]);
        }
        r
    } else if d == 3 {
        proof {
            reveal_strlit("3");
        }
        let r = "3";
        proof {
            assert(r@ =~= seq![digit_char(d as int)]);
        }
        r
    } else if d == 4 {
        proof {
            reveal_strlit("4");
        }
        let r = "4";
        proof {
            assert(r@ =~= seq![digit_char(d as int)]);
        }
        r
    } else if d == 5 {
        proof {
            reveal_strlit("5");
        }
        let r = "5";
        proof {
            assert(r@ =~= seq![digit_char(d as int)]);
        }
        r
    } else if d == 6 {
        proof {
            reveal_strlit("6");
        }
        let r = "6";
        proof {
            assert(r@ =~= seq![digit_char(d as int)]);
        }
        r
    } else if d == 7 {
        proof {
            reveal_strlit("7");
        }
        let r = "7";
        proof {
            assert(r@ =~= seq![digit_char(d as int)]);
        }
        r
    } else if d == 8 {
        proof {
            reveal_strlit("8");
        }
        let r = "8";
        proof {
            assert(r@ =~= seq![digit_char(d as int)]);
        }
        r
    } else {
        proof {
            reveal_strlit("9");
        }
        let r = "9";
        proof {
            assert(r@ =~= seq![digit_char(d as int)]);
        }
        r
    }
}

/// Renders a code in range as its four-digit zero-padded decimal string.
pub fn format_code(n: usize) -> (r: String)
    requires
        n <= 9999,
    ensures
        r@ == format4(n as int),
{
    let mut out = String::new();
    out.append(digit_str(n / 1000 % 10));
    out.append(digit_str(n / 100 % 10));
    out.append(digit_str(n / 10 % 10));
    out.append(digit_str(n % 10));
    proof {
        assert(out@ =~= format4(n as int));
    }
    out
}

} // verus!
