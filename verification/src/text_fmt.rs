//! Decimal rendering of integers, as `{}` and `{:0N}` render them.

use vstd::prelude::*;

verus! {

/// The character of the decimal digit `d`.
pub open spec fn digit_char(d: nat) -> char {
    (48 + d) as char
}

/// The decimal digits of `n`, most significant first, without leading zeros.
pub open spec fn dec(n: nat) -> Seq<char>
    decreases n,
{
    if n < 10 {
        seq![digit_char(n)]
    } else {
        dec(n / 10) + seq![digit_char(n % 10)]
    }
}

/// `n` as `{}` renders a signed integer.
pub open spec fn int_dec(n: int) -> Seq<char> {
    if n < 0 {
        seq!['-'] + dec((-n) as nat)
    } else {
        dec(n as nat)
    }
}

/// `n` as `{:0w}` renders it: the digits, padded with zeros on the left to at
/// least `w` characters.
pub open spec fn dec_padded(n: nat, w: nat) -> Seq<char> {
    let d = dec(n);
    if d.len() >= w {
        d
    } else {
        Seq::new((w - d.len()) as nat, |i: int| '0') + d
    }
}

/// The text of one decimal digit.
fn digit_str(d: u64) -> (r: &'static str)
    requires
        d < 10,
    ensures
        r@ == seq![digit_char(d as nat)],
{
    match d {
        0 => {
            proof {
                reveal_strlit("0");
            }
            "0"
        },
        1 => {
            proof {
                reveal_strlit("1");
            }
            "1"
        },
        2 => {
            proof {
                reveal_strlit("2");
            }
            "2"
        },
        3 => {
            proof {
                reveal_strlit("3");
            }
            "3"
        },
        4 => {
            proof {
                reveal_strlit("4");
            }
            "4"
        },
        5 => {
            proof {
                reveal_strlit("5");
            }
            "5"
        },
        6 => {
            proof {
                reveal_strlit("6");
            }
            "6"
        },
        7 => {
            proof {
                reveal_strlit("7");
            }
            "7"
        },
        8 => {
            proof {
                reveal_strlit("8");
            }
            "8"
        },
        _ => {
            proof {
                reveal_strlit("9");
            }
            "9"
        },
    }
}

/// Appends the decimal digits of `n`.
pub fn push_dec(s: &mut String, n: u64)
    ensures
        final(s)@ == old(s)@ + dec(n as nat),
    decreases n,
{
    if n >= 10 {
        push_dec(s, n / 10);
        s.append(digit_str(n % 10));
        assert(final(s)@ =~= old(s)@ + dec(n as nat));
    } else {
        s.append(digit_str(n));
    }
}

/// Appends the decimal digits of a 128-bit `n`.
pub fn push_dec_wide(s: &mut String, n: u128)
    ensures
        final(s)@ == old(s)@ + dec(n as nat),
    decreases n,
{
    if n >= 10 {
        push_dec_wide(s, n / 10);
        let d = (n % 10) as u64;
        s.append(digit_str(d));
        assert(final(s)@ =~= old(s)@ + dec(n as nat));
    } else {
        s.append(digit_str(n as u64));
    }
}

/// Appends `n` as `{}` renders a signed integer.
pub fn push_int_dec(s: &mut String, n: i64)
    ensures
        final(s)@ == old(s)@ + int_dec(n as int),
{
    if n < 0 {
        proof {
            reveal_strlit("-");
        }
        s.append("-");
        let m: u64 = if n == i64::MIN {
            9223372036854775808u64
        } else {
            (-n) as u64
        };
        push_dec(s, m);
        assert(final(s)@ =~= old(s)@ + int_dec(n as int));
    } else {
        push_dec(s, n as u64);
    }
}

/// Appends `n` as `{:0w}` renders it.
pub fn push_dec_padded(s: &mut String, n: u64, w: usize)
    ensures
        final(s)@ == old(s)@ + dec_padded(n as nat, w as nat),
{
    let mut digits = String::new();
    push_dec(&mut digits, n);
    assert(digits@ =~= dec(n as nat));
    let k = digits.as_str().unicode_len();
    let ghost start = s@;
    if k < w {
        let mut i: usize = k;
        while i < w
            invariant
                k <= i <= w,
                s@ == start + Seq::new((i - k) as nat, |j: int| '0'),
            decreases w - i,
        {
            proof {
                reveal_strlit("0");
            }
            s.append("0");
            i = i + 1;
            assert(s@ =~= start + Seq::new((i - k) as nat, |j: int| '0'));
        }
    }
    s.append(digits.as_str());
    assert(s@ =~= start + dec_padded(n as nat, w as nat));
}

} // verus!
