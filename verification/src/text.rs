//! Decimal rendering of unsigned values, used by the wallet's
//! human-readable balance and description strings.

use vstd::prelude::*;

verus! {

/// Relies on std's `String::push`: appends one character.
pub assume_specification[ String::push ](s: &mut String, ch: char)
    ensures
        final(s)@ == old(s)@.push(ch),
;

/// Relies on std's `String::pop`: removes and returns the last
/// character, when there is one.
pub assume_specification[ String::pop ](s: &mut String) -> (r: Option<char>)
    ensures
        old(s)@.len() == 0 ==> r is None && final(s)@ == old(s)@,
        old(s)@.len() > 0 ==> (r matches Some(c) && c == old(s)@.last() && final(s)@ == old(
            s,
        )@.drop_last()),
;

/// The character for a decimal digit value below ten.
pub open spec fn digit_char(d: int) -> char {
    (48 + d) as char
}

/// The usual decimal rendering of a non-negative value, most significant
/// digit first, with no leading zeroes except for the value zero itself.
pub open spec fn decimal_of(n: int) -> Seq<char>
    decreases n,
{
    if n < 10 {
        seq![digit_char(n % 10)]
    } else {
        decimal_of(n / 10) + seq![digit_char(n % 10)]
    }
}

/// Appends the character of one decimal digit.
fn append_digit(out: &mut String, d: u64)
    requires
        d < 10,
    ensures
        final(out)@ == old(out)@ + seq![digit_char(d as int)],
{
    let ghost before: Seq<char> = out@;
    if d == 0 {
        proof {
            reveal_strlit("0");
        }
        out.append("0");
    } else if d == 1 {
        proof {
            reveal_strlit("1");
        }
        out.append("1");
    } else if d == 2 {
        proof {
            reveal_strlit("2");
        }
        out.append("2");
    } else if d == 3 {
        proof {
            reveal_strlit("3");
        }
        out.append("3");
    } else if d == 4 {
        proof {
            reveal_strlit("4");
        }
        out.append("4");
    } else if d == 5 {
        proof {
            reveal_strlit("5");
        }
        out.append("5");
    } else if d == 6 {
        proof {
            reveal_strlit("6");
        }
        out.append("6");
    } else if d == 7 {
        proof {
            reveal_strlit("7");
        }
        out.append("7");
    } else if d == 8 {
        proof {
            reveal_strlit("8");
        }
        out.append("8");
    } else {
        proof {
            reveal_strlit("9");
        }
        out.append("9");
    }
    proof {
        assert(out@ =~= before + seq![digit_char(d as int)]);
    }
}

/// Appends the decimal rendering of `n`.
pub fn append_decimal(out: &mut String, n: u64)
    ensures
        final(out)@ == old(out)@ + decimal_of(n as int),
    decreases n,
{
    if n >= 10 {
        append_decimal(out, n / 10);
    }
    append_digit(out, n % 10);
}

/// The decimal rendering of `n` as a fresh string.
pub fn decimal_string(n: u64) -> (r: String)
    ensures
        r@ == decimal_of(n as int),
{
    let mut out = String::new();
    proof {
        assert(out@ =~= Seq::<char>::empty());
    }
    append_decimal(&mut out, n);
    proof {
        assert(out@ =~= decimal_of(n as int));
    }
    out
}

/// The rendering of a base-unit amount as whole coins with four decimal
/// places, one coin being one hundred million base units; the fraction is
/// rounded half away from zero.
pub open spec fn coin_value_of(sat: int) -> Seq<char> {
    let whole: int = sat / 100_000_000;
    let frac: int = ((sat % 100_000_000) + 5_000) / 10_000;
    let carried: int = if frac == 10_000 {
        whole + 1
    } else {
        whole
    };
    let digits: int = if frac == 10_000 {
        0
    } else {
        frac
    };
    decimal_of(carried) + seq!['.'] + pad4_of(digits)
}

/// A four-character zero-padded decimal rendering of a value below ten
/// thousand.
pub open spec fn pad4_of(n: int) -> Seq<char> {
    if n < 10 {
        seq!['0', '0', '0'] + decimal_of(n)
    } else if n < 100 {
        seq!['0', '0'] + decimal_of(n)
    } else if n < 1000 {
        seq!['0'] + decimal_of(n)
    } else {
        decimal_of(n)
    }
}

/// Renders a base-unit amount as whole coins with four decimal places.
pub fn coin_value_string(sat: u64) -> (r: String)
    ensures
        r@ == coin_value_of(sat as int),
{
    let whole: u64 = sat / 100_000_000;
    let rem: u64 = sat % 100_000_000;
    let frac: u64 = (rem + 5_000) / 10_000;
    let carried: u64 = if frac == 10_000 {
        whole + 1
    } else {
        whole
    };
    let digits: u64 = if frac == 10_000 {
        0
    } else {
        frac
    };
    let mut out = String::new();
    proof {
        assert(out@ =~= Seq::<char>::empty());
    }
    append_decimal(&mut out, carried);
    proof {
        reveal_strlit(".");
    }
    out.append(".");
    if digits < 10 {
        proof {
            reveal_strlit("000");
        }
        out.append("000");
    } else if digits < 100 {
        proof {
            reveal_strlit("00");
        }
        out.append("00");
    } else if digits < 1000 {
        proof {
            reveal_strlit("0");
        }
        out.append("0");
    }
    append_decimal(&mut out, digits);
    proof {
        assert(out@ =~= coin_value_of(sat as int));
    }
    out
}

} // verus!
