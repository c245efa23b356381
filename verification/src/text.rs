//! Rendering scalar values to the character data the engine writes.

use vstd::prelude::*;
use vstd::string::StringExecFns;
use crate::value::Scalar;

verus! {

/// The decimal digit character for `d`, which must be below ten.
pub open spec fn digit_char(d: nat) -> char {
    if d == 0 {
        '0'
    } else if d == 1 {
        '1'
    } else if d == 2 {
        '2'
    } else if d == 3 {
        '3'
    } else if d == 4 {
        '4'
    } else if d == 5 {
        '5'
    } else if d == 6 {
        '6'
    } else if d == 7 {
        '7'
    } else if d == 8 {
        '8'
    } else {
        '9'
    }
}

/// The decimal rendering of a natural number, most significant digit first,
/// without a sign and without leading zeros (zero itself renders as "0").
pub open spec fn dec_nat(n: nat) -> Seq<char>
    decreases n,
{
    if n < 10 {
        seq![digit_char(n)]
    } else {
        dec_nat(n / 10).push(digit_char(n % 10))
    }
}

/// The decimal rendering of an integer: a leading '-' on negative values.
pub open spec fn dec_int(i: int) -> Seq<char> {
    if i >= 0 {
        dec_nat(i as nat)
    } else {
        seq!['-'] + dec_nat((-i) as nat)
    }
}

/// The text a scalar renders to: strings and pre-rendered floats verbatim,
/// booleans as "true"/"false", integers in decimal.
pub open spec fn scalar_text(s: Scalar) -> Seq<char> {
    match s {
        Scalar::Str(t) => t@,
        Scalar::Bool(b) => if b {
            "true"@
        } else {
            "false"@
        },
        Scalar::U8(x) => dec_nat(x as nat),
        Scalar::I8(x) => dec_int(x as int),
        Scalar::U16(x) => dec_nat(x as nat),
        Scalar::I16(x) => dec_int(x as int),
        Scalar::U32(x) => dec_nat(x as nat),
        Scalar::I32(x) => dec_int(x as int),
        Scalar::U64(x) => dec_nat(x as nat),
        Scalar::I64(x) => dec_int(x as int),
        Scalar::USize(x) => dec_nat(x as nat),
        Scalar::F32Text(t) => t@,
        Scalar::F64Text(t) => t@,
    }
}

/// The one-character string slice for a single decimal digit.
fn digit_str(d: u64) -> (r: &'static str)
    requires
        d < 10,
    ensures
        r@ == seq![digit_char(d as nat)],
{
    let r: &'static str = if d == 0 {
        "0"
    } else if d == 1 {
        "1"
    } else if d == 2 {
        "2"
    } else if d == 3 {
        "3"
    } else if d == 4 {
        "4"
    } else if d == 5 {
        "5"
    } else if d == 6 {
        "6"
    } else if d == 7 {
        "7"
    } else if d == 8 {
        "8"
    } else {
        "9"
    };
    proof {
        reveal_strlit("0");
        reveal_strlit("1");
        reveal_strlit("2");
        reveal_strlit("3");
        reveal_strlit("4");
        reveal_strlit("5");
        reveal_strlit("6");
        reveal_strlit("7");
        reveal_strlit("8");
        reveal_strlit("9");
        assert(r@ =~= seq![digit_char(d as nat)]);
    }
    r
}

/// Append the decimal rendering of `n` to `out`.
fn push_dec_u64(n: u64, out: &mut String)
    ensures
        final(out)@ == old(out)@ + dec_nat(n as nat),
    decreases n,
{
    if n < 10 {
        out.append(digit_str(n));
        proof {
            assert(out@ =~= old(out)@ + dec_nat(n as nat));
        }
    } else {
        push_dec_u64(n / 10, out);
        out.append(digit_str(n % 10));
        proof {
            assert(out@ =~= old(out)@ + dec_nat(n as nat));
        }
    }
}

/// The decimal rendering of an unsigned 64-bit value as a `String`.
pub fn u64_to_string(n: u64) -> (r: String)
    ensures
        r@ == dec_nat(n as nat),
{
    let mut r = String::new();
    push_dec_u64(n, &mut r);
    proof {
        assert(r@ =~= dec_nat(n as nat));
    }
    r
}

/// The decimal rendering of a signed 64-bit value as a `String`.
pub fn i64_to_string(n: i64) -> (r: String)
    ensures
        r@ == dec_int(n as int),
{
    if n >= 0 {
        let r = u64_to_string(n as u64);
        r
    } else {
        let mut r = String::new();
        r.append("-");
        let mag: u64 = if n == i64::MIN {
            9223372036854775808
        } else {
            (-n) as u64
        };
        push_dec_u64(mag, &mut r);
        proof {
            reveal_strlit("-");
            assert(mag as nat == (-(n as int)) as nat);
            assert(r@ =~= dec_int(n as int));
        }
        r
    }
}

/// Render a scalar to the character data written for it.
pub fn scalar_to_string(s: &Scalar) -> (r: String)
    ensures
        r@ == scalar_text(*s),
{
    match s {
        Scalar::Str(t) => t.clone(),
        Scalar::Bool(b) => if *b {
            "true".to_owned()
        } else {
            "false".to_owned()
        },
        Scalar::U8(x) => u64_to_string(*x as u64),
        Scalar::I8(x) => i64_to_string(*x as i64),
        Scalar::U16(x) => u64_to_string(*x as u64),
        Scalar::I16(x) => i64_to_string(*x as i64),
        Scalar::U32(x) => u64_to_string(*x as u64),
        Scalar::I32(x) => i64_to_string(*x as i64),
        Scalar::U64(x) => u64_to_string(*x),
        Scalar::I64(x) => i64_to_string(*x),
        Scalar::USize(x) => u64_to_string(*x as u64),
        Scalar::F32Text(t) => t.clone(),
        Scalar::F64Text(t) => t.clone(),
    }
}

} // verus!
