//! Rendering of interface-level literal values as Python source text.
//!
//! The interface definition attaches literal default values to members;
//! emitted Python bindings need each one as source text. Booleans become
//! Python's `True` and `False`; strings are wrapped in double quotes;
//! integers are rendered in the radix they were written in, octal wrapped in
//! `int(0o...)` for signed values so that Python accepts it in every
//! position; floating-point literals keep the source text they arrived
//! with. Signed values rendered in octal or hexadecimal show their 64-bit
//! two's-complement pattern.

use crate::codec::{bits_of_i64, i64_bits};
use vstd::prelude::*;
use vstd::string::StringExecFns;

verus! {

/// Radix of an integer literal, as written in the interface definition.
#[derive(Clone, Copy, PartialEq, Eq, Structural, Debug)]
pub enum Radix {
    Octal,
    Decimal,
    Hexadecimal,
}

/// A literal value attached to an interface member. The floating-point
/// variant keeps the source text it was written with; rendering emits that
/// text unchanged, so no floating-point value is ever computed here.
pub enum Literal {
    Boolean(bool),
    Text(String),
    Int(i64, Radix),
    UInt(u64, Radix),
    Float(String),
}

/// The character of one digit: `0` to `9`, then lowercase `a` to `f`.
pub open spec fn digit_char(d: int) -> char
    recommends
        0 <= d < 16,
{
    if d < 10 {
        ((48 + d) as u8) as char
    } else {
        ((87 + d) as u8) as char
    }
}

/// The digits of `n` in a base from 2 to 16, most significant first, with
/// no leading zeros (zero itself is the single digit `0`).
pub open spec fn spec_digits(n: nat, base: nat) -> Seq<char>
    recommends
        2 <= base <= 16,
    decreases n,
    via spec_digits_decreases
{
    if base < 2 {
        Seq::empty()
    } else if n < base {
        seq![digit_char(n as int)]
    } else {
        spec_digits(n / base, base).push(digit_char((n % base) as int))
    }
}

#[via_fn]
proof fn spec_digits_decreases(n: nat, base: nat) {
    if 2 <= base && base <= n {
        vstd::arithmetic::div_mod::lemma_div_decreases(n as int, base as int);
    }
}

/// How a signed 64-bit value reads in decimal: a minus sign for negative
/// values, then the magnitude's digits.
pub open spec fn spec_signed_decimal(i: i64) -> Seq<char> {
    if i >= 0 {
        spec_digits(i as nat, 10)
    } else {
        seq!['-'] + spec_digits((-(i as int)) as nat, 10)
    }
}

/// What each literal renders to.
pub open spec fn spec_render_literal(lit: Literal) -> Seq<char> {
    match lit {
        Literal::Boolean(v) => if v {
            "True"@
        } else {
            "False"@
        },
        Literal::Text(s) => "\""@ + s@ + "\""@,
        Literal::Int(i, radix) => match radix {
            Radix::Octal => "int(0o"@ + spec_digits(bits_of_i64(i) as nat, 8) + ")"@,
            Radix::Decimal => spec_signed_decimal(i),
            Radix::Hexadecimal => "0x"@ + spec_digits(bits_of_i64(i) as nat, 16),
        },
        Literal::UInt(u, radix) => match radix {
            Radix::Octal => "0o"@ + spec_digits(u as nat, 8),
            Radix::Decimal => spec_digits(u as nat, 10),
            Radix::Hexadecimal => "0x"@ + spec_digits(u as nat, 16),
        },
        Literal::Float(s) => s@,
    }
}

/// Relies on `String::push`: appends one character to the string.
#[verifier::external_body]
fn push_char(s: &mut String, c: char)
    ensures
        final(s)@ == old(s)@.push(c),
{
    s.push(c);
}

/// The character of one digit, executably.
fn digit_char_exec(d: u64) -> (c: char)
    requires
        d < 16,
    ensures
        c == digit_char(d as int),
{
    if d < 10 {
        (48 + (d as u8)) as char
    } else {
        (87 + (d as u8)) as char
    }
}

/// Renders `n` in a base from 2 to 16, most significant digit first.
pub fn format_radix(n: u64, base: u64) -> (out: String)
    requires
        2 <= base <= 16,
    ensures
        out@ == spec_digits(n as nat, base as nat),
{
    let mut rev: Vec<char> = Vec::new();
    let mut cur = n;
    while cur >= base
        invariant
            2 <= base <= 16,
            spec_digits(n as nat, base as nat) == spec_digits(cur as nat, base as nat)
                + rev@.reverse(),
        decreases cur,
    {
        let d = cur % base;
        let next = cur / base;
        let c = digit_char_exec(d);
        proof {
            vstd::arithmetic::div_mod::lemma_div_decreases(cur as int, base as int);
            assert((rev@.push(c)).reverse() =~= seq![c] + rev@.reverse());
            assert(spec_digits(next as nat, base as nat).push(c) + rev@.reverse()
                =~= spec_digits(next as nat, base as nat) + (seq![c] + rev@.reverse()));
        }
        rev.push(c);
        cur = next;
    }
    let last = digit_char_exec(cur);
    proof {
        assert((rev@.push(last)).reverse() =~= seq![last] + rev@.reverse());
        assert(spec_digits(cur as nat, base as nat) == seq![last]);
    }
    rev.push(last);
    let ghost all = spec_digits(n as nat, base as nat);
    proof {
        assert(all =~= rev@.reverse());
    }
    let mut out = String::new();
    let count = rev.len();
    let mut j: usize = 0;
    while j < count
        invariant
            count == rev@.len(),
            all == rev@.reverse(),
            all.len() == count,
            j <= count,
            out@ == all.subrange(0, j as int),
        decreases count - j,
    {
        let c = rev[count - 1 - j];
        proof {
            assert(rev@.reverse()[j as int] == rev@[count - 1 - j]);
            assert(all.subrange(0, j as int).push(rev@[count - 1 - j]) =~= all.subrange(
                0,
                j as int + 1,
            ));
        }
        push_char(&mut out, c);
        j = j + 1;
    }
    proof {
        assert(out@ =~= all);
    }
    out
}

/// Renders a signed 64-bit value in decimal.
pub fn format_signed_decimal(i: i64) -> (out: String)
    ensures
        out@ == spec_signed_decimal(i),
{
    if i >= 0 {
        format_radix(i as u64, 10)
    } else {
        let magnitude: u64 = ((-(i + 1)) as u64) + 1;
        let mut out = String::from_str("-");
        let digits = format_radix(magnitude, 10);
        out.append(digits.as_str());
        proof {
            reveal_strlit("-");
            assert(out@ =~= spec_signed_decimal(i));
        }
        out
    }
}

/// Renders a literal as Python source text.
pub fn render_literal(literal: &Literal) -> (out: String)
    ensures
        out@ == spec_render_literal(*literal),
{
    match literal {
        Literal::Boolean(v) => {
            if *v {
                String::from_str("True")
            } else {
                String::from_str("False")
            }
        },
        Literal::Text(s) => {
            let mut out = String::from_str("\"");
            out.append(s.as_str());
            out.append("\"");
            out
        },
        Literal::Int(i, radix) => {
            match radix {
                Radix::Octal => {
                    let mut out = String::from_str("int(0o");
                    let digits = format_radix(i64_bits(*i), 8);
                    out.append(digits.as_str());
                    out.append(")");
                    out
                },
                Radix::Decimal => format_signed_decimal(*i),
                Radix::Hexadecimal => {
                    let mut out = String::from_str("0x");
                    let digits = format_radix(i64_bits(*i), 16);
                    out.append(digits.as_str());
                    out
                },
            }
        },
        Literal::UInt(u, radix) => {
            match radix {
                Radix::Octal => {
                    let mut out = String::from_str("0o");
                    let digits = format_radix(*u, 8);
                    out.append(digits.as_str());
                    out
                },
                Radix::Decimal => format_radix(*u, 10),
                Radix::Hexadecimal => {
                    let mut out = String::from_str("0x");
                    let digits = format_radix(*u, 16);
                    out.append(digits.as_str());
                    out
                },
            }
        },
        Literal::Float(s) => {
            let mut out = String::new();
            out.append(s.as_str());
            out
        },
    }
}

} // verus!
