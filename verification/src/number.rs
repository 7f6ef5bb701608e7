//! Numbers as text: decimal notation, and the number that the digits of a
//! mixed text spell.

use vstd::prelude::*;

verus! {

/// The character of the decimal digit `d`.
pub open spec fn digit(d: nat) -> char
    recommends
        d < 10,
{
    (0x30 + d) as char
}

/// Whether `c` is one of the digits `0` to `9`.
pub open spec fn is_digit(c: char) -> bool {
    0x30 <= c as u32 <= 0x39
}

/// The value of the digit `c`.
pub open spec fn digit_value(c: char) -> nat
    recommends
        is_digit(c),
{
    (c as u32 - 0x30) as nat
}

/// `n` in decimal notation, without leading zeros.
pub open spec fn decimal(n: nat) -> Seq<char>
    decreases n,
{
    if n < 10 {
        seq![digit(n)]
    } else {
        decimal(n / 10).push(digit(n % 10))
    }
}

/// `n` in decimal notation, with a minus sign where it is negative.
pub open spec fn signed_decimal(n: int) -> Seq<char> {
    if n < 0 {
        seq!['-'] + decimal((-n) as nat)
    } else {
        decimal(n as nat)
    }
}

/// `n` in decimal notation, with zeros in front up to `width` digits.
pub open spec fn padded(n: nat, width: nat) -> Seq<char>
    decreases width,
{
    if decimal(n).len() >= width {
        decimal(n)
    } else {
        seq!['0'] + padded(n, (width - 1) as nat)
    }
}

/// The digits of `s`, in order.
pub open spec fn digits(s: Seq<char>) -> Seq<char>
    decreases s.len(),
{
    if s.len() == 0 {
        Seq::empty()
    } else if is_digit(s.last()) {
        digits(s.drop_last()).push(s.last())
    } else {
        digits(s.drop_last())
    }
}

/// The number that a sequence of digits spells; zero for none.
pub open spec fn number(d: Seq<char>) -> nat
    decreases d.len(),
{
    if d.len() == 0 {
        0
    } else {
        number(d.drop_last()) * 10 + digit_value(d.last())
    }
}

/// The number that the digits of `s` spell, where there is a digit and the
/// number fits in 32 bits; zero otherwise.
pub open spec fn metric(s: Seq<char>) -> nat {
    if digits(s).len() > 0 && number(digits(s)) <= u32::MAX {
        number(digits(s))
    } else {
        0
    }
}

/// Computes `digit`.
pub fn digit_char(d: u8) -> (c: char)
    requires
        d < 10,
    ensures
        c == digit(d as nat),
        is_digit(c),
        digit_value(c) == d,
{
    (0x30u8 + d) as char
}

/// Appends `decimal(n)` to `out`.
pub fn push_decimal(out: &mut Vec<char>, n: u64)
    ensures
        final(out)@ == old(out)@ + decimal(n as nat),
    decreases n,
{
    if n < 10 {
        out.push(digit_char(n as u8));
    } else {
        push_decimal(out, n / 10);
        out.push(digit_char((n % 10) as u8));
    }
}

/// Appends `signed_decimal(n)` to `out`.
pub fn push_signed_decimal(out: &mut Vec<char>, n: i64)
    ensures
        final(out)@ == old(out)@ + signed_decimal(n as int),
{
    if n < 0 {
        out.push('-');
        let magnitude: u64 = (-(n + 1)) as u64 + 1;
        push_decimal(out, magnitude);
    } else {
        push_decimal(out, n as u64);
    }
}

/// Appends `padded(n, width)` to `out`.
pub fn push_padded(out: &mut Vec<char>, n: u64, width: usize)
    ensures
        final(out)@ == old(out)@ + padded(n as nat, width as nat),
{
    let mut body: Vec<char> = Vec::new();
    push_decimal(&mut body, n);
    let mut w: usize = width;
    while w > body.len()
        invariant
            body@ == decimal(n as nat),
            out@ + padded(n as nat, w as nat) == old(out)@ + padded(n as nat, width as nat),
        decreases w,
    {
        out.push('0');
        w -= 1;
    }
    let mut j: usize = 0;
    let ghost start = out@;
    while j < body.len()
        invariant
            j <= body.len(),
            out@ == start + body@.take(j as int),
        decreases body.len() - j,
    {
        out.push(body[j]);
        j += 1;
    }
}

/// Decimal notation is made of digits: one for a number below ten, at
/// most two below a hundred, at most three below a thousand and at most
/// four below ten thousand.
pub proof fn lemma_decimal(n: nat)
    ensures
        decimal(n).len() >= 1,
        forall|i: int| 0 <= i < decimal(n).len() ==> is_digit(#[trigger] decimal(n)[i]),
        n < 10 ==> decimal(n).len() == 1,
        n < 100 ==> decimal(n).len() <= 2,
        n < 1000 ==> decimal(n).len() <= 3,
        n < 10000 ==> decimal(n).len() <= 4,
    decreases n,
{
    if n >= 10 {
        lemma_decimal(n / 10);
    }
}

/// A number that fits the width is padded to exactly that many digits.
pub proof fn lemma_padded(n: nat, width: nat)
    requires
        decimal(n).len() <= width,
    ensures
        padded(n, width).len() == width,
        forall|i: int| 0 <= i < width ==> is_digit(#[trigger] padded(n, width)[i]),
    decreases width,
{
    lemma_decimal(n);
    if decimal(n).len() < width {
        lemma_padded(n, (width - 1) as nat);
    }
}

/// Computes `metric`.
pub fn metric_of(v: &Vec<char>) -> (m: u32)
    ensures
        m == metric(v@),
{
    let mut acc: u64 = 0;
    let mut seen: bool = false;
    let mut over: bool = false;
    let mut i: usize = 0;
    while i < v.len()
        invariant
            i <= v.len(),
            seen == (digits(v@.take(i as int)).len() > 0),
            over == (number(digits(v@.take(i as int))) > u32::MAX),
            !over ==> acc == number(digits(v@.take(i as int))),
            acc <= u32::MAX,
        decreases v.len() - i,
    {
        let c = v[i];
        let u: u32 = c as u32;
        proof {
            assert(v@.take(i + 1).drop_last() == v@.take(i as int));
            let d = digits(v@.take(i + 1));
            if is_digit(c) {
                assert(d.drop_last() == digits(v@.take(i as int)));
            }
        }
        if 0x30 <= u && u <= 0x39 {
            seen = true;
            if !over {
                let next: u64 = acc * 10 + (u - 0x30) as u64;
                if next > 0xffff_ffff {
                    over = true;
                    acc = 0;
                } else {
                    acc = next;
                }
            } else {
                proof {
                    let d = digits(v@.take(i + 1));
                    assert(number(d) >= number(d.drop_last()) * 10) by (nonlinear_arith)
                        requires
                            number(d) == number(d.drop_last()) * 10 + digit_value(d.last()),
                    ;
                }
            }
        }
        i += 1;
    }
    assert(v@.take(v.len() as int) == v@);
    if seen && !over {
        acc as u32
    } else {
        0
    }
}

} // verus!
