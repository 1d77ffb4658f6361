use vstd::prelude::*;

verus! {

/// Decimal digits of `n`, most significant first, without leading zeros.
pub open spec fn dec_digits(n: nat) -> Seq<u8>
    decreases n,
{
    if n < 10 {
        seq![(48 + n) as u8]
    } else {
        dec_digits(n / 10) + seq![(48 + n % 10) as u8]
    }
}

/// Decimal text of an integer, with a minus sign when negative.
pub open spec fn int_text(v: int) -> Seq<u8> {
    if v < 0 {
        seq![45u8] + dec_digits((-v) as nat)
    } else {
        dec_digits(v as nat)
    }
}

/// The last `width` decimal digits of `n`, zero-padded.
pub open spec fn padded_digits(n: nat, width: nat) -> Seq<u8>
    decreases width,
{
    if width == 0 {
        seq![]
    } else {
        padded_digits(n / 10, (width - 1) as nat) + seq![(48 + n % 10) as u8]
    }
}

/// `true` or `false`.
pub open spec fn bool_text(b: bool) -> Seq<u8> {
    if b {
        seq![116u8, 114, 117, 101]
    } else {
        seq![102u8, 97, 108, 115, 101]
    }
}

/// A count of hundredths written with two decimals.
pub open spec fn hundredths_text(n: nat) -> Seq<u8> {
    dec_digits(n / 100) + seq![46u8] + padded_digits(n % 100, 2)
}

/// A value in millionths written with four decimals, rounded to nearest with halves away
/// from zero; negative values keep their sign.
pub open spec fn micro_text_4(v: int) -> Seq<u8> {
    let m: nat = if v < 0 { (-v) as nat } else { v as nat };
    let q: nat = (m + 50) / 100;
    (if v < 0 { seq![45u8] } else { seq![] }) + dec_digits(q / 10000) + seq![46u8]
        + padded_digits(q % 10000, 4)
}

/// Appends the decimal digits of `n`.
pub fn push_decimal(out: &mut Vec<u8>, n: u64)
    ensures
        final(out)@ == old(out)@ + dec_digits(n as nat),
    decreases n,
{
    if n >= 10 {
        push_decimal(out, n / 10);
    }
    out.push((48 + n % 10) as u8);
    assert(final(out)@ =~= old(out)@ + dec_digits(n as nat));
}

/// Appends the last `width` digits of `n`, zero-padded.
pub fn push_padded(out: &mut Vec<u8>, n: u64, width: u32)
    ensures
        final(out)@ == old(out)@ + padded_digits(n as nat, width as nat),
    decreases width,
{
    if width > 0 {
        push_padded(out, n / 10, width - 1);
        out.push((48 + n % 10) as u8);
        assert(final(out)@ =~= old(out)@ + padded_digits(n as nat, width as nat));
    } else {
        assert(final(out)@ =~= old(out)@ + padded_digits(n as nat, width as nat));
    }
}

/// Appends the decimal text of a signed integer.
pub fn push_int(out: &mut Vec<u8>, v: i64)
    ensures
        final(out)@ == old(out)@ + int_text(v as int),
{
    if v < 0 {
        out.push(45);
        let m: u64 = if v == i64::MIN { 9223372036854775808u64 } else { (-v) as u64 };
        push_decimal(out, m);
        assert(final(out)@ =~= old(out)@ + int_text(v as int));
    } else {
        push_decimal(out, v as u64);
    }
}

/// Appends `true` or `false`.
pub fn push_bool(out: &mut Vec<u8>, b: bool)
    ensures
        final(out)@ == old(out)@ + bool_text(b),
{
    if b {
        out.push(116);
        out.push(114);
        out.push(117);
        out.push(101);
    } else {
        out.push(102);
        out.push(97);
        out.push(108);
        out.push(115);
        out.push(101);
    }
    assert(final(out)@ =~= old(out)@ + bool_text(b));
}

/// Appends hundredths with two decimals.
pub fn push_hundredths(out: &mut Vec<u8>, n: u32)
    ensures
        final(out)@ == old(out)@ + hundredths_text(n as nat),
{
    push_decimal(out, (n / 100) as u64);
    out.push(46);
    push_padded(out, (n % 100) as u64, 2);
    assert(final(out)@ =~= old(out)@ + hundredths_text(n as nat));
}

/// Appends a value in millionths with four decimals.
pub fn push_micro_4(out: &mut Vec<u8>, v: i64)
    ensures
        final(out)@ == old(out)@ + micro_text_4(v as int),
{
    let m: u64 = if v == i64::MIN {
        9223372036854775808u64
    } else if v < 0 {
        (-v) as u64
    } else {
        v as u64
    };
    let q: u64 = (m + 50) / 100;
    if v < 0 {
        out.push(45);
    }
    push_decimal(out, q / 10000);
    out.push(46);
    push_padded(out, q % 10000, 4);
    assert(final(out)@ =~= old(out)@ + micro_text_4(v as int));
}

} // verus!
