use vstd::prelude::*;

verus! {

/// Global text scale, in percent: every emitted length is multiplied by it.
pub const TEXT_SCALE: u32 = 100;

/// The ASCII digit for `d` (below ten).
pub open spec fn digit_char(d: nat) -> char {
    if d == 0 { '0' }
    else if d == 1 { '1' }
    else if d == 2 { '2' }
    else if d == 3 { '3' }
    else if d == 4 { '4' }
    else if d == 5 { '5' }
    else if d == 6 { '6' }
    else if d == 7 { '7' }
    else if d == 8 { '8' }
    else { '9' }
}

/// Decimal digits of `n`, most significant first, without leading zeros.
pub open spec fn decimal(n: nat) -> Seq<char>
    decreases n,
{
    if n < 10 {
        seq![digit_char(n)]
    } else {
        decimal(n / 10).push(digit_char(n % 10))
    }
}

/// The fractional part of a length of `n` thousandths of a pixel, as its
/// shortest decimal form: empty for a whole number, else a point followed by
/// one to three digits with no trailing zero.
pub open spec fn fraction(n: nat) -> Seq<char> {
    let f = n % 1000;
    if f == 0 {
        Seq::empty()
    } else if f % 100 == 0 {
        seq!['.', digit_char(f / 100)]
    } else if f % 10 == 0 {
        seq!['.', digit_char(f / 100), digit_char((f / 10) % 10)]
    } else {
        seq!['.', digit_char(f / 100), digit_char((f / 10) % 10), digit_char(f % 10)]
    }
}

/// The CSS text of a length of `n` thousandths of a pixel (`"2.5px"`).
pub open spec fn px(n: nat) -> Seq<char> {
    decimal(n / 1000) + fraction(n) + seq!['p', 'x']
}

/// A length of `size` tenths of a pixel under a scale of `scale` percent,
/// in thousandths of a pixel.
pub open spec fn scaled(size: nat, scale: nat) -> nat {
    size * scale
}

/// Relies on String::push: the character is appended at the end.
#[verifier::external_body]
fn push_char(s: &mut String, c: char)
    ensures
        final(s)@ == old(s)@.push(c),
{
    s.push(c)
}

fn digit(d: u64) -> (c: char)
    requires
        d < 10,
    ensures
        c == digit_char(d as nat),
{
    if d == 0 { '0' }
    else if d == 1 { '1' }
    else if d == 2 { '2' }
    else if d == 3 { '3' }
    else if d == 4 { '4' }
    else if d == 5 { '5' }
    else if d == 6 { '6' }
    else if d == 7 { '7' }
    else if d == 8 { '8' }
    else { '9' }
}

fn push_decimal(s: &mut String, n: u64)
    ensures
        final(s)@ == old(s)@ + decimal(n as nat),
    decreases n,
{
    if n >= 10 {
        push_decimal(s, n / 10);
    }
    push_char(s, digit(n % 10));
    proof {
        if n < 10 {
            assert(old(s)@ + decimal(n as nat) =~= old(s)@.push(digit_char(n as nat)));
        } else {
            assert(old(s)@ + decimal(n as nat) =~= (old(s)@ + decimal((n / 10) as nat)).push(
                digit_char((n % 10) as nat),
            ));
        }
    }
}

/// Formats a length of `n` thousandths of a pixel as CSS text, in the
/// shortest decimal form (`28000` gives `"28px"`, `2500` gives `"2.5px"`).
pub fn px_text(n: u64) -> (r: String)
    ensures
        r@ == px(n as nat),
{
    let mut s = String::new();
    push_decimal(&mut s, n / 1000);
    let f = n % 1000;
    if f != 0 {
        push_char(&mut s, '.');
        push_char(&mut s, digit(f / 100));
        if f % 100 != 0 {
            push_char(&mut s, digit((f / 10) % 10));
            if f % 10 != 0 {
                push_char(&mut s, digit(f % 10));
            }
        }
    }
    push_char(&mut s, 'p');
    push_char(&mut s, 'x');
    assert(s@ =~= px(n as nat));
    s
}

/// A length of `size` tenths of a pixel under a scale of `scale` percent, in
/// thousandths of a pixel.
pub fn scaled_length(size: u32, scale: u32) -> (r: u64)
    ensures
        r == scaled(size as nat, scale as nat),
{
    assert((size as nat) * (scale as nat) <= 0xffff_ffff * 0xffff_ffff) by (nonlinear_arith)
        requires size <= 0xffff_ffffu32, scale <= 0xffff_ffffu32;
    (size as u64) * (scale as u64)
}

/// The CSS text of a length of `size` tenths of a pixel under the global scale.
pub fn scaled_size(size: u32) -> (r: String)
    ensures
        r@ == px(scaled(size as nat, TEXT_SCALE as nat)),
{
    px_text(scaled_length(size, TEXT_SCALE))
}

} // verus!

verus! {

/// Changing the global scale from 100% to `k` percent multiplies a scaled
/// length by `k / 100`, exactly.
pub proof fn lemma_rescale(size: nat, k: nat)
    ensures
        scaled(size, k) == scaled(size, 100) * k / 100,
        scaled(size, 100) % 100 == 0,
{
    assert(size * 100 * k == (size * k) * 100) by (nonlinear_arith);
    vstd::arithmetic::div_mod::lemma_div_multiples_vanish((size * k) as int, 100);
    vstd::arithmetic::div_mod::lemma_mod_multiples_basic(size as int, 100);
}

} // verus!
