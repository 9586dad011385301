//! The negotiated video capabilities: frame size and frame rate.

use crate::error::VideoError;
use vstd::arithmetic::div_mod::{
    lemma_fundamental_div_mod, lemma_mod_multiples_basic, lemma_mod_pos_bound,
};
use vstd::prelude::*;

verus! {

/// Whether `k` divides `n`.
pub open spec fn divides(k: int, n: int) -> bool {
    n % k == 0
}

/// Whether no integer above 1 divides both `a` and `b`.
pub open spec fn coprime(a: int, b: int) -> bool {
    forall|k: int| k > 1 && #[trigger] divides(k, a) ==> !divides(k, b)
}

/// Frames per second, as a fraction.
///
/// A numerator of zero stands for a variable frame rate.
#[derive(Clone, Copy, Debug, PartialEq, Eq, Structural)]
pub struct Framerate {
    pub numer: i32,
    pub denom: i32,
}

/// Whether `reduced` is the fraction `raw` in lowest terms, with a positive
/// denominator.
pub open spec fn is_lowest_terms(reduced: Framerate, raw: Framerate) -> bool {
    &&& reduced.numer >= 0
    &&& reduced.denom > 0
    &&& reduced.numer * raw.denom == raw.numer * reduced.denom
    &&& coprime(reduced.numer as int, reduced.denom as int)
}

/// `num_rational::Ratio::new` on 32-bit integers: it divides a fraction's
/// two parts by their greatest common divisor. The inputs that it panics on,
/// a zero denominator and the most negative integer, are left out.
#[verifier::external_body]
fn reduce(raw: Framerate) -> (reduced: Framerate)
    requires
        0 <= raw.numer,
        0 < raw.denom,
    ensures
        is_lowest_terms(reduced, raw),
{
    let ratio = num_rational::Ratio::new(raw.numer, raw.denom);
    Framerate { numer: *ratio.numer(), denom: *ratio.denom() }
}

/// What was read from the capability structure of the video sink's pad.
/// Each field is `None` where the structure did not hold it.
#[derive(Clone, Copy, Debug, PartialEq, Eq, Structural)]
pub struct CapsProbe {
    pub width: Option<i32>,
    pub height: Option<i32>,
    pub framerate: Option<Framerate>,
}

/// Validated video capabilities.
#[derive(Clone, Copy, Debug, PartialEq, Eq, Structural)]
pub struct VideoCaps {
    pub width: i32,
    pub height: i32,
    pub framerate: Framerate,
}

impl CapsProbe {
    /// Whether the probe holds a positive width and height and a frame rate
    /// with a positive denominator and no negative numerator.
    pub open spec fn is_complete(self) -> bool {
        &&& self.width matches Some(w) && w > 0
        &&& self.height matches Some(h) && h > 0
        &&& self.framerate matches Some(rate) && rate.numer >= 0 && rate.denom > 0
    }
}

/// Whether `caps` is what a complete `probe` amounts to.
pub open spec fn caps_match(caps: VideoCaps, probe: CapsProbe) -> bool {
    &&& Some(caps.width) == probe.width
    &&& Some(caps.height) == probe.height
    &&& probe.framerate matches Some(rate) && is_lowest_terms(caps.framerate, rate)
}

/// Validates what the capability query gave.
///
/// Succeeds exactly on a complete probe, with the size as probed and the
/// frame rate brought to lowest terms. A missing structure, a missing field
/// or a malformed value is a `Caps` failure.
pub fn negotiate(probe: Option<CapsProbe>) -> (result: Result<VideoCaps, VideoError>)
    ensures
        result.is_ok() <==> (probe matches Some(p) && p.is_complete()),
        result matches Ok(caps) ==> caps_match(caps, probe.unwrap()),
        result matches Err(e) ==> e == VideoError::Caps,
{
    let p = match probe {
        Some(p) => p,
        None => {
            return Err(VideoError::Caps);
        },
    };
    match (p.width, p.height, p.framerate) {
        (Some(width), Some(height), Some(rate)) => {
            if width > 0 && height > 0 && rate.numer >= 0 && rate.denom > 0 {
                Ok(VideoCaps { width, height, framerate: reduce(rate) })
            } else {
                Err(VideoError::Caps)
            }
        },
        _ => Err(VideoError::Caps),
    }
}

/// A multiple of a positive number is divided by it.
proof fn multiple_is_divided(k: int, m: int)
    requires
        k > 0,
    ensures
        divides(k, k * m),
{
    lemma_mod_multiples_basic(m, k);
    assert(k * m == m * k) by (nonlinear_arith);
}

/// What a positive number divides is a multiple of it.
proof fn divided_is_multiple(k: int, n: int) -> (m: int)
    requires
        k > 0,
        divides(k, n),
    ensures
        n == k * m,
{
    lemma_fundamental_div_mod(n, k);
    n / k
}

/// Two numbers, not both zero, have a common divisor that is a sum of
/// multiples of the two. The result holds the divisor and the two factors.
proof fn common_divisor(a: int, b: int) -> (r: (int, int, int))
    requires
        a >= 0,
        b >= 0,
        a + b > 0,
    ensures
        r.0 > 0,
        divides(r.0, a),
        divides(r.0, b),
        a * r.1 + b * r.2 == r.0,
    decreases b,
{
    if b == 0 {
        multiple_is_divided(a, 1);
        multiple_is_divided(a, 0);
        (a, 1, 0)
    } else {
        let q = a / b;
        let rest = a % b;
        lemma_fundamental_div_mod(a, b);
        lemma_mod_pos_bound(a, b);
        let (g, x, y) = common_divisor(b, rest);
        let m1 = divided_is_multiple(g, b);
        let m2 = divided_is_multiple(g, rest);
        assert(a == g * (m1 * q + m2)) by (nonlinear_arith)
            requires
                a == b * q + rest,
                b == g * m1,
                rest == g * m2,
        ;
        multiple_is_divided(g, m1 * q + m2);
        assert(a * y + b * (x - q * y) == g) by (nonlinear_arith)
            requires
                b * x + rest * y == g,
                a == b * q + rest,
        ;
        (g, y, x - q * y)
    }
}

/// A number that divides a product and has no divisor in common with one
/// factor divides the other.
proof fn coprime_divides_other_factor(a: int, b: int, d: int)
    requires
        a >= 0,
        b > 0,
        coprime(a, b),
        divides(b, a * d),
    ensures
        divides(b, d),
{
    let (g, x, y) = common_divisor(a, b);
    assert(g == 1) by {
        if g > 1 {
            assert(divides(g, a));
        }
    }
    let m = divided_is_multiple(b, a * d);
    assert(d == b * (m * x + d * y)) by (nonlinear_arith)
        requires
            a * x + b * y == 1,
            a * d == b * m,
    ;
    multiple_is_divided(b, m * x + d * y);
}

/// A fraction has one lowest form. Two frame rates that are both the lowest
/// terms of the same fraction are the same.
pub proof fn lowest_terms_are_unique(first: Framerate, second: Framerate, raw: Framerate)
    requires
        raw.denom != 0,
        is_lowest_terms(first, raw),
        is_lowest_terms(second, raw),
    ensures
        first == second,
{
    let a = first.numer as int;
    let b = first.denom as int;
    let c = second.numer as int;
    let e = second.denom as int;
    let n = raw.numer as int;
    let m = raw.denom as int;
    assert((a * e - c * b) * m == 0) by (nonlinear_arith)
        requires
            a * m == n * b,
            c * m == n * e,
    ;
    assert(a * e == c * b) by (nonlinear_arith)
        requires
            (a * e - c * b) * m == 0,
            m != 0,
    ;
    assert(divides(b, a * e)) by {
        multiple_is_divided(b, c);
        assert(b * c == c * b) by (nonlinear_arith);
    }
    coprime_divides_other_factor(a, b, e);
    assert(divides(e, c * b)) by {
        multiple_is_divided(e, a);
        assert(e * a == a * e) by (nonlinear_arith);
    }
    coprime_divides_other_factor(c, e, b);
    let k1 = divided_is_multiple(b, e);
    let k2 = divided_is_multiple(e, b);
    assert(b == e) by (nonlinear_arith)
        requires
            e == b * k1,
            b == e * k2,
            b > 0,
            e > 0,
    ;
    assert(a == c) by (nonlinear_arith)
        requires
            a * e == c * b,
            b == e,
            b > 0,
    ;
}

/// A frame rate that is in lowest terms already is what negotiation keeps:
/// the lowest terms of such a fraction are the fraction itself.
pub proof fn lowest_terms_stay(reduced: Framerate, raw: Framerate)
    requires
        raw.numer >= 0,
        raw.denom > 0,
        coprime(raw.numer as int, raw.denom as int),
        is_lowest_terms(reduced, raw),
    ensures
        reduced == raw,
{
    lowest_terms_are_unique(reduced, raw, raw);
}

} // verus!
