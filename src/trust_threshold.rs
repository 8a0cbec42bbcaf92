use vstd::prelude::*;

verus! {

/// The fraction of voting power that must sign a header for it to be trusted.
/// A valid threshold lies in `[0, 1)`; `0/0` is the distinguished zero value.
#[derive(Clone, Copy, Debug, PartialEq, Eq, Structural, Hash)]
pub struct TrustThreshold {
    pub numerator: u64,
    pub denominator: u64,
}

impl TrustThreshold {
    /// Whether a fraction is accepted as a threshold: `0/0`, or below one.
    pub open spec fn valid_fraction(numerator: u64, denominator: u64) -> bool {
        (numerator == 0 && denominator == 0) || numerator < denominator
    }

    pub open spec fn wf(self) -> bool {
        Self::valid_fraction(self.numerator, self.denominator)
    }

    pub open spec fn is_zero(self) -> bool {
        self.numerator == 0 && self.denominator == 0
    }

    /// A threshold of `numerator / denominator`; fails where the fraction is not below one
    /// (the zero value `0/0` aside).
    pub fn new(numerator: u64, denominator: u64) -> (r: Result<TrustThreshold, ()>)
        ensures
            r is Ok <==> Self::valid_fraction(numerator, denominator),
            r matches Ok(t) ==> t.numerator == numerator && t.denominator == denominator,
    {
        if numerator > denominator || (denominator == 0 && numerator != 0) || (numerator
            == denominator && numerator != 0) {
            Err(())
        } else {
            Ok(TrustThreshold { numerator, denominator })
        }
    }

    /// The zero threshold, `0/0`, which no client may use.
    pub fn zero() -> (r: TrustThreshold)
        ensures
            r.is_zero(),
            r.wf(),
    {
        TrustThreshold { numerator: 0, denominator: 0 }
    }

    /// `1/3`, the usual threshold.
    pub fn one_third() -> (r: TrustThreshold)
        ensures
            r.numerator == 1 && r.denominator == 3,
            r.wf(),
    {
        TrustThreshold { numerator: 1, denominator: 3 }
    }

    pub fn numerator(&self) -> (r: u64)
        ensures
            r == self.numerator,
    {
        self.numerator
    }

    pub fn denominator(&self) -> (r: u64)
        ensures
            r == self.denominator,
    {
        self.denominator
    }
}

impl Default for TrustThreshold {
    fn default() -> (r: TrustThreshold)
        ensures
            r.numerator == 1 && r.denominator == 3,
    {
        TrustThreshold::one_third()
    }
}

/// Whether tendermint's light client verifier accepts the fraction as its own threshold:
/// defined, at most one, and at least one third, with `3 * numerator` within `u64`, the
/// arithmetic in which it compares.
pub open spec fn verifier_accepts(numerator: u64, denominator: u64) -> bool {
    numerator <= denominator && denominator != 0 && 3 * numerator >= denominator && 3 * numerator
        <= u64::MAX
}

/// Relies on tendermint's `TrustThresholdFraction::new`, which accepts exactly the fractions
/// with `numerator <= denominator`, `denominator != 0` and `3 * numerator >= denominator`.
/// Its `3 * numerator` is computed in `u64`, so that product must fit.
#[verifier::external_body]
fn tendermint_fraction_ok(numerator: u64, denominator: u64) -> (r: bool)
    requires
        numerator > denominator || 3 * numerator <= u64::MAX,
    ensures
        r == verifier_accepts(numerator, denominator),
{
    tendermint::trust_threshold::TrustThresholdFraction::new(numerator, denominator).is_ok()
}

/// Whether the verifier accepts `t` as its threshold.
pub fn verifier_accepts_threshold(t: &TrustThreshold) -> (r: bool)
    ensures
        r == verifier_accepts(t.numerator, t.denominator),
{
    if t.numerator <= t.denominator && t.numerator > u64::MAX / 3 {
        false
    } else {
        tendermint_fraction_ok(t.numerator, t.denominator)
    }
}

} // verus!
