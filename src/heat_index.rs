use vstd::prelude::*;

verus! {

/// The outcomes of the comparisons that decide the adjusted heat index, for
/// one air temperature `T` in degrees Fahrenheit, one relative humidity `RH`
/// in percent, and the Rothfusz regression value `HI` at those inputs.
#[derive(Clone, Copy, Debug, PartialEq, Eq, Structural)]
pub struct HeatIndexConditions {
    /// `T > 80`.
    pub above_80f: bool,
    /// `T < 112`.
    pub below_112f: bool,
    /// `T < 87`.
    pub below_87f: bool,
    /// `T < 80`.
    pub below_80f: bool,
    /// `RH <= 13`.
    pub very_dry: bool,
    /// `RH > 85`.
    pub very_humid: bool,
    /// `(HI + T) / 2 < 80`.
    pub mean_below_80f: bool,
}

/// How the adjusted heat index is computed once its regime is known.
#[derive(Clone, Copy, Debug, PartialEq, Eq, Structural)]
pub enum HeatIndexRegime {
    /// The regression value, less a correction for very dry air.
    DryCorrection,
    /// The regression value, plus a correction for very humid air.
    HumidCorrection,
    /// The simple average-based estimate in place of the regression value.
    SimpleEstimate,
}

impl HeatIndexConditions {
    /// Hot and very dry: `80 < T < 112` and `RH <= 13`.
    pub open spec fn hot_and_dry(self) -> bool {
        self.above_80f && self.below_112f && self.very_dry
    }

    /// Warm and very humid: `80 < T < 87` and `RH > 85`.
    pub open spec fn warm_and_humid(self) -> bool {
        self.above_80f && self.below_87f && self.very_humid
    }

    /// Cool enough for the simple estimate: `T < 80`, or the mean of the
    /// regression value and `T` below 80.
    pub open spec fn cool(self) -> bool {
        self.below_80f || self.mean_below_80f
    }
}

/// Selects the regime of the adjusted heat index.
///
/// The regimes are tried in a fixed order and the first one whose condition
/// holds is taken: the dry correction, then the humid correction, then the
/// simple estimate for a cool temperature, then the simple estimate for a
/// low mean. When none holds the index is undefined and the result is `None`.
pub fn select_heat_index_regime(c: HeatIndexConditions) -> (r: Option<HeatIndexRegime>)
    ensures
        r == Some(HeatIndexRegime::DryCorrection) <==> c.hot_and_dry(),
        r == Some(HeatIndexRegime::HumidCorrection) <==> !c.hot_and_dry() && c.warm_and_humid(),
        r == Some(HeatIndexRegime::SimpleEstimate) <==> !c.hot_and_dry() && !c.warm_and_humid()
            && c.cool(),
        r is None <==> !c.hot_and_dry() && !c.warm_and_humid() && !c.cool(),
{
    if c.above_80f && c.below_112f && c.very_dry {
        Some(HeatIndexRegime::DryCorrection)
    } else if c.above_80f && c.below_87f && c.very_humid {
        Some(HeatIndexRegime::HumidCorrection)
    } else if c.below_80f {
        Some(HeatIndexRegime::SimpleEstimate)
    } else if c.mean_below_80f {
        Some(HeatIndexRegime::SimpleEstimate)
    } else {
        None
    }
}

} // verus!
