//! The shared gain parameter and its indexed host protocol.
//!
//! The host and the UI address parameters by index; only index 0 (the
//! gain, shown to the user as "Amplitude") exists. The gain is a
//! normalized value in [0, 1], held here in fixed point as a count of
//! ten-thousandths so that every operation on it is exact. The cell the
//! threads actually share is a single atomic word outside the library;
//! it stores exactly the `amplitude` field of this type.

use vstd::prelude::*;
use vstd::string::StringExecFns;

use crate::text::{digit_str, spec_digit};

verus! {

/// Number of fixed-point units that make up the full-scale value 1.0.
pub const AMP_UNITS: u32 = 10000;

/// The default gain, half scale (0.5).
pub const DEFAULT_AMP: u32 = 5000;

/// The plugin's parameter set: one normalized gain value, in
/// fixed-point units of `1 / AMP_UNITS`.
#[derive(Clone, Copy, PartialEq, Eq, Structural, Debug)]
pub struct DawParameters {
    pub amplitude: u32,
}

/// `v` clamped into the canonical range of a parameter value.
pub open spec fn clamped(v: u32) -> u32 {
    if v > AMP_UNITS {
        AMP_UNITS
    } else {
        v
    }
}

impl DawParameters {
    /// The gain never leaves its normalized range.
    pub open spec fn inv(self) -> bool {
        self.amplitude <= AMP_UNITS
    }

    /// The value the indexed read returns: the gain for index 0, the
    /// neutral 0 for every other index.
    pub open spec fn spec_get(self, index: i32) -> u32 {
        if index == 0 {
            self.amplitude
        } else {
            0
        }
    }

    /// The store after an indexed write: the clamped value for index 0,
    /// unchanged for every other index.
    pub open spec fn spec_set(self, index: i32, value: u32) -> DawParameters {
        if index == 0 {
            DawParameters { amplitude: clamped(value) }
        } else {
            self
        }
    }

    /// Read the parameter at `index`. Unknown indices yield the neutral
    /// value rather than failing.
    pub fn get_parameter(&self, index: i32) -> (r: u32)
        ensures
            r == self.spec_get(index),
    {
        if index == 0 {
            self.amplitude
        } else {
            0
        }
    }

    /// Write the parameter at `index`, clamping into [0, `AMP_UNITS`].
    /// Writes to unknown indices are ignored.
    pub fn set_parameter(&mut self, index: i32, value: u32)
        ensures
            *final(self) == old(self).spec_set(index, value),
            index == 0 ==> final(self).inv(),
            old(self).inv() ==> final(self).inv(),
    {
        if index == 0 {
            self.amplitude = if value > AMP_UNITS {
                AMP_UNITS
            } else {
                value
            };
        }
    }
}

impl Default for DawParameters {
    /// A fresh parameter set holds the default half-scale gain.
    fn default() -> (r: DawParameters)
        ensures
            r == (DawParameters { amplitude: DEFAULT_AMP }),
            r.inv(),
    {
        DawParameters { amplitude: DEFAULT_AMP }
    }
}

/// The name of the parameter at `index`: "Amplitude" for the gain,
/// empty for unknown indices.
pub open spec fn spec_parameter_name(index: i32) -> Seq<char> {
    if index == 0 {
        "Amplitude"@
    } else {
        Seq::<char>::empty()
    }
}

/// The display value of a gain of `amp` units, in hundredths: the
/// stored [0, 1] range remapped to [-1, 1] by `(value - 0.5) * 2` and
/// rounded to the nearest hundredth, halves away from zero.
pub open spec fn spec_display_hundredths(amp: u32) -> int {
    let d = 2 * amp - AMP_UNITS;
    if d >= 0 {
        (d + 50) / 100
    } else {
        -((-d + 50) / 100)
    }
}

/// The text of a display value of `h` hundredths, |h| at most 100:
/// a minus sign when negative, the units digit, a point, and two
/// fraction digits.
pub open spec fn spec_hundredths_text(h: int) -> Seq<char>
    recommends
        -100 <= h <= 100,
{
    let m = if h >= 0 {
        h
    } else {
        -h
    };
    let sign: Seq<char> = if h < 0 {
        "-"@
    } else {
        Seq::<char>::empty()
    };
    sign + spec_digit(m / 100) + "."@ + spec_digit((m / 10) % 10) + spec_digit(m % 10)
}

/// The readout of the parameter at `index`: the remapped gain to two
/// decimal places for index 0, empty for unknown indices.
pub open spec fn spec_parameter_text(p: DawParameters, index: i32) -> Seq<char> {
    if index == 0 {
        spec_hundredths_text(spec_display_hundredths(p.amplitude))
    } else {
        Seq::<char>::empty()
    }
}

impl DawParameters {
    /// The display name of the parameter at `index`.
    pub fn get_parameter_name(&self, index: i32) -> (r: String)
        ensures
            r@ == spec_parameter_name(index),
    {
        if index == 0 {
            String::from_str("Amplitude")
        } else {
            String::new()
        }
    }

    /// The human-readable readout of the parameter at `index`: the gain
    /// shown as `(value - 0.5) * 2` to two decimal places.
    pub fn get_parameter_text(&self, index: i32) -> (r: String)
        requires
            self.inv(),
        ensures
            r@ == spec_parameter_text(*self, index),
    {
        if index == 0 {
            let amp = self.amplitude;
            let neg = 2 * amp < AMP_UNITS;
            let m: u32 = if neg {
                AMP_UNITS - 2 * amp
            } else {
                2 * amp - AMP_UNITS
            };
            let h: u32 = (m + 50) / 100;
            let mut r = String::new();
            if neg && h > 0 {
                r.append("-");
            }
            r.append(digit_str(h / 100));
            r.append(".");
            r.append(digit_str((h / 10) % 10));
            r.append(digit_str(h % 10));
            proof {
                // the exec value h is |hs|, and hs is negative exactly
                // when a minus sign was written
                let hs = spec_display_hundredths(amp);
                if neg {
                    assert(hs == -((m + 50) / 100));
                } else {
                    assert(hs == (m + 50) / 100);
                }
                assert(h == (m + 50) as int / 100);
                assert(r@ =~= spec_hundredths_text(hs));
            }
            r
        } else {
            String::new()
        }
    }
}

/// The gain written through `set_parameter(0, v)` is what a subsequent
/// `get_parameter(0)` returns, up to clamping at the range boundary.
pub proof fn lemma_set_then_get(p: DawParameters, v: u32)
    ensures
        p.spec_set(0, v).spec_get(0) == clamped(v),
        v <= AMP_UNITS ==> p.spec_set(0, v).spec_get(0) == v,
{
}

} // verus!
