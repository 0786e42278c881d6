//! Parameters of the hybrid (chroma + luma) key.
//!
//! Every numeric parameter is kept inside its range: setters clamp the value
//! they are given to the range's upper bound.
use vstd::prelude::*;
use crate::color::{pack_rgb, unpack_rgb, packed_rgb, rgb_of, lemma_unpack_pack};

verus! {

/// Upper bound of the colour-distance tolerance.
pub const MAX_TOLERANCE: u32 = 200;
/// Upper bound of the edge softness, the luma softness and the smoothing.
pub const MAX_PERCENT: u32 = 100;
/// Upper bound of the luma low threshold.
pub const MAX_LUMA_LOW: u32 = 255;

/// The abstract value of a [`KeyState`].
pub struct KeyParams {
    pub enabled: bool,
    pub key_color: (u8, u8, u8),
    pub tolerance: u32,
    pub softness: u32,
    pub luma_low: u32,
    pub luma_softness: u32,
    pub spill_suppress: bool,
    pub smoothing: u32,
}

/// Hybrid key parameters. A `KeyState` is a single value; code that shares
/// one between threads holds it behind a lock.
pub struct KeyState {
    enabled: bool,
    /// Key colour packed as `0x00RRGGBB`.
    key_color: u32,
    tolerance: u32,
    softness: u32,
    luma_low: u32,
    luma_softness: u32,
    spill_suppress: bool,
    smoothing: u32,
}

/// `val` clamped to at most `max`.
pub open spec fn clamp_max(val: u32, max: u32) -> u32 {
    if val < max {
        val
    } else {
        max
    }
}

impl View for KeyState {
    type V = KeyParams;

    closed spec fn view(&self) -> KeyParams {
        KeyParams {
            enabled: self.enabled,
            key_color: rgb_of(self.key_color as int),
            tolerance: self.tolerance,
            softness: self.softness,
            luma_low: self.luma_low,
            luma_softness: self.luma_softness,
            spill_suppress: self.spill_suppress,
            smoothing: self.smoothing,
        }
    }
}

fn clamp(val: u32, max: u32) -> (r: u32)
    ensures
        r == clamp_max(val, max),
{
    if val < max {
        val
    } else {
        max
    }
}

/// Whether two strings hold the same characters.
pub(crate) fn same_text(a: &str, b: &str) -> (eq: bool)
    ensures
        eq == (a@ == b@),
{
    let n: usize = a.unicode_len();
    if n != b.unicode_len() {
        return false;
    }
    let mut i: usize = 0;
    while i < n
        invariant
            n == a@.len(),
            n == b@.len(),
            i <= n,
            forall|j: int| 0 <= j < i ==> a@[j] == b@[j],
        decreases n - i,
    {
        if a.get_char(i) != b.get_char(i) {
            return false;
        }
        i = i + 1;
    }
    assert(a@ =~= b@);
    true
}

/// Clamping keeps a value up to the bound and replaces a larger one by the bound.
pub proof fn lemma_clamp_max(val: u32, max: u32)
    ensures
        val <= max ==> clamp_max(val, max) == val,
        val > max ==> clamp_max(val, max) == max,
{
}

/// The parameters after the control named `param` was set to `v`:
/// "tolerance", "softness", "luma-low", "luma-softness" and "smoothing" set
/// that value (clamped); "color-green" and "color-blue" pick `#00B140` and
/// `#0033CC`; "spill" turns suppression on when `v > 0`; any other name
/// changes nothing.
pub open spec fn after_param(p: KeyParams, param: Seq<char>, v: u32) -> KeyParams {
    if param == "tolerance"@ {
        KeyParams { tolerance: clamp_max(v, MAX_TOLERANCE), ..p }
    } else if param == "softness"@ {
        KeyParams { softness: clamp_max(v, MAX_PERCENT), ..p }
    } else if param == "luma-low"@ {
        KeyParams { luma_low: clamp_max(v, MAX_LUMA_LOW), ..p }
    } else if param == "color-green"@ {
        KeyParams { key_color: (0x00u8, 0xB1u8, 0x40u8), ..p }
    } else if param == "color-blue"@ {
        KeyParams { key_color: (0x00u8, 0x33u8, 0xCCu8), ..p }
    } else if param == "luma-softness"@ {
        KeyParams { luma_softness: clamp_max(v, MAX_PERCENT), ..p }
    } else if param == "spill"@ {
        KeyParams { spill_suppress: v > 0, ..p }
    } else if param == "smoothing"@ {
        KeyParams { smoothing: clamp_max(v, MAX_PERCENT), ..p }
    } else {
        p
    }
}

impl KeyState {
    #[verifier::type_invariant]
    spec fn in_range(self) -> bool {
        &&& self.tolerance <= MAX_TOLERANCE
        &&& self.softness <= MAX_PERCENT
        &&& self.luma_low <= MAX_LUMA_LOW
        &&& self.luma_softness <= MAX_PERCENT
        &&& self.smoothing <= MAX_PERCENT
    }

    /// Default parameters: key off, TV green `#00B140`, tolerance 80,
    /// softness 30, luma low 16, luma softness 10, spill suppression on,
    /// no smoothing.
    pub fn new() -> (s: Self)
        ensures
            s@ == (KeyParams {
                enabled: false,
                key_color: (0x00u8, 0xB1u8, 0x40u8),
                tolerance: 80,
                softness: 30,
                luma_low: 16,
                luma_softness: 10,
                spill_suppress: true,
                smoothing: 0,
            }),
    {
        let packed: u32 = pack_rgb(0x00, 0xB1, 0x40);
        proof {
            lemma_unpack_pack(0x00, 0xB1, 0x40);
        }
        KeyState {
            enabled: false,
            key_color: packed,
            tolerance: 80,
            softness: 30,
            luma_low: 16,
            luma_softness: 10,
            spill_suppress: true,
            smoothing: 0,
        }
    }

    /// Whether the key is on.
    pub fn is_enabled(&self) -> (b: bool)
        ensures
            b == self@.enabled,
    {
        self.enabled
    }

    /// The key colour as `(r, g, b)`.
    pub fn key_color(&self) -> (c: (u8, u8, u8))
        ensures
            c == self@.key_color,
    {
        unpack_rgb(self.key_color)
    }

    /// Colour distance tolerance, at most 200.
    pub fn tolerance(&self) -> (v: u32)
        ensures
            v == self@.tolerance,
            v <= MAX_TOLERANCE,
    {
        proof {
            use_type_invariant(self);
        }
        self.tolerance
    }

    /// Edge softness, at most 100.
    pub fn softness(&self) -> (v: u32)
        ensures
            v == self@.softness,
            v <= MAX_PERCENT,
    {
        proof {
            use_type_invariant(self);
        }
        self.softness
    }

    /// Luma low threshold, at most 255.
    pub fn luma_low(&self) -> (v: u32)
        ensures
            v == self@.luma_low,
            v <= MAX_LUMA_LOW,
    {
        proof {
            use_type_invariant(self);
        }
        self.luma_low
    }

    /// Luma softness, at most 100.
    pub fn luma_softness(&self) -> (v: u32)
        ensures
            v == self@.luma_softness,
            v <= MAX_PERCENT,
    {
        proof {
            use_type_invariant(self);
        }
        self.luma_softness
    }

    /// Whether spill suppression is on.
    pub fn spill_suppress(&self) -> (b: bool)
        ensures
            b == self@.spill_suppress,
    {
        self.spill_suppress
    }

    /// Temporal smoothing, at most 100.
    pub fn smoothing(&self) -> (v: u32)
        ensures
            v == self@.smoothing,
            v <= MAX_PERCENT,
    {
        proof {
            use_type_invariant(self);
        }
        self.smoothing
    }

    /// Turns the key on or off.
    pub fn set_enabled(&mut self, enabled: bool)
        ensures
            final(self)@ == (KeyParams { enabled, ..old(self)@ }),
    {
        proof {
            use_type_invariant(&*self);
        }
        self.enabled = enabled;
    }

    /// Sets the key colour.
    pub fn set_key_color(&mut self, r: u8, g: u8, b: u8)
        ensures
            final(self)@ == (KeyParams { key_color: (r, g, b), ..old(self)@ }),
    {
        proof {
            use_type_invariant(&*self);
        }
        proof {
            lemma_unpack_pack(r, g, b);
        }
        self.key_color = pack_rgb(r, g, b);
    }

    /// Sets the tolerance, clamped to 200.
    pub fn set_tolerance(&mut self, val: u32)
        ensures
            final(self)@ == (KeyParams { tolerance: clamp_max(val, MAX_TOLERANCE), ..old(self)@ }),
    {
        proof {
            use_type_invariant(&*self);
        }
        self.tolerance = clamp(val, MAX_TOLERANCE);
    }

    /// Sets the edge softness, clamped to 100.
    pub fn set_softness(&mut self, val: u32)
        ensures
            final(self)@ == (KeyParams { softness: clamp_max(val, MAX_PERCENT), ..old(self)@ }),
    {
        proof {
            use_type_invariant(&*self);
        }
        self.softness = clamp(val, MAX_PERCENT);
    }

    /// Sets the luma low threshold, clamped to 255.
    pub fn set_luma_low(&mut self, val: u32)
        ensures
            final(self)@ == (KeyParams { luma_low: clamp_max(val, MAX_LUMA_LOW), ..old(self)@ }),
    {
        proof {
            use_type_invariant(&*self);
        }
        self.luma_low = clamp(val, MAX_LUMA_LOW);
    }

    /// Sets the luma softness, clamped to 100.
    pub fn set_luma_softness(&mut self, val: u32)
        ensures
            final(self)@ == (KeyParams { luma_softness: clamp_max(val, MAX_PERCENT), ..old(self)@ }),
    {
        proof {
            use_type_invariant(&*self);
        }
        self.luma_softness = clamp(val, MAX_PERCENT);
    }

    /// Turns spill suppression on or off.
    pub fn set_spill_suppress(&mut self, enabled: bool)
        ensures
            final(self)@ == (KeyParams { spill_suppress: enabled, ..old(self)@ }),
    {
        proof {
            use_type_invariant(&*self);
        }
        self.spill_suppress = enabled;
    }

    /// Sets the temporal smoothing, clamped to 100.
    pub fn set_smoothing(&mut self, val: u32)
        ensures
            final(self)@ == (KeyParams { smoothing: clamp_max(val, MAX_PERCENT), ..old(self)@ }),
    {
        proof {
            use_type_invariant(&*self);
        }
        self.smoothing = clamp(val, MAX_PERCENT);
    }

    /// Applies a key control of the user interface by name, see [`after_param`].
    pub fn set_param(&mut self, param: &str, v: u32)
        ensures
            final(self)@ == after_param(old(self)@, param@, v),
    {
        if same_text(param, "tolerance") {
            self.set_tolerance(v);
        } else if same_text(param, "softness") {
            self.set_softness(v);
        } else if same_text(param, "luma-low") {
            self.set_luma_low(v);
        } else if same_text(param, "color-green") {
            self.set_key_color(0x00, 0xB1, 0x40);
        } else if same_text(param, "color-blue") {
            self.set_key_color(0x00, 0x33, 0xCC);
        } else if same_text(param, "luma-softness") {
            self.set_luma_softness(v);
        } else if same_text(param, "spill") {
            self.set_spill_suppress(v > 0);
        } else if same_text(param, "smoothing") {
            self.set_smoothing(v);
        }
    }
}

} // verus!
