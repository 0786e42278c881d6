//! State shared between the user interface, the capture sources and the
//! compositor: stop signals, source identifiers and the input/output
//! resolutions.
//!
//! Each resolution is kept as one packed `u64` (width in the high 32 bits,
//! height in the low 32 bits) so that a width and a height are always read
//! together.
use vstd::prelude::*;

verus! {

/// Identifies which source feeds a layer.
#[derive(Debug, Clone)]
pub enum SourceId {
    Camera(usize),
    Screen(u32),
    Window(u32),
    Ndi(String),
}

/// Stop signal of a capture source. Once stopped it stays stopped.
pub struct StopSignal {
    stopped: bool,
}

impl View for StopSignal {
    type V = bool;

    closed spec fn view(&self) -> bool {
        self.stopped
    }
}

impl StopSignal {
    /// A signal that has not been given.
    pub fn new() -> (s: Self)
        ensures
            s@ == false,
    {
        StopSignal { stopped: false }
    }

    /// Gives the signal.
    pub fn stop(&mut self)
        ensures
            final(self)@ == true,
    {
        self.stopped = true;
    }

    /// Whether the signal was given.
    pub fn is_stopped(&self) -> (b: bool)
        ensures
            b == self@,
    {
        self.stopped
    }
}

/// A resolution preset.
#[derive(Debug, Clone, Copy)]
pub struct Resolution {
    pub width: u32,
    pub height: u32,
    pub label: &'static str,
}

/// Number of resolution presets.
pub const RESOLUTION_PRESET_COUNT: usize = 6;

/// Width and height of preset `idx`; the last preset, "Native", is 0 x 0.
pub open spec fn preset_size(idx: int) -> (u32, u32) {
    if idx == 0 {
        (3840u32, 2160u32)
    } else if idx == 1 {
        (2560u32, 1440u32)
    } else if idx == 2 {
        (1920u32, 1080u32)
    } else if idx == 3 {
        (1280u32, 720u32)
    } else if idx == 4 {
        (640u32, 480u32)
    } else {
        (0u32, 0u32)
    }
}

/// Label of preset `idx`.
pub open spec fn preset_label(idx: int) -> Seq<char> {
    if idx == 0 {
        "4K UHD"@
    } else if idx == 1 {
        "QHD"@
    } else if idx == 2 {
        "Full HD"@
    } else if idx == 3 {
        "HD"@
    } else if idx == 4 {
        "SD"@
    } else {
        "Native"@
    }
}

/// The resolution preset at index `idx`, from largest to smallest, then
/// "Native"; `None` past the last one.
pub fn resolution_preset(idx: usize) -> (r: Option<Resolution>)
    ensures
        r is Some <==> idx < RESOLUTION_PRESET_COUNT,
        r matches Some(p) ==> (p.width, p.height) == preset_size(idx as int),
        r matches Some(p) ==> p.label@ == preset_label(idx as int),
{
    if idx == 0 {
        Some(Resolution { width: 3840, height: 2160, label: "4K UHD" })
    } else if idx == 1 {
        Some(Resolution { width: 2560, height: 1440, label: "QHD" })
    } else if idx == 2 {
        Some(Resolution { width: 1920, height: 1080, label: "Full HD" })
    } else if idx == 3 {
        Some(Resolution { width: 1280, height: 720, label: "HD" })
    } else if idx == 4 {
        Some(Resolution { width: 640, height: 480, label: "SD" })
    } else if idx == 5 {
        Some(Resolution { width: 0, height: 0, label: "Native" })
    } else {
        None
    }
}

/// All resolution presets, in index order.
pub fn resolution_presets() -> (v: Vec<Resolution>)
    ensures
        v@.len() == RESOLUTION_PRESET_COUNT,
        forall|i: int|
            0 <= i < v@.len() ==> (#[trigger] v@[i].width, v@[i].height) == preset_size(i) && v@[i].label@
                == preset_label(i),
{
    let mut v: Vec<Resolution> = Vec::new();
    let mut i: usize = 0;
    while i < RESOLUTION_PRESET_COUNT
        invariant
            i <= RESOLUTION_PRESET_COUNT,
            v@.len() == i,
            forall|j: int|
                0 <= j < i ==> (#[trigger] v@[j].width, v@[j].height) == preset_size(j) && v@[j].label@
                    == preset_label(j),
        decreases RESOLUTION_PRESET_COUNT - i,
    {
        match resolution_preset(i) {
            Some(p) => v.push(p),
            None => {},
        }
        i = i + 1;
    }
    v
}

/// The packed value of a width and a height.
pub open spec fn packed_resolution(w: u32, h: u32) -> int {
    w * 0x1_0000_0000 + h
}

/// The width and height held by a packed value.
pub open spec fn resolution_of(packed: u64) -> (u32, u32) {
    ((packed / 0x1_0000_0000) as u32, (packed % 0x1_0000_0000) as u32)
}

/// Packs a width and a height: width in the high 32 bits, height in the low 32.
pub fn pack_resolution(w: u32, h: u32) -> (p: u64)
    ensures
        p == packed_resolution(w, h),
{
    let ww: u64 = w as u64;
    let hh: u64 = h as u64;
    assert((ww << 32u64) | hh == ww * 0x1_0000_0000 + hh) by (bit_vector)
        requires
            ww < 0x1_0000_0000,
            hh < 0x1_0000_0000,
    ;
    (ww << 32u64) | hh
}

/// The width (high 32 bits) and height (low 32 bits) of a packed value.
pub fn unpack_resolution(packed: u64) -> (wh: (u32, u32))
    ensures
        wh == resolution_of(packed),
{
    assert((packed >> 32u64) == packed / 0x1_0000_0000) by (bit_vector);
    assert((packed as u32) == packed % 0x1_0000_0000) by (bit_vector);
    ((packed >> 32u64) as u32, packed as u32)
}

/// Unpacking a packed resolution gives the width and height back.
pub proof fn lemma_resolution_round_trip(w: u32, h: u32)
    ensures
        packed_resolution(w, h) <= u64::MAX,
        resolution_of(packed_resolution(w, h) as u64) == (w, h),
{
    let p: int = packed_resolution(w, h);
    assert(p <= u64::MAX) by (nonlinear_arith)
        requires p == w * 0x1_0000_0000 + h, w <= u32::MAX, h <= u32::MAX;
    assert(p / 0x1_0000_0000 == w as int) by (nonlinear_arith)
        requires p == w * 0x1_0000_0000 + h, h < 0x1_0000_0000, w >= 0, h >= 0;
    assert(p % 0x1_0000_0000 == h as int) by (nonlinear_arith)
        requires p == w * 0x1_0000_0000 + h, h < 0x1_0000_0000, w >= 0, h >= 0;
}

/// The abstract value of a [`ResolutionState`]: input and output sizes.
pub struct Resolutions {
    pub input: (u32, u32),
    pub output: (u32, u32),
}

/// Input (capture) and output (compositing) resolutions, each kept packed.
/// A `ResolutionState` is a single value; code that shares one between
/// threads holds it behind a lock.
pub struct ResolutionState {
    input: u64,
    output: u64,
}

impl View for ResolutionState {
    type V = Resolutions;

    closed spec fn view(&self) -> Resolutions {
        Resolutions { input: resolution_of(self.input), output: resolution_of(self.output) }
    }
}

impl ResolutionState {
    /// Both resolutions start at 1920 x 1080.
    pub fn new() -> (s: Self)
        ensures
            s@ == (Resolutions { input: (1920u32, 1080u32), output: (1920u32, 1080u32) }),
    {
        proof {
            lemma_resolution_round_trip(1920, 1080);
        }
        ResolutionState { input: pack_resolution(1920, 1080), output: pack_resolution(1920, 1080) }
    }

    /// Sets the input resolution.
    pub fn set_input(&mut self, w: u32, h: u32)
        ensures
            final(self)@ == (Resolutions { input: (w, h), ..old(self)@ }),
    {
        proof {
            lemma_resolution_round_trip(w, h);
        }
        self.input = pack_resolution(w, h);
    }

    /// Sets the output resolution.
    pub fn set_output(&mut self, w: u32, h: u32)
        ensures
            final(self)@ == (Resolutions { output: (w, h), ..old(self)@ }),
    {
        proof {
            lemma_resolution_round_trip(w, h);
        }
        self.output = pack_resolution(w, h);
    }

    /// The input resolution `(width, height)`.
    pub fn input(&self) -> (wh: (u32, u32))
        ensures
            wh == self@.input,
    {
        unpack_resolution(self.input)
    }

    /// The output resolution `(width, height)`.
    pub fn output(&self) -> (wh: (u32, u32))
        ensures
            wh == self@.output,
    {
        unpack_resolution(self.output)
    }
}

} // verus!
