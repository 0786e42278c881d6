//! Which outputs (NDI, DeckLink) receive the composited frames.
use vstd::prelude::*;

verus! {

/// Output switches; both start off. An `OutputState` is a single value; code
/// that shares one between threads holds it behind a lock.
pub struct OutputState {
    pub ndi_enabled: bool,
    pub decklink_enabled: bool,
}

impl OutputState {
    /// Both outputs off.
    pub fn new() -> (s: Self)
        ensures
            s.ndi_enabled == false,
            s.decklink_enabled == false,
    {
        OutputState { ndi_enabled: false, decklink_enabled: false }
    }

    /// Turns the NDI output on or off.
    pub fn set_ndi(&mut self, enabled: bool)
        ensures
            final(self).ndi_enabled == enabled,
            final(self).decklink_enabled == old(self).decklink_enabled,
    {
        self.ndi_enabled = enabled;
    }

    /// Turns the DeckLink output on or off.
    pub fn set_decklink(&mut self, enabled: bool)
        ensures
            final(self).decklink_enabled == enabled,
            final(self).ndi_enabled == old(self).ndi_enabled,
    {
        self.decklink_enabled = enabled;
    }

    /// Whether the NDI output is on.
    pub fn is_ndi_enabled(&self) -> (b: bool)
        ensures
            b == self.ndi_enabled,
    {
        self.ndi_enabled
    }

    /// Whether the DeckLink output is on.
    pub fn is_decklink_enabled(&self) -> (b: bool)
        ensures
            b == self.decklink_enabled,
    {
        self.decklink_enabled
    }
}

} // verus!
