//! Source selection of the compositor layers.
use vstd::prelude::*;
use crate::key_state::same_text;

verus! {

/// What feeds one layer: the kind of source chosen for it ("None",
/// "Screen", "Window", "Camera", "NDI", "Presentation"), the name shown for
/// the running source, and whether a source is running.
pub struct LayerSlot {
    pub source_type: String,
    pub source_name: String,
    pub active: bool,
}

impl LayerSlot {
    /// An empty layer: type "None", name "No Source", nothing running.
    pub fn new() -> (l: Self)
        ensures
            l.source_type@ == "None"@,
            l.source_name@ == "No Source"@,
            !l.active,
    {
        LayerSlot { source_type: String::from_str("None"), source_name: String::from_str("No Source"), active: false }
    }

    /// Stops the layer's source: nothing runs any more and the name goes back
    /// to "No Source"; the source type stays. Tells whether a source was
    /// running (its stop signal is then given).
    pub fn stop(&mut self) -> (was_active: bool)
        ensures
            was_active == old(self).active,
            !final(self).active,
            final(self).source_name@ == "No Source"@,
            final(self).source_type@ == old(self).source_type@,
    {
        let was_active = self.active;
        self.active = false;
        self.source_name = String::from_str("No Source");
        was_active
    }

    /// Records that a source named `name` now runs on the layer.
    pub fn start(&mut self, name: String)
        ensures
            final(self).active,
            final(self).source_name@ == name@,
            final(self).source_type@ == old(self).source_type@,
    {
        self.active = true;
        self.source_name = name;
    }
}

/// Whether each layer has a running source, in layer order.
pub fn active_flags(layers: &[LayerSlot]) -> (flags: Vec<bool>)
    ensures
        flags@.len() == layers@.len(),
        forall|i: int| 0 <= i < layers@.len() ==> #[trigger] flags@[i] == layers@[i].active,
{
    let mut flags: Vec<bool> = Vec::new();
    let mut i: usize = 0;
    while i < layers.len()
        invariant
            i <= layers@.len(),
            flags@.len() == i,
            forall|j: int| 0 <= j < i ==> #[trigger] flags@[j] == layers@[j].active,
        decreases layers@.len() - i,
    {
        flags.push(layers[i].active);
        i = i + 1;
    }
    flags
}

/// The layers set to "Presentation" that have no running source yet, in
/// layer order: they start as soon as a slide show window appears.
pub fn layers_awaiting_presentation(layers: &[LayerSlot]) -> (idx: Vec<usize>)
    ensures
        forall|k: int| 0 <= k < idx@.len() ==> #[trigger] idx@[k] < layers@.len(),
        forall|k: int|
            0 <= k < idx@.len() ==> layers@[#[trigger] idx@[k] as int].source_type@ == "Presentation"@
                && !layers@[idx@[k] as int].active,
        forall|i: int|
            0 <= i < layers@.len() && layers@[i].source_type@ == "Presentation"@ && !layers@[i].active
                ==> #[trigger] idx@.contains(i as usize),
        forall|a: int, b: int| 0 <= a < b < idx@.len() ==> idx@[a] < idx@[b],
{
    let mut idx: Vec<usize> = Vec::new();
    let mut i: usize = 0;
    while i < layers.len()
        invariant
            i <= layers@.len(),
            forall|k: int| 0 <= k < idx@.len() ==> #[trigger] idx@[k] < i,
            forall|k: int|
                0 <= k < idx@.len() ==> layers@[#[trigger] idx@[k] as int].source_type@ == "Presentation"@
                    && !layers@[idx@[k] as int].active,
            forall|j: int|
                0 <= j < i && layers@[j].source_type@ == "Presentation"@ && !layers@[j].active
                    ==> #[trigger] idx@.contains(j as usize),
            forall|a: int, b: int| 0 <= a < b < idx@.len() ==> idx@[a] < idx@[b],
        decreases layers@.len() - i,
    {
        if same_text(layers[i].source_type.as_str(), "Presentation") && !layers[i].active {
            let ghost before = idx@;
            idx.push(i);
            proof {
                assert(idx@[before.len() as int] == i);
                assert forall|j: int|
                    0 <= j < i + 1 && layers@[j].source_type@ == "Presentation"@ && !layers@[j].active
                        implies #[trigger] idx@.contains(j as usize) by {
                    if j < i {
                        assert(before.contains(j as usize));
                        let w = choose|w: int| 0 <= w < before.len() && before[w] == j as usize;
                        assert(idx@[w] == j as usize);
                    } else {
                        assert(idx@[before.len() as int] == j as usize);
                    }
                }
            }
        } else {
            proof {
                assert forall|j: int|
                    0 <= j < i + 1 && layers@[j].source_type@ == "Presentation"@ && !layers@[j].active
                        implies #[trigger] idx@.contains(j as usize) by {
                    if j == i {
                        assert(false);
                    }
                }
            }
        }
        i = i + 1;
    }
    idx
}

} // verus!
