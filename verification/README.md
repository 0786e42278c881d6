# lumina_tv

A live video compositor for broadcast output: up to five layers (screen,
window or camera sources) are keyed, rescaled and alpha-blended into one
frame, which goes to the SDI card and to a half-size preview. The compositor
also decides when a frame goes to NDI, and `app/` has a sink for it, but the
NDI SDK bindings are not part of this repository, so no NDI sender is attached
and NDI sources are not received.

## Layout

- `src/` — the verified library (Verus). Every function carries a contract:
  - `color`: `0x00RRGGBB` packing of key colours;
  - `key_state`: hybrid key parameters, clamped to their ranges;
  - `shared`: stop signals, resolution presets and the packed input/output
    resolutions;
  - `output_state`: the NDI/DeckLink output switches;
  - `blender`: BGRA alpha blending;
  - `hybrid_key`: planning a key pass, writing the matte, smoothing history and
    green-spill suppression;
  - `pixel_buffer`: removing row padding from captured frames, BGRA→RGBA;
  - `capture`: capture sizes, rescale decisions, camera mode choice and retry
    back-off;
  - `sources`: naming and filtering of capturable displays and windows, and
    text search;
  - `compositor`: the per-tick and per-layer plan, and stacking the layers;
  - `outputs`: frame sizes exchanged with the SDI card;
  - `config`: preset values and preset file names;
  - `layers`: which source feeds each layer.
- `app/` — the program around it: the compositor loop (tokio), capture
  backends (ScreenCaptureKit; nokhwa for cameras; AVFoundation only for the
  camera permission and device list), the SDI card's COM
  interfaces, vImage rescaling, the floating-point key matte and preset files
  (serde, dirs).
- `tests/` — tests of the library on concrete frames and values.
