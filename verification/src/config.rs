//! Saved session presets: the configuration values and the naming of the
//! preset files (`<name>.json` in the configuration directory).
use vstd::prelude::*;
use crate::color::rgb_of;

verus! {

/// Output resolution of a preset.
#[derive(Debug, Clone)]
pub struct ResolutionConfig {
    pub width: u32,
    pub height: u32,
    pub label: String,
}

/// Key parameters of a layer.
#[derive(Debug, Clone, Copy)]
pub struct KeyParamsConfig {
    /// Key colour as `0x00RRGGBB`.
    pub color_u32: u32,
    pub tolerance: u32,
    pub softness: u32,
    pub luma_low: u32,
    pub luma_softness: u32,
    pub spill: bool,
    pub smoothing: u32,
}

impl Default for KeyParamsConfig {
    /// TV green `#00B140`, tolerance 80, softness 50, luma low 8, luma
    /// softness 10, spill suppression on, smoothing 10.
    fn default() -> (k: Self)
        ensures
            k.color_u32 == 0x00B140,
            rgb_of(k.color_u32 as int) == (0x00u8, 0xB1u8, 0x40u8),
            k.tolerance == 80,
            k.softness == 50,
            k.luma_low == 8,
            k.luma_softness == 10,
            k.spill == true,
            k.smoothing == 10,
    {
        KeyParamsConfig {
            color_u32: 0x00B140,
            tolerance: 80,
            softness: 50,
            luma_low: 8,
            luma_softness: 10,
            spill: true,
            smoothing: 10,
        }
    }
}

/// One layer of a preset.
#[derive(Debug, Clone)]
pub struct LayerConfig {
    /// "Camera", "Screen", "Presentation", "DeckLink" or "None".
    pub source_type: String,
    /// Display name or identifier of the source.
    pub source_name: String,
    pub input_device_id: Option<String>,
    pub key_enabled: bool,
    pub key_params: KeyParamsConfig,
}

impl Default for LayerConfig {
    /// Empty source type and name, no device, key off, default key parameters.
    fn default() -> (l: Self)
        ensures
            l.source_type@ == Seq::<char>::empty(),
            l.source_name@ == Seq::<char>::empty(),
            l.input_device_id is None,
            l.key_enabled == false,
            l.key_params.color_u32 == 0x00B140,
            l.key_params.tolerance == 80,
            l.key_params.softness == 50,
            l.key_params.luma_low == 8,
            l.key_params.luma_softness == 10,
            l.key_params.spill == true,
            l.key_params.smoothing == 10,
    {
        LayerConfig {
            source_type: String::new(),
            source_name: String::new(),
            input_device_id: None,
            key_enabled: false,
            key_params: KeyParamsConfig::default(),
        }
    }
}

/// A saved session.
#[derive(Debug, Clone)]
pub struct AppConfig {
    pub resolution: ResolutionConfig,
    pub layers: Vec<LayerConfig>,
    pub decklink_monitor_enabled: bool,
    pub ndi_output_enabled: bool,
    pub decklink_output_enabled: bool,
    pub virtual_display_enabled: bool,
}

/// Name of the preset that holds the last session.
pub const LAST_SESSION_PRESET: &'static str = "last_session";

/// Naming of the preset files.
pub struct ConfigManager;

/// File name of preset `name`.
pub open spec fn preset_file(name: Seq<char>) -> Seq<char> {
    name + ".json"@
}

/// The preset named by a file name: the part before ".json" when the file
/// name ends with ".json" and that part is not empty (a file named just
/// ".json" has no extension).
pub open spec fn preset_of_file(file_name: Seq<char>) -> Option<Seq<char>> {
    if file_name.len() > 5 && file_name.subrange(file_name.len() - 5, file_name.len() as int) == ".json"@ {
        Some(file_name.subrange(0, file_name.len() - 5))
    } else {
        None
    }
}

/// The file of a preset with a non-empty name is recognised as that preset.
pub proof fn lemma_preset_file_round_trip(name: Seq<char>)
    requires
        name.len() > 0,
    ensures
        preset_of_file(preset_file(name)) == Some(name),
{
    reveal_strlit(".json");
    let f = preset_file(name);
    assert(f.subrange(f.len() - 5, f.len() as int) =~= ".json"@);
    assert(f.subrange(0, f.len() - 5) =~= name);
}

impl ConfigManager {
    /// File name of preset `name`: `<name>.json`.
    pub fn preset_file_name(name: &str) -> (f: String)
        ensures
            f@ == preset_file(name@),
    {
        let mut f = String::from_str(name);
        f.append(".json");
        f
    }

    /// The preset a file of the configuration directory holds, if any: the
    /// file's stem when its extension is "json".
    pub fn preset_name_of_file(file_name: &str) -> (p: Option<String>)
        ensures
            p is Some <==> preset_of_file(file_name@) is Some,
            p matches Some(s) ==> Some(s@) == preset_of_file(file_name@),
    {
        proof {
            reveal_strlit(".json");
        }
        let n: usize = file_name.unicode_len();
        if n <= 5 {
            return None;
        }
        let b: usize = n - 5;
        let suffix_ok = file_name.get_char(b) == '.' && file_name.get_char(b + 1) == 'j' && file_name.get_char(b + 2)
            == 's' && file_name.get_char(b + 3) == 'o' && file_name.get_char(b + 4) == 'n';
        if suffix_ok {
            assert(file_name@.subrange(b as int, n as int) =~= ".json"@);
            Some(String::from_str(file_name.substring_char(0, b)))
        } else {
            assert(file_name@.subrange(b as int, n as int)[0] == file_name@[b as int]);
            assert(file_name@.subrange(b as int, n as int)[1] == file_name@[b + 1]);
            assert(file_name@.subrange(b as int, n as int)[2] == file_name@[b + 2]);
            assert(file_name@.subrange(b as int, n as int)[3] == file_name@[b + 3]);
            assert(file_name@.subrange(b as int, n as int)[4] == file_name@[b + 4]);
            None
        }
    }
}

} // verus!
