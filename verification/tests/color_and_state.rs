use lumina_tv::color::{pack_rgb, unpack_rgb};
use lumina_tv::key_state::KeyState;
use lumina_tv::output_state::OutputState;
use lumina_tv::shared::{resolution_preset, resolution_presets, ResolutionState, SourceId, StopSignal};

#[test]
fn pack_rgb_tv_green() {
    assert_eq!(pack_rgb(0x00, 0xB1, 0x40), 0x00B140);
    assert_eq!(pack_rgb(0xFF, 0xFF, 0xFF), 0xFF_FFFF);
    assert_eq!(pack_rgb(0x12, 0x34, 0x56), 0x123456);
}

#[test]
fn unpack_rgb_round_trip() {
    for &(r, g, b) in &[(0u8, 0u8, 0u8), (255, 0, 0), (0, 255, 0), (0, 0, 255), (0x12, 0x34, 0x56), (255, 255, 255)] {
        assert_eq!(unpack_rgb(pack_rgb(r, g, b)), (r, g, b));
    }
}

#[test]
fn unpack_rgb_ignores_high_byte() {
    assert_eq!(unpack_rgb(0xFF12_3456), (0x12, 0x34, 0x56));
}

#[test]
fn key_state_defaults() {
    let k = KeyState::new();
    assert!(!k.is_enabled());
    assert_eq!(k.key_color(), (0x00, 0xB1, 0x40));
    assert_eq!(k.tolerance(), 80);
    assert_eq!(k.softness(), 30);
    assert_eq!(k.luma_low(), 16);
    assert_eq!(k.luma_softness(), 10);
    assert!(k.spill_suppress());
    assert_eq!(k.smoothing(), 0);
}

#[test]
fn key_state_setters_clamp() {
    let mut k = KeyState::new();
    k.set_tolerance(300);
    assert_eq!(k.tolerance(), 200);
    k.set_tolerance(150);
    assert_eq!(k.tolerance(), 150);
    k.set_softness(101);
    assert_eq!(k.softness(), 100);
    k.set_luma_low(1000);
    assert_eq!(k.luma_low(), 255);
    k.set_luma_low(255);
    assert_eq!(k.luma_low(), 255);
    k.set_luma_softness(u32::MAX);
    assert_eq!(k.luma_softness(), 100);
    k.set_smoothing(42);
    assert_eq!(k.smoothing(), 42);
    k.set_smoothing(100);
    assert_eq!(k.smoothing(), 100);
}

#[test]
fn key_state_setter_leaves_others() {
    let mut k = KeyState::new();
    k.set_key_color(0x00, 0x33, 0xCC);
    assert_eq!(k.key_color(), (0x00, 0x33, 0xCC));
    assert_eq!(k.tolerance(), 80);
    k.set_enabled(true);
    k.set_spill_suppress(false);
    assert!(k.is_enabled());
    assert!(!k.spill_suppress());
    assert_eq!(k.key_color(), (0x00, 0x33, 0xCC));
}

#[test]
fn stop_signal_stays_stopped() {
    let mut s = StopSignal::new();
    assert!(!s.is_stopped());
    s.stop();
    assert!(s.is_stopped());
    s.stop();
    assert!(s.is_stopped());
}

#[test]
fn resolution_state_round_trip() {
    let mut r = ResolutionState::new();
    assert_eq!(r.input(), (1920, 1080));
    assert_eq!(r.output(), (1920, 1080));
    r.set_input(3840, 2160);
    assert_eq!(r.input(), (3840, 2160));
    assert_eq!(r.output(), (1920, 1080));
    r.set_output(u32::MAX, 0);
    assert_eq!(r.output(), (u32::MAX, 0));
    r.set_output(0, u32::MAX);
    assert_eq!(r.output(), (0, u32::MAX));
    assert_eq!(r.input(), (3840, 2160));
}

#[test]
fn resolution_preset_table() {
    let p = resolution_preset(0).unwrap();
    assert_eq!((p.width, p.height, p.label), (3840, 2160, "4K UHD"));
    let p = resolution_preset(2).unwrap();
    assert_eq!((p.width, p.height, p.label), (1920, 1080, "Full HD"));
    let p = resolution_preset(5).unwrap();
    assert_eq!((p.width, p.height, p.label), (0, 0, "Native"));
    assert!(resolution_preset(6).is_none());
    let all = resolution_presets();
    assert_eq!(all.len(), 6);
    assert_eq!((all[3].width, all[3].height, all[3].label), (1280, 720, "HD"));
    assert_eq!((all[4].width, all[4].height, all[4].label), (640, 480, "SD"));
    assert_eq!(all[1].label, "QHD");
}

#[test]
fn output_state_switches() {
    let mut o = OutputState::new();
    assert!(!o.is_ndi_enabled());
    assert!(!o.is_decklink_enabled());
    o.set_ndi(true);
    assert!(o.is_ndi_enabled());
    assert!(!o.is_decklink_enabled());
    o.set_decklink(true);
    o.set_ndi(false);
    assert!(!o.is_ndi_enabled());
    assert!(o.is_decklink_enabled());
}

#[test]
fn source_id_variants() {
    let s = SourceId::Ndi("Studio A".to_string());
    match s.clone() {
        SourceId::Ndi(n) => assert_eq!(n, "Studio A"),
        _ => panic!("wrong variant"),
    }
    assert!(matches!(SourceId::Camera(2), SourceId::Camera(2)));
    assert!(matches!(SourceId::Screen(7), SourceId::Screen(7)));
    assert!(matches!(SourceId::Window(9), SourceId::Window(9)));
}

#[test]
fn key_params_by_control_name() {
    let mut k = KeyState::new();
    k.set_param("tolerance", 500);
    assert_eq!(k.tolerance(), 200);
    k.set_param("softness", 40);
    assert_eq!(k.softness(), 40);
    k.set_param("luma-low", 300);
    assert_eq!(k.luma_low(), 255);
    k.set_param("luma-softness", 7);
    assert_eq!(k.luma_softness(), 7);
    k.set_param("smoothing", 250);
    assert_eq!(k.smoothing(), 100);
    k.set_param("color-blue", 0);
    assert_eq!(k.key_color(), (0x00, 0x33, 0xCC));
    k.set_param("color-green", 0);
    assert_eq!(k.key_color(), (0x00, 0xB1, 0x40));
    k.set_param("spill", 0);
    assert!(!k.spill_suppress());
    k.set_param("spill", 1);
    assert!(k.spill_suppress());
    k.set_param("Tolerance", 5);
    k.set_param("unknown", 5);
    assert_eq!(k.tolerance(), 200);
    assert_eq!(k.softness(), 40);
}
