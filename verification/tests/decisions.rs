use lumina_tv::outputs::{bgra_row_bytes, decklink_input_bytes, decklink_output_bytes};
use lumina_tv::capture::{camera_mode_score_fits, resample_needed};
use lumina_tv::capture::{
    camera_mode_upgrade, display_capture_size, retry_backoff_ms, scale_target, select_camera_mode,
    window_capture_size, CameraMode,
};
use lumina_tv::compositor::{combine_layer, composite_layers, is_clear_frame, plan_layer, plan_tick, HistoryAction};
use lumina_tv::config::{ConfigManager, KeyParamsConfig, LayerConfig, LAST_SESSION_PRESET};
use lumina_tv::sources::{
    contains_text, decimal_string, describe_display, describe_window, describe_window_with_lowercase_owner,
    is_listable_window, window_name,
};

fn mode(width: u32, height: u32, fps: u32) -> CameraMode {
    CameraMode { width, height, fps }
}

#[test]
fn scale_target_decisions() {
    assert_eq!(scale_target(1280, 720, 1920, 1080), Some((1920, 1080)));
    assert_eq!(scale_target(1920, 1080, 1920, 1080), None);
    assert_eq!(scale_target(1280, 720, 0, 1080), None);
    assert_eq!(scale_target(1280, 720, 1920, 0), None);
    assert_eq!(scale_target(1920, 720, 1920, 1080), Some((1920, 1080)));
}

#[test]
fn capture_sizes() {
    assert_eq!(display_capture_size(1280, 720, 2560, 1600), (1280, 720));
    assert_eq!(display_capture_size(0, 0, 2560, 1600), (2560, 1600));
    assert_eq!(display_capture_size(1280, 0, 2560, 1600), (2560, 1600));
    assert_eq!(window_capture_size(0, 0, 801, 601), (802, 602));
    assert_eq!(window_capture_size(1281, 721, 801, 601), (1282, 722));
    assert_eq!(window_capture_size(0, 5, 800, 600), (800, 600));
}

#[test]
fn camera_mode_prefers_full_hd() {
    let modes = [mode(3840, 2160, 30), mode(1920, 1080, 30), mode(1280, 720, 60)];
    // 3840*2160*30 = 248_832_000; 1920*1080*30*10 = 622_080_000; 1280*720*60*5 = 276_480_000
    assert_eq!(select_camera_mode(&modes), Some(1));
}

#[test]
fn camera_mode_skips_slow_modes_and_keeps_first_of_equals() {
    let modes = [mode(640, 480, 10), mode(640, 480, 30), mode(480, 640, 30)];
    assert_eq!(select_camera_mode(&modes), Some(1));
    assert_eq!(select_camera_mode(&[mode(1920, 1080, 14)]), None);
    assert_eq!(select_camera_mode(&[mode(0, 1080, 60)]), None);
    assert_eq!(select_camera_mode(&[]), None);
}

#[test]
fn camera_upgrade_only_when_size_changes() {
    let modes = [mode(640, 480, 30), mode(1280, 720, 30)];
    assert_eq!(camera_mode_upgrade(&modes, 640, 480), Some(1));
    assert_eq!(camera_mode_upgrade(&modes, 1280, 720), None);
    assert_eq!(camera_mode_upgrade(&[mode(640, 480, 5)], 320, 240), None);
}

#[test]
fn retry_backoff_doubles_then_stays() {
    let seq: Vec<u64> = (0..9).map(retry_backoff_ms).collect();
    assert_eq!(seq, vec![10, 20, 40, 80, 160, 320, 500, 500, 500]);
    assert_eq!(retry_backoff_ms(u64::MAX), 500);
    for e in 0..10u64 {
        assert_eq!(retry_backoff_ms(e), std::cmp::min(10u64 << e.min(6), 500));
    }
}

#[test]
fn decimal_strings() {
    assert_eq!(decimal_string(0), "0");
    assert_eq!(decimal_string(7), "7");
    assert_eq!(decimal_string(10), "10");
    assert_eq!(decimal_string(1920), "1920");
    assert_eq!(decimal_string(u64::MAX), u64::MAX.to_string());
}

#[test]
fn display_names() {
    let d = describe_display(0, 5, 2560, 1440);
    assert_eq!(d.name, "Main Display (2560x1440)");
    assert_eq!((d.id, d.width, d.height), (5, 2560, 1440));
    let d = describe_display(1, 9, 1920, 1080);
    assert_eq!(d.name, "Display 2 (1920x1080)");
}

#[test]
fn window_names_and_filter() {
    assert_eq!(window_name("Safari", ""), "Safari");
    assert_eq!(window_name("Safari", "Docs"), "Safari \u{2013} Docs");
    assert!(is_listable_window("Safari", 0, true, 100, 100));
    assert!(!is_listable_window("", 0, true, 800, 600));
    assert!(!is_listable_window("Safari", 3, true, 800, 600));
    assert!(!is_listable_window("Safari", 0, false, 800, 600));
    assert!(!is_listable_window("Safari", 0, true, 99, 600));
    assert!(!is_listable_window("Safari", 0, true, 800, 99));
    let w = describe_window(42, "Keynote".to_string(), "Talk".to_string(), 0, true, 800, 600).unwrap();
    assert_eq!(w.name, "Keynote \u{2013} Talk");
    assert_eq!((w.id, w.owner.as_str(), w.width, w.height), (42, "Keynote", 800, 600));
    assert!(describe_window(1, "Keynote".to_string(), String::new(), 0, true, 800, 600).is_some());
    assert!(describe_window(1, "Tiny".to_string(), String::new(), 0, true, 50, 600).is_none());
}

#[test]
fn untitled_powerpoint_windows_are_dropped() {
    // the owner's name is compared in lowercase
    assert!(describe_window(3, "Microsoft PowerPoint".to_string(), String::new(), 0, true, 800, 600).is_none());
    let titled = describe_window(3, "Microsoft PowerPoint".to_string(), "Deck".to_string(), 0, true, 800, 600);
    assert_eq!(titled.unwrap().name, "Microsoft PowerPoint \u{2013} Deck");
    assert!(describe_window(3, "Power Point".to_string(), String::new(), 0, true, 800, 600).is_some());
}

#[test]
fn compositor_layer_plans() {
    assert!(is_clear_frame(0, 0));
    assert!(!is_clear_frame(0, 1));
    let p = plan_layer(0, true, true, 4, 2, None, 4, 2);
    assert!(p.key && p.replace_canvas && p.scale_to.is_none());
    assert!(matches!(p.history, HistoryAction::Reset(8)));
    let p = plan_layer(2, true, true, 4, 2, Some(8), 8, 2);
    assert!(matches!(p.history, HistoryAction::Keep));
    assert_eq!(p.scale_to, Some((8, 2)));
    assert!(!p.replace_canvas);
    assert!(matches!(plan_layer(2, true, true, 4, 2, Some(7), 4, 2).history, HistoryAction::Reset(8)));
    assert!(matches!(plan_layer(1, true, false, 4, 2, Some(8), 4, 2).history, HistoryAction::Discard));
    assert!(matches!(plan_layer(1, true, false, 4, 2, None, 4, 2).history, HistoryAction::Keep));
}

#[test]
fn compositor_tick_plans() {
    assert!(plan_tick(0, 1080, true, true).is_none());
    assert!(plan_tick(1920, 0, true, true).is_none());
    let t = plan_tick(1920, 1080, true, false).unwrap();
    assert_eq!(t.canvas_len, 1920 * 1080 * 4);
    assert!(t.send_ndi && !t.send_decklink);
    assert_eq!(t.preview, Some((960, 540)));
    assert_eq!(plan_tick(1, 1080, false, false).unwrap().preview, None);
}

#[test]
fn compositor_combines_layers() {
    let mut canvas = vec![0u8; 8];
    combine_layer(&mut canvas, 0, vec![10, 20, 30, 255, 40, 50, 60, 255], 2, 1);
    assert_eq!(canvas, vec![10, 20, 30, 255, 40, 50, 60, 255]);
    combine_layer(&mut canvas, 3, vec![1, 1, 1, 0, 200, 200, 200, 255], 2, 1);
    assert_eq!(canvas, vec![10, 20, 30, 255, 200, 200, 200, 255]);
}

#[test]
fn config_defaults() {
    let k = KeyParamsConfig::default();
    assert_eq!(k.color_u32, 0x00B140);
    assert_eq!((k.tolerance, k.softness, k.luma_low, k.luma_softness, k.smoothing), (80, 50, 8, 10, 10));
    assert!(k.spill);
    let l = LayerConfig::default();
    assert!(l.source_type.is_empty() && l.source_name.is_empty());
    assert!(l.input_device_id.is_none());
    assert!(!l.key_enabled);
    assert_eq!(l.key_params.softness, 50);
}

#[test]
fn preset_file_names() {
    assert_eq!(ConfigManager::preset_file_name(LAST_SESSION_PRESET), "last_session.json");
    assert_eq!(ConfigManager::preset_name_of_file("last_session.json"), Some("last_session".to_string()));
    assert_eq!(ConfigManager::preset_name_of_file("a.json"), Some("a".to_string()));
    assert_eq!(ConfigManager::preset_name_of_file("..json"), Some(".".to_string()));
    assert_eq!(ConfigManager::preset_name_of_file(".json"), None);
    assert_eq!(ConfigManager::preset_name_of_file("show.JSON"), None);
    assert_eq!(ConfigManager::preset_name_of_file("show.json.bak"), None);
    assert_eq!(ConfigManager::preset_name_of_file("notes"), None);
    let name = "Évènement";
    let f = ConfigManager::preset_file_name(name);
    assert_eq!(ConfigManager::preset_name_of_file(&f), Some(name.to_string()));
}

#[test]
fn decklink_frame_sizes() {
    assert_eq!(decklink_output_bytes(1920, 1080, 1920 * 1080 * 4), Some(1920 * 1080 * 4));
    assert_eq!(decklink_output_bytes(1920, 1080, 1920 * 1080 * 4 - 1), None);
    assert_eq!(decklink_output_bytes(1280, 720, 1920 * 1080 * 4), None);
    assert_eq!(bgra_row_bytes(1920), 7680);
    assert_eq!(decklink_input_bytes(1920, 1080, 7680), Some(7680 * 1080));
    assert_eq!(decklink_input_bytes(0, 1080, 7680), None);
    assert_eq!(decklink_input_bytes(1920, 0, 7680), None);
}

#[test]
fn resample_decisions() {
    assert!(!resample_needed(1920, 1080, 0, 540));
    assert!(!resample_needed(1920, 1080, 960, 0));
    assert!(!resample_needed(1920, 1080, 1920, 1080));
    assert!(resample_needed(1920, 1080, 960, 540));
    assert!(resample_needed(1920, 1080, 1920, 540));
}

#[test]
fn camera_mode_score_overflow_check() {
    assert!(camera_mode_score_fits(mode(640, 480, 30)));
    assert!(camera_mode_score_fits(mode(100_000, 100_000, 14)));
    assert!(!camera_mode_score_fits(mode(100_000, 100_000, 30)));
    assert!(!camera_mode_score_fits(mode(1920, 1080, 300)));
    assert!(camera_mode_score_fits(mode(1920, 1081, 300)));
    assert!(!camera_mode_score_fits(mode(1280, 720, 1000)));
}

#[test]
fn global_key_switch_gates_layer_key() {
    let p = plan_layer(1, false, true, 4, 2, Some(8), 4, 2);
    assert!(!p.key);
    assert!(matches!(p.history, HistoryAction::Discard));
    assert!(plan_layer(1, true, true, 4, 2, Some(8), 4, 2).key);
}

#[test]
fn layers_are_stacked_bottom_to_top() {
    let frames = vec![
        Some(vec![10, 20, 30, 255, 40, 50, 60, 255]),
        None,
        Some(vec![1, 1, 1, 0, 200, 200, 200, 255]),
        Some(vec![0, 0, 0, 0, 0, 255, 0, 128]),
        None,
    ];
    let out = composite_layers(8, frames, 2, 1);
    // pixel 1: 200 blended under alpha 128 with 0 / 255 / 0
    // (0*128 + 200*127)/255 = 99, (255*128 + 200*127)/255 = 227
    assert_eq!(out, vec![10, 20, 30, 255, 99, 227, 99, 255]);
    // no frames: the black canvas
    assert_eq!(composite_layers(8, vec![None, None, None, None, None], 2, 1), vec![0; 8]);
    // a fully transparent upper layer adds nothing
    let with = composite_layers(4, vec![Some(vec![5, 6, 7, 255]), Some(vec![9, 9, 9, 0])], 1, 1);
    let without = composite_layers(4, vec![Some(vec![5, 6, 7, 255]), None], 1, 1);
    assert_eq!(with, without);
    // an upper layer on a canvas without a base frame is blended onto black
    assert_eq!(composite_layers(4, vec![None, Some(vec![100, 100, 100, 255])], 1, 1), vec![100, 100, 100, 255]);
}

#[test]
fn text_search() {
    assert!(contains_text("microsoft powerpoint", "powerpoint"));
    assert!(contains_text("powerpoint", "powerpoint"));
    assert!(!contains_text("power point", "powerpoint"));
    assert!(!contains_text("ppt", "powerpoint"));
    assert!(contains_text("abc", ""));
    assert!(contains_text("", ""));
    assert!(contains_text("aab", "ab"));
}

#[test]
fn window_filter_on_lowercased_owner() {
    assert!(describe_window_with_lowercase_owner(1, "X".to_string(), "my powerpoint", String::new(), 0, true, 800, 600).is_none());
    assert!(describe_window_with_lowercase_owner(1, "X".to_string(), "my powerpoint", "T".to_string(), 0, true, 800, 600).is_some());
    let w = describe_window_with_lowercase_owner(1, "X".to_string(), "keynote", String::new(), 0, true, 800, 600).unwrap();
    assert_eq!(w.name, "X");
}
