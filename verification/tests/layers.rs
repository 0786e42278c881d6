use lumina_tv::layers::{active_flags, layers_awaiting_presentation, LayerSlot};

#[test]
fn new_layer_is_empty() {
    let l = LayerSlot::new();
    assert_eq!(l.source_type, "None");
    assert_eq!(l.source_name, "No Source");
    assert!(!l.active);
}

#[test]
fn stopping_a_layer_resets_its_name() {
    let mut l = LayerSlot::new();
    l.source_type = "Screen".to_string();
    l.start("Main Display (1920x1080)".to_string());
    assert!(l.active);
    assert_eq!(l.source_name, "Main Display (1920x1080)");
    assert!(l.stop());
    assert!(!l.active);
    assert_eq!(l.source_name, "No Source");
    assert_eq!(l.source_type, "Screen");
    assert!(!l.stop());
}

#[test]
fn presentation_layers_waiting_for_a_show() {
    let mut layers: Vec<LayerSlot> = (0..5).map(|_| LayerSlot::new()).collect();
    layers[1].source_type = "Presentation".to_string();
    layers[3].source_type = "Presentation".to_string();
    layers[3].start("Keynote".to_string());
    layers[4].source_type = "Presentation".to_string();
    layers[2].source_type = "presentation".to_string();
    assert_eq!(layers_awaiting_presentation(&layers), vec![1, 4]);
    assert_eq!(active_flags(&layers), vec![false, false, false, true, false]);
}
