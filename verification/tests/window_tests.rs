//! Window geometry, styles, paint decisions and the startup controls.

use quest_passer::window::{
    apply_hidden_ex_style, apply_shown_ex_style, centered_label_x, padded_text_width,
    label_placement, paint_decision, progress_bar_plan, startup_labels, to_wstring, window_plan,
    BACKGROUND_COLOR,
    EX_STYLE_APP_WINDOW, EX_STYLE_LAYERED, EX_STYLE_TOOL_WINDOW, EX_STYLE_TRANSPARENT, TEXT_COLOR,
    WINDOW_HEIGHT, WINDOW_WIDTH,
};

#[test]
fn fixed_window_geometry() {
    assert_eq!(WINDOW_WIDTH, 400);
    assert_eq!(WINDOW_HEIGHT, 300);
}

#[test]
fn shown_style_sets_app_window_and_clears_tray_marks() {
    let s = apply_shown_ex_style(EX_STYLE_TOOL_WINDOW | EX_STYLE_TRANSPARENT | EX_STYLE_LAYERED);
    assert_ne!(s & EX_STYLE_APP_WINDOW, 0);
    assert_eq!(s & (EX_STYLE_TOOL_WINDOW | EX_STYLE_TRANSPARENT | EX_STYLE_LAYERED), 0);
}

#[test]
fn hidden_style_sets_tray_marks_and_clears_app_window() {
    let s = apply_hidden_ex_style(EX_STYLE_APP_WINDOW | 0x1);
    assert_eq!(s & EX_STYLE_APP_WINDOW, 0);
    assert_ne!(s & EX_STYLE_TOOL_WINDOW, 0);
    assert_ne!(s & EX_STYLE_TRANSPARENT, 0);
    assert_ne!(s & EX_STYLE_LAYERED, 0);
    assert_ne!(s & 0x1, 0);
}

#[test]
fn style_transitions_are_idempotent() {
    let start = 0x1234_5678u32;
    let once = apply_shown_ex_style(start);
    assert_eq!(apply_shown_ex_style(once), once);
    let once = apply_hidden_ex_style(start);
    assert_eq!(apply_hidden_ex_style(once), once);
}

#[test]
fn duration_label_paints_opaque_others_transparent() {
    let d = paint_decision(true);
    assert!(d.opaque);
    assert_eq!(d.background_color, BACKGROUND_COLOR);
    assert_eq!(d.text_color, TEXT_COLOR);
    let d = paint_decision(false);
    assert!(!d.opaque);
    assert_eq!(d.text_color, TEXT_COLOR);
}

#[test]
fn measured_width_gets_padding_with_fallback() {
    assert_eq!(padded_text_width(Some(180)), 200);
    assert_eq!(padded_text_width(None), 200);
    assert_eq!(padded_text_width(Some(0)), 20);
}

#[test]
fn labels_center_in_the_window() {
    assert_eq!(centered_label_x(100), 150);
    assert_eq!(centered_label_x(400), 0);
    assert_eq!(centered_label_x(0), 200);
}

#[test]
fn label_placement_adds_both_paddings_then_centers() {
    assert_eq!(label_placement(Some(100)), (160, 120));
    assert_eq!(label_placement(None), (240, 80));
    assert_eq!(label_placement(Some(440)), (500, -50));
}

#[test]
fn oversized_labels_center_negatively() {
    assert_eq!(centered_label_x(500), -50);
    assert_eq!(centered_label_x(401), 0);
    assert_eq!(centered_label_x(403), -1);
}

#[test]
fn main_window_uses_fixed_class_size_and_background() {
    let w = window_plan(&"Star Quest".to_string());
    assert_eq!(w.class_name, "QuestPasser");
    assert_eq!(w.title, "Star Quest");
    assert_eq!((w.width, w.height), (400, 300));
    assert_eq!(w.background, 0x001E1E2E);
}

#[test]
fn startup_labels_follow_the_fixed_plan() {
    let m = startup_labels(&"Star Quest".to_string());
    assert_eq!(m.len(), 4);
    assert!(m.iter().all(|l| l.font_name == "Segoe UI"));
    assert_eq!(m[0].text, "Star Quest");
    assert_eq!((m[0].y, m[0].height, m[0].font_size, m[0].bold), (50, 40, 24, true));
    assert_eq!(m[1].text, "Quest Passer");
    assert_eq!((m[1].y, m[1].height, m[1].font_size, m[1].bold), (20, 30, 16, true));
    assert_eq!(m[2].text, "Active Game Session");
    assert_eq!((m[2].y, m[2].height, m[2].font_size, m[2].bold), (90, 25, 18, false));
    assert_eq!(m[3].text, "Running: 00:00:00");
    assert_eq!((m[3].y, m[3].height, m[3].font_size, m[3].bold), (200, 30, 20, false));
}

#[test]
fn wide_string_is_utf16_with_terminator() {
    assert_eq!(to_wstring("Hi"), vec![0x48u16, 0x69, 0]);
    assert_eq!(to_wstring(""), vec![0u16]);
}

#[test]
fn wide_string_encodes_surrogate_pairs() {
    let expected: Vec<u16> = "\u{1F600}".encode_utf16().chain([0u16]).collect();
    assert_eq!(to_wstring("\u{1F600}"), expected);
    assert_eq!(to_wstring("\u{1F600}"), vec![0xD83Du16, 0xDE00, 0]);
}

#[test]
fn progress_bar_spans_the_window_above_the_duration() {
    let p = progress_bar_plan();
    assert_eq!((p.x, p.y, p.width, p.height), (20, 235, 360, 6));
    assert_eq!(p.range_max, 900);
}
