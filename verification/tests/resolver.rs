use ori_font_awesome::style::{diff, resolve};
use ori_font_awesome::{Color, IconStyle, StyleContext};

fn black() -> Color {
    Color::rgba(0, 0, 0, 255)
}

fn red() -> Color {
    Color::rgba(255, 0, 0, 255)
}

#[test]
fn instance_override_beats_ambient_entry() {
    let ambient = StyleContext {
        icon_size: Some(20),
        icon_color: None,
        theme_contrast: black(),
    };
    let style = resolve(Some(30), None, &ambient);
    assert_eq!(style.size, 30);
}

#[test]
fn defaults_apply_when_nothing_is_set() {
    let style = resolve(None, None, &StyleContext::plain());
    assert_eq!(style, IconStyle { size: 16, color: black() });
}

#[test]
fn ambient_entry_beats_defaults() {
    let ambient = StyleContext {
        icon_size: Some(20),
        icon_color: Some(red()),
        theme_contrast: black(),
    };
    let style = resolve(None, None, &ambient);
    assert_eq!(style, IconStyle { size: 20, color: red() });
}

#[test]
fn theme_contrast_is_the_color_fallback() {
    let contrast = Color::rgba(10, 20, 30, 255);
    let ambient = StyleContext {
        icon_size: None,
        icon_color: None,
        theme_contrast: contrast,
    };
    let style = resolve(None, None, &ambient);
    assert_eq!(style.color, contrast);
    assert_eq!(style.size, 16);
}

#[test]
fn color_override_beats_ambient_and_theme() {
    let ambient = StyleContext {
        icon_size: None,
        icon_color: Some(red()),
        theme_contrast: black(),
    };
    let style = resolve(None, Some(Color::rgba(1, 2, 3, 255)), &ambient);
    assert_eq!(style.color, Color::rgba(1, 2, 3, 255));
}

#[test]
fn diff_classifies_recolor_as_paint_only() {
    let old = IconStyle { size: 16, color: black() };
    let new = IconStyle { size: 16, color: red() };
    let flags = diff(&old, &new);
    assert!(!flags.layout_dirty);
    assert!(flags.paint_dirty);
}

#[test]
fn diff_classifies_resize_as_layout_only() {
    let old = IconStyle { size: 16, color: black() };
    let new = IconStyle { size: 20, color: black() };
    let flags = diff(&old, &new);
    assert!(flags.layout_dirty);
    assert!(!flags.paint_dirty);
}

#[test]
fn diff_of_equal_styles_is_clean() {
    let style = IconStyle { size: 16, color: black() };
    let flags = diff(&style, &style.clone());
    assert!(!flags.layout_dirty);
    assert!(!flags.paint_dirty);
}
