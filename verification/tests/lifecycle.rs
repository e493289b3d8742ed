use ori_font_awesome::glyph::lookup;
use ori_font_awesome::space::center_offset;
use ori_font_awesome::{
    icon, Color, IconContext, IconFont, IconStyle, ShapeRequest, Size, Space, StyleContext,
};

fn black() -> Color {
    Color::rgba(0, 0, 0, 255)
}

#[test]
fn registration_gate_is_idempotent() {
    let mut ctx = IconContext::new();
    assert!(ctx.ensure_registered());
    assert!(!ctx.ensure_registered());
    assert!(!ctx.ensure_registered());
}

#[test]
fn layout_unconstrained_is_natural_square() {
    let code = lookup("bug").unwrap();
    let view = icon(code);
    let mut ctx = IconContext::new();
    let state = view.build(&StyleContext::plain(), &mut ctx);
    let size = view.layout(&state, &Space::unbounded());
    assert_eq!(size, Size { width: 16, height: 16 });
}

#[test]
fn layout_exact_constraint_wins() {
    let code = lookup("bug").unwrap();
    let view = icon(code);
    let mut ctx = IconContext::new();
    let state = view.build(&StyleContext::plain(), &mut ctx);
    let space = Space::exact(Size { width: 40, height: 40 });
    assert_eq!(view.layout(&state, &space), Size { width: 40, height: 40 });
}

#[test]
fn layout_clamps_between_bounds() {
    let code = lookup("bug").unwrap();
    let view = icon(code).with_size(16);
    let mut ctx = IconContext::new();
    let state = view.build(&StyleContext::plain(), &mut ctx);

    let floor = Space {
        min: Size { width: 40, height: 40 },
        max: Size { width: 100, height: 100 },
    };
    assert_eq!(view.layout(&state, &floor), Size { width: 40, height: 40 });

    let ceiling = Space {
        min: Size { width: 0, height: 0 },
        max: Size { width: 10, height: 10 },
    };
    assert_eq!(view.layout(&state, &ceiling), Size { width: 10, height: 10 });
}

#[test]
fn construct_then_update_end_to_end() {
    let code = lookup("bug").unwrap();
    assert_eq!(code.codepoint, '\u{f188}');
    assert_eq!(code.fonts, vec![IconFont::Regular, IconFont::Solid]);

    let ambient = StyleContext::plain();
    let mut ctx = IconContext::new();

    let view = icon(code.clone());
    let mut state = view.build(&ambient, &mut ctx);
    assert_eq!(state.style, IconStyle { size: 16, color: black() });
    assert_eq!(
        state.run.request,
        ShapeRequest {
            codepoint: '\u{f188}',
            family: IconFont::Regular,
            size: 16,
            color: black(),
        }
    );

    let solid_view = icon(code).with_solid(true);
    let flags = solid_view.rebuild(&mut state, &ambient, &view);
    assert!(!flags.layout_dirty);
    assert!(!flags.paint_dirty);
    assert_eq!(
        state.run.request,
        ShapeRequest {
            codepoint: '\u{f188}',
            family: IconFont::Solid,
            size: 16,
            color: black(),
        }
    );
    assert_eq!(state.style, IconStyle { size: 16, color: black() });
}

#[test]
fn update_with_new_size_marks_layout_and_reshapes() {
    let code = lookup("heart").unwrap();
    let ambient = StyleContext::plain();
    let mut ctx = IconContext::new();

    let view = icon(code.clone());
    let mut state = view.build(&ambient, &mut ctx);

    let bigger = icon(code).with_size(32);
    let flags = bigger.rebuild(&mut state, &ambient, &view);
    assert!(flags.layout_dirty);
    assert!(!flags.paint_dirty);
    assert_eq!(state.style.size, 32);
    assert_eq!(state.run.request.size, 32);
}

#[test]
fn update_with_unchanged_descriptor_reuses_run() {
    let code = lookup("heart").unwrap();
    let ambient = StyleContext::plain();
    let mut ctx = IconContext::new();

    let view = icon(code);
    let mut state = view.build(&ambient, &mut ctx);
    let before = state.run.request;
    let flags = view.clone().rebuild(&mut state, &ambient, &view);
    assert!(!flags.layout_dirty);
    assert!(!flags.paint_dirty);
    assert_eq!(state.run.request, before);
}

#[test]
fn events_pass_through_unhandled() {
    let code = lookup("bug").unwrap();
    let view = icon(code);
    let mut ctx = IconContext::new();
    let mut state = view.build(&StyleContext::plain(), &mut ctx);
    assert!(!view.event(&mut state));
}

#[test]
fn readding_an_instance_does_not_reregister() {
    let ambient = StyleContext::plain();
    let mut ctx = IconContext::new();

    let first = icon(lookup("bug").unwrap());
    let state = first.build(&ambient, &mut ctx);
    assert!(ctx.fonts_registered);
    drop(state);

    let second = icon(lookup("bug").unwrap());
    let state = second.build(&ambient, &mut ctx);
    assert_eq!(state.style, IconStyle { size: 16, color: black() });
    assert!(!ctx.ensure_registered());
}

#[test]
fn draw_origin_centers_the_run() {
    let code = lookup("bug").unwrap();
    let view = icon(code);
    let origin = view.draw_origin(
        &Size { width: 40, height: 40 },
        &Size { width: 16, height: 10 },
    );
    assert_eq!(origin, (12, 15));

    let overflow = view.draw_origin(
        &Size { width: 10, height: 10 },
        &Size { width: 16, height: 17 },
    );
    assert_eq!(overflow, (-3, -3));
}

#[test]
fn center_offset_exact_values() {
    assert_eq!(center_offset(40, 16), 12);
    assert_eq!(center_offset(16, 16), 0);
    assert_eq!(center_offset(10, 16), -3);
    assert_eq!(center_offset(0, 5), -2);
}
