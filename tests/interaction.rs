use palimpsest::ui::{do_button, WidgetLook, NO_WIDGET};
use palimpsest::{ButtonSpec, Point, UIContext};

fn button() -> ButtonSpec {
    ButtonSpec { x: 10, y: 4, w: 11, h: 3, text: "Run".to_string() }
}

#[test]
fn setters_touch_one_slot() {
    let mut ctx = UIContext::new();
    ctx.set_active(3);
    ctx.set_next_hot(4);
    ctx.hot = 5;
    assert_eq!(ctx, UIContext { hot: 5, active: 3, next_hot: 4 });
    ctx.set_not_active();
    assert_eq!(ctx, UIContext { hot: 5, active: NO_WIDGET, next_hot: 4 });
    ctx.set_not_hot();
    assert_eq!(ctx, UIContext { hot: NO_WIDGET, active: NO_WIDGET, next_hot: 4 });
}

#[test]
fn frame_init_promotes_candidate_when_idle() {
    let mut ctx = UIContext { hot: 1, active: 0, next_hot: 9 };
    ctx.frame_init();
    assert_eq!(ctx, UIContext { hot: 9, active: 0, next_hot: 0 });
}

#[test]
fn frame_init_keeps_hot_while_engaged() {
    let mut ctx = UIContext { hot: 1, active: 1, next_hot: 9 };
    ctx.frame_init();
    assert_eq!(ctx, UIContext { hot: 1, active: 1, next_hot: 0 });
}

#[test]
fn press_on_hot_widget_engages_it() {
    let mut ctx = UIContext { hot: 7, active: 0, next_hot: 0 };
    let clicked = ctx.resolve_widget(7, true, true, false);
    assert!(!clicked);
    assert_eq!(ctx.active, 7);
    assert_eq!(ctx.next_hot, 7);
}

#[test]
fn release_inside_completes_click() {
    let mut ctx = UIContext { hot: 7, active: 7, next_hot: 0 };
    assert!(ctx.resolve_widget(7, true, false, true));
    assert_eq!(ctx.active, NO_WIDGET);
}

#[test]
fn release_outside_is_no_click() {
    let mut ctx = UIContext { hot: 7, active: 7, next_hot: 3 };
    assert!(!ctx.resolve_widget(7, false, false, true));
    assert_eq!(ctx.active, NO_WIDGET);
    assert_eq!(ctx.next_hot, 3);
}

#[test]
fn press_on_other_widget_does_nothing() {
    let mut ctx = UIContext { hot: 2, active: 0, next_hot: 0 };
    assert!(!ctx.resolve_widget(7, false, true, false));
    assert_eq!(ctx, UIContext { hot: 2, active: 0, next_hot: 0 });
}

#[test]
fn full_click_over_two_frames() {
    let spec = button();
    let inside = Point::new(12, 5);
    let mut ctx = UIContext::new();
    ctx.frame_init();
    assert!(!do_button(&mut ctx, &spec, 40, inside, false, false));
    ctx.frame_init();
    assert_eq!(ctx.hot, 40);
    assert!(!do_button(&mut ctx, &spec, 40, inside, true, false));
    assert_eq!(ctx.active, 40);
    ctx.frame_init();
    assert!(do_button(&mut ctx, &spec, 40, inside, false, true));
    assert_eq!(ctx.active, NO_WIDGET);
}

#[test]
fn click_abandoned_by_moving_away() {
    let spec = button();
    let mut ctx = UIContext { hot: 40, active: 40, next_hot: 0 };
    assert!(!do_button(&mut ctx, &spec, 40, Point::new(0, 0), false, true));
    assert_eq!(ctx.active, NO_WIDGET);
}

#[test]
fn looks_follow_hot_and_active() {
    let ctx = UIContext { hot: 4, active: 4, next_hot: 0 };
    assert_eq!(ctx.look(4, true), WidgetLook::Pressed);
    assert_eq!(ctx.look(4, false), WidgetLook::Hovered);
    assert_eq!(ctx.look(5, true), WidgetLook::Neutral);
}
