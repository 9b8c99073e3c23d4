//! The immediate-mode interaction context: which widget the pointer hovers
//! (`hot`) and which one it holds (`active`), re-derived every frame.

use vstd::prelude::*;

use crate::geometry::{inside_rect, spec_inside_rect, Point};

verus! {

/// Identity of a widget; `0` names no widget.
pub type UiId = i32;

/// The identity that names no widget.
pub const NO_WIDGET: UiId = 0;

/// Hover and engagement state shared by all widgets of a frame.
#[derive(Clone, Copy, Debug, PartialEq, Eq, Structural)]
pub struct UIContext {
    pub hot: UiId,
    pub active: UiId,
    pub next_hot: UiId,
}

/// How a widget is drawn this frame.
#[derive(Clone, Copy, Debug, PartialEq, Eq, Structural)]
pub enum WidgetLook {
    Pressed,
    Hovered,
    Neutral,
}

/// The context after resolving widget `id`, and whether that resolution
/// completed a click.
pub open spec fn spec_resolve(
    ctx: UIContext,
    id: UiId,
    inside: bool,
    pressed: bool,
    released: bool,
) -> (UIContext, bool) {
    let active = if ctx.active == id {
        if released {
            NO_WIDGET
        } else {
            id
        }
    } else if ctx.hot == id && pressed {
        id
    } else {
        ctx.active
    };
    let next_hot = if inside {
        id
    } else {
        ctx.next_hot
    };
    let clicked = ctx.active == id && released && ctx.hot == id && inside;
    (UIContext { hot: ctx.hot, active, next_hot }, clicked)
}

/// The context at the start of a frame: unless a widget is engaged, the
/// candidate of the last frame becomes hot; the candidate is cleared.
pub open spec fn spec_frame_init(ctx: UIContext) -> UIContext {
    UIContext {
        hot: if ctx.active == NO_WIDGET {
            ctx.next_hot
        } else {
            ctx.hot
        },
        active: ctx.active,
        next_hot: NO_WIDGET,
    }
}

/// A press on the hot widget engages it; releasing an engaged widget that
/// is still hot completes a click exactly when the pointer is still inside
/// it, and disengages it either way.
pub proof fn lemma_press_then_release(ctx: UIContext, id: UiId, inside: bool)
    ensures
        ctx.hot == id && ctx.active != id ==> spec_resolve(ctx, id, inside, true, false).0.active
            == id,
        ctx.hot == id && ctx.active == id ==> spec_resolve(ctx, id, inside, false, true).1
            == inside,
        ctx.active == id ==> spec_resolve(ctx, id, inside, false, true).0.active == NO_WIDGET,
{
}

impl UIContext {
    /// A context in which no widget is hot or active.
    pub fn new() -> (r: UIContext)
        ensures
            r == (UIContext { hot: NO_WIDGET, active: NO_WIDGET, next_hot: NO_WIDGET }),
    {
        UIContext { hot: NO_WIDGET, active: NO_WIDGET, next_hot: NO_WIDGET }
    }

    /// Disengages whatever widget was active.
    pub fn set_not_active(&mut self)
        ensures
            *final(self) == (UIContext { active: NO_WIDGET, ..*old(self) }),
    {
        self.active = NO_WIDGET;
    }

    /// Engages widget `id`.
    pub fn set_active(&mut self, id: UiId)
        ensures
            *final(self) == (UIContext { active: id, ..*old(self) }),
    {
        self.active = id;
    }

    /// Makes widget `id` the candidate to be hot next frame.
    pub fn set_next_hot(&mut self, id: UiId)
        ensures
            *final(self) == (UIContext { next_hot: id, ..*old(self) }),
    {
        self.next_hot = id;
    }

    /// Makes no widget hot.
    pub fn set_not_hot(&mut self)
        ensures
            *final(self) == (UIContext { hot: NO_WIDGET, ..*old(self) }),
    {
        self.hot = NO_WIDGET;
    }

    /// Starts a frame: unless a widget is engaged, the candidate of the last
    /// frame becomes hot; the candidate is cleared in any case.
    pub fn frame_init(&mut self)
        ensures
            *final(self) == spec_frame_init(*old(self)),
    {
        if self.active == NO_WIDGET {
            self.hot = self.next_hot;
        }
        self.next_hot = NO_WIDGET;
    }

    /// Resolves widget `id` for this frame, given whether the pointer is
    /// inside it and whether the button went down or up this frame. An
    /// engaged widget is released on button up, which is a click when it is
    /// still hot and the pointer is still inside; a hot widget is engaged on
    /// button down; a widget under the pointer is next frame's candidate.
    /// Returns whether a click was completed.
    pub fn resolve_widget(&mut self, id: UiId, inside: bool, pressed: bool, released: bool) -> (r:
        bool)
        ensures
            (*final(self), r) == spec_resolve(*old(self), id, inside, pressed, released),
            final(self).active == old(self).active || final(self).active == id
                || final(self).active == NO_WIDGET,
    {
        let mut result = false;
        if self.active == id {
            if released {
                result = self.hot == id && inside;
                self.set_not_active();
            }
        } else if self.hot == id {
            if pressed {
                self.set_active(id);
            }
        }
        if inside {
            self.set_next_hot(id);
        }
        result
    }

    /// How widget `id` looks: pressed while it is engaged and the button is
    /// held, hovered while it is hot, neutral otherwise.
    pub fn look(&self, id: UiId, held: bool) -> (r: WidgetLook)
        ensures
            r == if self.active == id && held {
                WidgetLook::Pressed
            } else if self.hot == id {
                WidgetLook::Hovered
            } else {
                WidgetLook::Neutral
            },
    {
        if self.active == id && held {
            WidgetLook::Pressed
        } else if self.hot == id {
            WidgetLook::Hovered
        } else {
            WidgetLook::Neutral
        }
    }
}

/// Placement and caption of a push button.
#[derive(Clone, Debug)]
pub struct ButtonSpec {
    pub x: i32,
    pub y: i32,
    pub w: i32,
    pub h: i32,
    pub text: String,
}

/// Resolves the button `spec` with identity `id` for this frame, with the
/// pointer at `mouse_pos`; returns whether it was clicked.
pub fn do_button(
    context: &mut UIContext,
    spec: &ButtonSpec,
    id: UiId,
    mouse_pos: Point,
    left_mouse_pressed: bool,
    left_mouse_released: bool,
) -> (r: bool)
    ensures
        (*final(context), r) == spec_resolve(
            *old(context),
            id,
            spec_inside_rect(mouse_pos, spec.x as int, spec.y as int, spec.w as int, spec.h as int),
            left_mouse_pressed,
            left_mouse_released,
        ),
{
    let inside = inside_rect(mouse_pos, spec.x, spec.y, spec.w, spec.h);
    context.resolve_widget(id, inside, left_mouse_pressed, left_mouse_released)
}

} // verus!
