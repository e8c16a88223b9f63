//! The controller's state as a mathematical value, and what each operation
//! makes of it.
//!
//! `ScrollView` is the view of a `Scroll`. The functions here say, over that
//! value, what the executable operations compute; the proof functions state
//! what holds of them together.
use vstd::prelude::*;
use crate::axis::clamp_origin;
use crate::axis::drag_target;
use crate::axis::has_bar;
use crate::axis::jump_target;
use crate::axis::pan_delta;
use crate::axis::thumb_length;
use crate::axis::thumb_offset;
use crate::axis::EXTENT_LIMIT;
use crate::axis::SCROLLBAR_MIN_SIZE;
use crate::geometry::Padding;
use crate::geometry::Point;
use crate::geometry::Rect;
use crate::geometry::Size;
use crate::geometry::Vec2;
use crate::style::ScrollBarStyle;
use crate::style::StyleOverrides;

verus! {

/// Which scrollbar, if any, is being dragged. A drag remembers the pointer's
/// coordinate along the bar when it began and the viewport's origin then.
#[derive(Clone, Copy, Debug, PartialEq, Eq, Structural)]
pub enum DragState {
    /// Neither scrollbar is being dragged.
    Idle,
    /// The vertical thumb is being dragged; `anchor` is the pointer's y.
    DraggingVertical { anchor: i64, origin: Point },
    /// The horizontal thumb is being dragged; `anchor` is the pointer's x.
    DraggingHorizontal { anchor: i64, origin: Point },
}

/// A pointer or wheel event, with positions in the controller's own frame.
#[derive(Clone, Copy, Debug, PartialEq, Eq, Structural)]
pub enum Event {
    PointerDown { pos: Point, primary: bool },
    PointerUp,
    PointerMove { pos: Point },
    PointerWheel { delta: Vec2 },
    /// Any event the controller has no part in.
    Other,
}

/// A one-shot instruction from outside.
#[derive(Clone, Copy, Debug, PartialEq, Eq, Structural)]
pub enum ScrollCommand {
    /// Pan the least distance that brings the rectangle into view.
    EnsureVisible(Rect),
    /// Move the viewport by the vector.
    ScrollDelta(Vec2),
    /// Move the viewport's origin to the point.
    ScrollTo(Point),
    /// Hide or show the scrollbars.
    SetHidden(bool),
    /// Let ancestors see wheel events too, or not.
    SetPropagateWheel(bool),
    /// Treat purely vertical wheel travel as horizontal, or not.
    SetAxisSwap(bool),
}

/// What the controller answers to a pointer event before the content sees it.
#[derive(Clone, Copy, Debug, PartialEq, Eq, Structural)]
pub struct PointerResponse {
    /// The event is the controller's: it goes no further.
    pub consumed: bool,
    /// The controller asks to become the active input target.
    pub active: bool,
    /// The new viewport, where the event moved it.
    pub scrolled: Option<Rect>,
}

/// What the controller answers to an event that the content left unhandled.
#[derive(Clone, Copy, Debug, PartialEq, Eq, Structural)]
pub struct WheelResponse {
    /// The event is fully handled: ancestors do not see it.
    pub handled: bool,
    /// The new viewport, where the event moved it.
    pub scrolled: Option<Rect>,
}

/// What a layout pass changed.
#[derive(Clone, Copy, Debug, PartialEq, Eq, Structural)]
pub struct SizeResponse {
    /// The content's size differs from the last pass: lay out again.
    pub content_resized: bool,
    /// The new viewport, where the pass changed it.
    pub scrolled: Option<Rect>,
}

/// The thumbs as they are to be drawn, in the controller's own frame.
#[derive(Clone, Copy, Debug, PartialEq, Eq, Structural)]
pub struct BarShapes {
    pub vertical: Option<Rect>,
    pub horizontal: Option<Rect>,
    /// The thumbs get an edge stroke: the style's edge width is positive.
    pub stroked: bool,
}

/// What a paint pass is to do: clip to `clip`, draw the content shifted by
/// `offset`, then draw the thumbs.
#[derive(Clone, Copy, Debug, PartialEq, Eq, Structural)]
pub struct PaintPlan {
    pub clip: Rect,
    pub offset: Vec2,
    pub bars: BarShapes,
}

/// One event as the controller meets it: the event, whether the content
/// handled it when offered, and whether a registered wheel listener did.
pub struct Delivery {
    pub event: Event,
    pub content_handled: bool,
    pub listener_handled: bool,
}

/// The state of a scroll controller.
pub struct ScrollView {
    /// The assigned box, padding included.
    pub size: Size,
    /// The box less its padding: what the viewport may fill.
    pub actual_rect: Rect,
    /// The measured size of the content.
    pub child_size: Size,
    /// The window onto the content, in content coordinates.
    pub child_viewport: Rect,
    pub held: DragState,
    pub propagate_pointer_wheel: bool,
    pub vertical_scroll_as_horizontal: bool,
    pub scroll_bar_style: ScrollBarStyle,
}

/// The box of the given size less the padding, taken off as given: padding
/// that exceeds the box leaves an inverted rectangle.
pub open spec fn padded_rect(size: Size, padding: Padding) -> Rect {
    Rect::at(
        padding.left as int,
        padding.top as int,
        size.width - padding.right,
        size.height - padding.bottom,
    )
}

/// The viewport of the size of `actual_rect` whose origin is the valid origin
/// nearest to `(x, y)`.
pub open spec fn clamped_viewport(x: int, y: int, content: Size, actual_rect: Rect) -> Rect {
    let x0 = clamp_origin(x, content.width as int, actual_rect.width());
    let y0 = clamp_origin(y, content.height as int, actual_rect.height());
    Rect::at(x0, y0, x0 + actual_rect.width(), y0 + actual_rect.height())
}

/// The notice owed to whoever listens for scrolling: the new viewport if it
/// differs from the old one.
pub open spec fn scroll_notice(before: Rect, after: Rect) -> Option<Rect> {
    if after != before {
        Some(after)
    } else {
        None
    }
}

/// A rectangle of content coordinates in the frame of a viewport whose origin
/// is `origin`.
pub open spec fn in_frame(bounds: Rect, origin: Point) -> Rect {
    Rect::at(
        bounds.x0 - origin.x,
        bounds.y0 - origin.y,
        bounds.x1 - origin.x,
        bounds.y1 - origin.y,
    )
}

/// The wheel travel as applied: with axis swap on, purely vertical travel
/// becomes horizontal.
pub open spec fn wheel_travel(delta: Vec2, swap: bool) -> Vec2 {
    if swap && delta.x == 0 && delta.y != 0 {
        Vec2 { x: delta.y, y: delta.x }
    } else {
        delta
    }
}

impl ScrollView {
    /// The state is well formed: the padded box's extents are within the
    /// extent limit, and the viewport has its size and a clamped origin.
    pub open spec fn wf(self) -> bool {
        &&& -EXTENT_LIMIT <= self.actual_rect.width() <= EXTENT_LIMIT
        &&& -EXTENT_LIMIT <= self.actual_rect.height() <= EXTENT_LIMIT
        &&& self.child_viewport == clamped_viewport(
            self.child_viewport.x0 as int,
            self.child_viewport.y0 as int,
            self.child_size,
            self.actual_rect,
        )
    }

    /// The state of a new controller with the given style.
    pub open spec fn initial(style: ScrollBarStyle) -> ScrollView {
        ScrollView {
            size: Size { width: 0, height: 0 },
            actual_rect: Rect { x0: 0, y0: 0, x1: 0, y1: 0 },
            child_size: Size { width: 0, height: 0 },
            child_viewport: Rect { x0: 0, y0: 0, x1: 0, y1: 0 },
            held: DragState::Idle,
            propagate_pointer_wheel: false,
            vertical_scroll_as_horizontal: false,
            scroll_bar_style: style,
        }
    }

    /// The state with the viewport moved to the valid origin nearest `(x, y)`.
    pub open spec fn clamp_to(self, x: int, y: int) -> ScrollView {
        ScrollView {
            child_viewport: clamped_viewport(x, y, self.child_size, self.actual_rect),
            ..self
        }
    }

    pub open spec fn scroll_to(self, origin: Point) -> ScrollView {
        self.clamp_to(origin.x as int, origin.y as int)
    }

    pub open spec fn scroll_delta(self, delta: Vec2) -> ScrollView {
        self.clamp_to(self.child_viewport.x0 + delta.x, self.child_viewport.y0 + delta.y)
    }

    /// The state after panning the least distance that shows `rect`.
    pub open spec fn pan_to_visible(self, rect: Rect) -> ScrollView {
        let view = self.child_viewport;
        let dx = pan_delta(
            rect.x0 as int,
            rect.x1 as int,
            view.min_x(),
            view.max_x(),
            view.width(),
        );
        let dy = pan_delta(
            rect.y0 as int,
            rect.y1 as int,
            view.min_y(),
            view.max_y(),
            view.height(),
        );
        self.clamp_to(view.x0 + dx, view.y0 + dy)
    }

    /// The state after a layout pass that assigned `size`, resolved `padding`
    /// and measured `content`; a missing measurement counts as empty content.
    pub open spec fn resized(self, size: Size, padding: Padding, content: Option<Size>)
        -> ScrollView {
        let child_size = if let Some(measured) = content {
            measured
        } else {
            Size { width: 0, height: 0 }
        };
        let actual_rect = padded_rect(size, padding);
        ScrollView {
            size,
            actual_rect,
            child_size,
            child_viewport: clamped_viewport(
                self.child_viewport.x0 as int,
                self.child_viewport.y0 as int,
                child_size,
                actual_rect,
            ),
            ..self
        }
    }

    /// The state with the style overrides taken over.
    pub open spec fn restyled(self, by: StyleOverrides) -> ScrollView {
        ScrollView { scroll_bar_style: self.scroll_bar_style.overridden(by), ..self }
    }

    /// The state with the drag state replaced.
    pub open spec fn holding(self, held: DragState) -> ScrollView {
        ScrollView { held, ..self }
    }

    /// The vertical thumb in content coordinates, absent when the content is
    /// no taller than the viewport. Its least length is the bar's thickness.
    pub open spec fn vertical_bar(self) -> Option<Rect> {
        let view = self.child_viewport;
        let content = self.child_size.height as int;
        let thickness = self.scroll_bar_style.thickness as int;
        if has_bar(content, view.height()) {
            let length = thumb_length(content, view.height(), thickness);
            let top = thumb_offset(view.height() - length, view.y0 as int, content, view.height());
            Some(
                Rect::at(
                    view.x0 + view.width() - thickness,
                    view.y0 + top,
                    view.x0 + view.width(),
                    view.y0 + top + length,
                ),
            )
        } else {
            None
        }
    }

    /// The horizontal thumb in content coordinates, absent when the content is
    /// no wider than the viewport. Its least length is `SCROLLBAR_MIN_SIZE`.
    pub open spec fn horizontal_bar(self) -> Option<Rect> {
        let view = self.child_viewport;
        let content = self.child_size.width as int;
        let thickness = self.scroll_bar_style.thickness as int;
        if has_bar(content, view.width()) {
            let length = thumb_length(content, view.width(), SCROLLBAR_MIN_SIZE as int);
            let left = thumb_offset(view.width() - length, view.x0 as int, content, view.width());
            Some(
                Rect::at(
                    view.x0 + left,
                    view.y0 + view.height() - thickness,
                    view.x0 + left + length,
                    view.y0 + view.height(),
                ),
            )
        } else {
            None
        }
    }

    /// Whether content coordinate `x` falls in the vertical bar's band, which
    /// runs the full height of the viewport.
    pub open spec fn within_vertical_band(self, x: int) -> bool {
        self.vertical_bar() matches Some(bar) && bar.x0 <= x <= bar.x1
    }

    /// Whether content coordinate `y` falls in the horizontal bar's band,
    /// which runs the full width of the viewport.
    pub open spec fn within_horizontal_band(self, y: int) -> bool {
        self.horizontal_bar() matches Some(bar) && bar.y0 <= y <= bar.y1
    }

    /// Whether the content point lies strictly inside the vertical thumb.
    pub open spec fn hits_vertical_thumb(self, x: int, y: int) -> bool {
        self.vertical_bar() matches Some(bar) && bar.strictly_contains(x, y)
    }

    /// Whether the content point lies strictly inside the horizontal thumb.
    pub open spec fn hits_horizontal_thumb(self, x: int, y: int) -> bool {
        self.horizontal_bar() matches Some(bar) && bar.strictly_contains(x, y)
    }

    /// The thumbs to draw, each moved from content coordinates into the
    /// controller's frame.
    pub open spec fn drawn_bars(self) -> BarShapes {
        let origin = self.child_viewport.corner();
        BarShapes {
            vertical: if let Some(bar) = self.vertical_bar() {
                Some(in_frame(bar, origin))
            } else {
                None
            },
            horizontal: if let Some(bar) = self.horizontal_bar() {
                Some(in_frame(bar, origin))
            } else {
                None
            },
            stroked: self.scroll_bar_style.edge_width > 0,
        }
    }

    /// The paint plan: clip to the padded box, shift the content by the
    /// negated origin, and draw the thumbs unless they are hidden.
    pub open spec fn paint_plan(self) -> PaintPlan {
        PaintPlan {
            clip: self.actual_rect,
            offset: Vec2 {
                x: (-self.child_viewport.x0) as i64,
                y: (-self.child_viewport.y0) as i64,
            },
            bars: if self.scroll_bar_style.hide {
                BarShapes { vertical: None, horizontal: None, stroked: false }
            } else {
                self.drawn_bars()
            },
        }
    }

    /// The state after a click on the vertical track at `pos`: the viewport
    /// jumps so that the thumb centers on the click.
    pub open spec fn click_vertical(self, pos: Point) -> ScrollView {
        self.clamp_to(
            self.child_viewport.x0 as int,
            jump_target(
                pos.y as int,
                self.child_viewport.y0 as int,
                self.child_size.height as int,
                self.actual_rect.height(),
            ),
        )
    }

    /// The state after a click on the horizontal track at `pos`.
    pub open spec fn click_horizontal(self, pos: Point) -> ScrollView {
        self.clamp_to(
            jump_target(
                pos.x as int,
                self.child_viewport.x0 as int,
                self.child_size.width as int,
                self.actual_rect.width(),
            ),
            self.child_viewport.y0 as int,
        )
    }

    /// Whether a pointer at `pos`, in the controller's frame, is over either
    /// scrollbar's band.
    pub open spec fn over_bars(self, pos: Point) -> bool {
        self.within_vertical_band(pos.x + self.child_viewport.x0) || self.within_horizontal_band(
            pos.y + self.child_viewport.y0,
        )
    }

    /// The state after a press of the primary button at `pos` while the bars
    /// show. On a thumb the drag begins where the viewport is; elsewhere on a
    /// track the viewport first jumps, and the drag begins from there. The
    /// vertical bar is asked first. Off the bars the drag state is idle.
    pub open spec fn press(self, pos: Point) -> ScrollView {
        let x = pos.x + self.child_viewport.x0;
        let y = pos.y + self.child_viewport.y0;
        if self.within_vertical_band(x) {
            let jumped = if self.hits_vertical_thumb(x, y) {
                self
            } else {
                self.click_vertical(pos)
            };
            jumped.holding(
                DragState::DraggingVertical {
                    anchor: pos.y,
                    origin: jumped.child_viewport.corner(),
                },
            )
        } else if self.within_horizontal_band(y) {
            let jumped = if self.hits_horizontal_thumb(x, y) {
                self
            } else {
                self.click_horizontal(pos)
            };
            jumped.holding(
                DragState::DraggingHorizontal {
                    anchor: pos.x,
                    origin: jumped.child_viewport.corner(),
                },
            )
        } else {
            self.holding(DragState::Idle)
        }
    }

    /// The state after the pointer moved to `pos` while the bars show. A drag
    /// moves the viewport along its axis and holds the other axis where the
    /// drag began; without a drag nothing changes.
    pub open spec fn drag(self, pos: Point) -> ScrollView {
        let view = self.child_viewport;
        match self.held {
            DragState::Idle => self,
            DragState::DraggingVertical { anchor, origin } => self.clamp_to(
                origin.x as int,
                drag_target(
                    origin.y as int,
                    pos.y - anchor,
                    self.child_size.height as int,
                    view.height(),
                ),
            ),
            DragState::DraggingHorizontal { anchor, origin } => self.clamp_to(
                drag_target(
                    origin.x as int,
                    pos.x - anchor,
                    self.child_size.width as int,
                    view.width(),
                ),
                origin.y as int,
            ),
        }
    }

    /// The state after a pointer event, before the content is offered it.
    pub open spec fn after_pointer(self, event: Event) -> ScrollView {
        match event {
            Event::PointerDown { pos, primary } => if !self.scroll_bar_style.hide && primary {
                self.press(pos)
            } else {
                self
            },
            Event::PointerUp => self.holding(DragState::Idle),
            Event::PointerMove { pos } => if !self.scroll_bar_style.hide {
                self.drag(pos)
            } else {
                self
            },
            _ => self,
        }
    }

    /// Whether the controller keeps a pointer event to itself: a primary press
    /// on a bar, or a move over a bar while nothing is dragged.
    pub open spec fn consumes(self, event: Event) -> bool {
        match event {
            Event::PointerDown { pos, primary } => !self.scroll_bar_style.hide && primary
                && self.over_bars(pos),
            Event::PointerMove { pos } => !self.scroll_bar_style.hide && self.held is Idle
                && self.over_bars(pos),
            _ => false,
        }
    }

    /// Whether a pointer event makes the controller the active input target:
    /// a primary press on a bar.
    pub open spec fn activates(self, event: Event) -> bool {
        event is PointerDown && self.consumes(event)
    }

    /// The state after an event that the content left unhandled. Only a wheel
    /// event that no listener handled scrolls.
    pub open spec fn after_wheel(self, event: Event, listener_handled: bool) -> ScrollView {
        match event {
            Event::PointerWheel { delta } => if listener_handled {
                self
            } else {
                self.scroll_delta(wheel_travel(delta, self.vertical_scroll_as_horizontal))
            },
            _ => self,
        }
    }

    /// Whether an event that the content left unhandled is fully handled: a
    /// wheel event that a listener handled, or one that is not to propagate.
    pub open spec fn handles_wheel(self, event: Event, listener_handled: bool) -> bool {
        event is PointerWheel && (listener_handled || !self.propagate_pointer_wheel)
    }

    /// The state after a command.
    pub open spec fn apply(self, command: ScrollCommand) -> ScrollView {
        match command {
            ScrollCommand::EnsureVisible(rect) => self.pan_to_visible(rect),
            ScrollCommand::ScrollDelta(delta) => self.scroll_delta(delta),
            ScrollCommand::ScrollTo(origin) => self.scroll_to(origin),
            ScrollCommand::SetHidden(hide) => ScrollView {
                scroll_bar_style: ScrollBarStyle { hide, ..self.scroll_bar_style },
                ..self
            },
            ScrollCommand::SetPropagateWheel(value) => ScrollView {
                propagate_pointer_wheel: value,
                ..self
            },
            ScrollCommand::SetAxisSwap(value) => ScrollView {
                vertical_scroll_as_horizontal: value,
                ..self
            },
        }
    }

    /// The state after one delivery: the controller's own pointer handling,
    /// then, unless the controller or the content kept the event, its wheel
    /// handling.
    pub open spec fn deliver(self, delivery: Delivery) -> ScrollView {
        let pressed = self.after_pointer(delivery.event);
        if self.consumes(delivery.event) || delivery.content_handled {
            pressed
        } else {
            pressed.after_wheel(delivery.event, delivery.listener_handled)
        }
    }

    /// The state after a sequence of deliveries, in order.
    pub open spec fn deliver_all(self, deliveries: Seq<Delivery>) -> ScrollView
        decreases deliveries.len(),
    {
        if deliveries.len() == 0 {
            self
        } else {
            self.deliver_all(deliveries.drop_last()).deliver(deliveries.last())
        }
    }
}

/// What well-formedness means of the viewport: it has the size of the padded
/// box; on an axis with content longer than it, its origin lies in
/// `[0, content - viewport]`; on any other axis its origin is `0`.
pub proof fn lemma_wf_viewport(state: ScrollView)
    requires
        state.wf(),
    ensures
        ({
            let view = state.child_viewport;
            let content = state.child_size;
            let window = state.actual_rect;
            &&& view.width() == window.width()
            &&& view.height() == window.height()
            &&& has_bar(content.width as int, view.width()) ==> 0 <= view.x0 <= content.width
                - view.width()
            &&& has_bar(content.height as int, view.height()) ==> 0 <= view.y0 <= content.height
                - view.height()
            &&& !has_bar(content.width as int, view.width()) ==> view.x0 == 0
            &&& !has_bar(content.height as int, view.height()) ==> view.y0 == 0
        }),
{
}

/// Clamping keeps the state well formed, whatever the candidate.
pub proof fn lemma_clamp_to_wf(state: ScrollView, x: int, y: int)
    requires
        state.wf(),
    ensures
        state.clamp_to(x, y).wf(),
{
}

/// After clamping, the viewport has the size of the padded box. On an axis
/// where the content is at least as long as a viewport of positive length, the
/// origin lies in `[0, content - viewport]`; on an axis where the viewport is
/// at least as long as the content, the origin is `0`.
pub proof fn lemma_clamp_to_in_range(state: ScrollView, x: int, y: int)
    requires
        state.wf(),
    ensures
        ({
            let view = state.clamp_to(x, y).child_viewport;
            let content = state.child_size;
            let window = state.actual_rect;
            &&& view.width() == window.width()
            &&& view.height() == window.height()
            &&& content.width >= window.width() > 0 ==> 0 <= view.x0 <= content.width
                - window.width()
            &&& content.height >= window.height() > 0 ==> 0 <= view.y0 <= content.height
                - window.height()
            &&& window.width() >= content.width ==> view.x0 == 0
            &&& window.height() >= content.height ==> view.y0 == 0
        }),
{
}

/// Clamping is idempotent: clamping to the same candidate again, or to the
/// origin that clamping gave, changes nothing.
pub proof fn lemma_clamp_to_idempotent(state: ScrollView, x: int, y: int)
    requires
        state.wf(),
    ensures
        state.clamp_to(x, y).clamp_to(x, y) == state.clamp_to(x, y),
        ({
            let clamped = state.clamp_to(x, y);
            clamped.clamp_to(clamped.child_viewport.x0 as int, clamped.child_viewport.y0 as int)
                == clamped
        }),
        state.clamp_to(state.child_viewport.x0 as int, state.child_viewport.y0 as int) == state,
{
}

/// Panning to a rectangle that already lies within a viewport that is not
/// inverted changes nothing.
pub proof fn lemma_pan_to_visible_inside(state: ScrollView, rect: Rect)
    requires
        state.wf(),
        state.child_viewport.width() >= 0,
        state.child_viewport.height() >= 0,
        state.child_viewport.encloses(rect),
    ensures
        state.pan_to_visible(rect) == state,
{
    let view = state.child_viewport;
    crate::axis::lemma_pan_delta_zero_inside(
        rect.x0 as int,
        rect.x1 as int,
        view.x0 as int,
        view.x1 as int,
    );
    crate::axis::lemma_pan_delta_zero_inside(
        rect.y0 as int,
        rect.y1 as int,
        view.y0 as int,
        view.y1 as int,
    );
}

/// Whatever the viewport, panning to a rectangle changes nothing where the
/// rectangle's origin and the far corner of its shown part lie within the
/// viewport.
pub proof fn lemma_pan_to_visible_shown_inside(state: ScrollView, rect: Rect)
    requires
        state.wf(),
        ({
            let view = state.child_viewport;
            let stop_x = rect.x0 + crate::axis::shown_length(
                rect.x0 as int,
                rect.x1 as int,
                view.width(),
            );
            let stop_y = rect.y0 + crate::axis::shown_length(
                rect.y0 as int,
                rect.y1 as int,
                view.height(),
            );
            &&& view.min_x() <= rect.x0 <= view.max_x()
            &&& view.min_x() <= stop_x <= view.max_x()
            &&& view.min_y() <= rect.y0 <= view.max_y()
            &&& view.min_y() <= stop_y <= view.max_y()
        }),
    ensures
        state.pan_to_visible(rect) == state,
{
    let view = state.child_viewport;
    crate::axis::lemma_pan_delta_zero_shown_inside(
        rect.x0 as int,
        rect.x1 as int,
        view.min_x(),
        view.max_x(),
        view.width(),
    );
    crate::axis::lemma_pan_delta_zero_shown_inside(
        rect.y0 as int,
        rect.y1 as int,
        view.min_y(),
        view.max_y(),
        view.height(),
    );
}

/// A scrollbar is absent exactly when the viewport is at least as long as the
/// content on its axis. A thumb that shows is never shorter than its minimum:
/// the bar's thickness for the vertical one, `SCROLLBAR_MIN_SIZE` for the
/// horizontal one.
pub proof fn lemma_bar_presence(state: ScrollView)
    requires
        state.wf(),
    ensures
        state.vertical_bar() is None <==> state.child_viewport.height()
            >= state.child_size.height,
        state.horizontal_bar() is None <==> state.child_viewport.width()
            >= state.child_size.width,
        state.vertical_bar() matches Some(bar) ==> bar.height() == thumb_length(
            state.child_size.height as int,
            state.child_viewport.height(),
            state.scroll_bar_style.thickness as int,
        ) && bar.height() >= state.scroll_bar_style.thickness,
        state.horizontal_bar() matches Some(bar) ==> bar.width() == thumb_length(
            state.child_size.width as int,
            state.child_viewport.width(),
            SCROLLBAR_MIN_SIZE as int,
        ) && bar.width() >= SCROLLBAR_MIN_SIZE,
{
    let view = state.child_viewport;
    if has_bar(state.child_size.height as int, view.height()) {
        let content = state.child_size.height as int;
        let thickness = state.scroll_bar_style.thickness as int;
        let length = thumb_length(content, view.height(), thickness);
        crate::axis::lemma_thumb_length_range(content, view.height(), thickness);
        crate::axis::lemma_thumb_offset_range(
            view.height() - length,
            view.y0 as int,
            content,
            view.height(),
        );
    }
    if has_bar(state.child_size.width as int, view.width()) {
        let content = state.child_size.width as int;
        let length = thumb_length(content, view.width(), SCROLLBAR_MIN_SIZE as int);
        crate::axis::lemma_thumb_length_range(content, view.width(), SCROLLBAR_MIN_SIZE as int);
        crate::axis::lemma_thumb_offset_range(
            view.width() - length,
            view.x0 as int,
            content,
            view.width(),
        );
    }
}

/// A layout pass leaves the state well formed, whatever it measured.
pub proof fn lemma_resized_wf(
    state: ScrollView,
    size: Size,
    padding: Padding,
    content: Option<Size>,
)
    ensures
        state.resized(size, padding, content).wf(),
{
}

/// Every command leaves a well-formed state well formed.
pub proof fn lemma_apply_wf(state: ScrollView, command: ScrollCommand)
    requires
        state.wf(),
    ensures
        state.apply(command).wf(),
{
}

/// Every delivery leaves a well-formed state well formed.
pub proof fn lemma_deliver_wf(state: ScrollView, delivery: Delivery)
    requires
        state.wf(),
    ensures
        state.deliver(delivery).wf(),
{
    lemma_after_pointer_wf(state, delivery.event);
}

/// Pointer handling leaves a well-formed state well formed.
pub proof fn lemma_after_pointer_wf(state: ScrollView, event: Event)
    requires
        state.wf(),
    ensures
        state.after_pointer(event).wf(),
{
}

/// Every sequence of deliveries leaves a well-formed state well formed.
pub proof fn lemma_deliver_all_wf(state: ScrollView, deliveries: Seq<Delivery>)
    requires
        state.wf(),
    ensures
        state.deliver_all(deliveries).wf(),
    decreases deliveries.len(),
{
    if deliveries.len() > 0 {
        lemma_deliver_all_wf(state, deliveries.drop_last());
        lemma_deliver_wf(state.deliver_all(deliveries.drop_last()), deliveries.last());
    }
}

/// After any sequence of deliveries that ends in a pointer release, no drag
/// is in progress, and a pointer move that follows changes nothing.
pub proof fn lemma_release_ends_drag(state: ScrollView, deliveries: Seq<Delivery>, next: Delivery)
    requires
        deliveries.len() > 0,
        deliveries.last().event is PointerUp,
        next.event is PointerMove,
    ensures
        state.deliver_all(deliveries).held is Idle,
        state.deliver_all(deliveries).deliver(next) == state.deliver_all(deliveries),
        state.deliver_all(deliveries).deliver(next).child_viewport == state.deliver_all(
            deliveries,
        ).child_viewport,
{
}

/// Without a drag in progress, a pointer move never changes the state.
pub proof fn lemma_idle_move_changes_nothing(state: ScrollView, pos: Point)
    requires
        state.held is Idle,
    ensures
        state.after_pointer(Event::PointerMove { pos }) == state,
{
}

} // verus!
