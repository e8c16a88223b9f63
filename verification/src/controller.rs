//! The scroll controller.
use vstd::prelude::*;
use crate::axis::clamp_axis;
use crate::axis::drag_axis;
use crate::axis::jump_axis;
use crate::axis::pan_axis;
use crate::axis::thumb_length_of;
use crate::axis::thumb_offset_of;
use crate::axis::SCROLLBAR_MIN_SIZE;
use crate::geometry::Padding;
use crate::geometry::Point;
use crate::geometry::Rect;
use crate::geometry::Size;
use crate::geometry::Vec2;
use crate::model::scroll_notice;
use crate::model::BarShapes;
use crate::model::DragState;
use crate::model::Event;
use crate::model::PaintPlan;
use crate::model::PointerResponse;
use crate::model::ScrollCommand;
use crate::model::ScrollView;
use crate::model::SizeResponse;
use crate::model::WheelResponse;
use crate::style::ScrollBarStyle;
use crate::style::StyleOverrides;

verus! {

/// A viewport over content that may be larger than it, with its scrollbars.
///
/// The controller owns the viewport and keeps it well formed: after every
/// operation the viewport has the size of the padded box, inverted where the
/// padding exceeds the box, and an origin within the content.
pub struct Scroll {
    size: Size,
    actual_rect: Rect,
    child_size: Size,
    child_viewport: Rect,
    held: DragState,
    propagate_pointer_wheel: bool,
    vertical_scroll_as_horizontal: bool,
    scroll_bar_style: ScrollBarStyle,
}

impl View for Scroll {
    type V = ScrollView;

    closed spec fn view(&self) -> ScrollView {
        ScrollView {
            size: self.size,
            actual_rect: self.actual_rect,
            child_size: self.child_size,
            child_viewport: self.child_viewport,
            held: self.held,
            propagate_pointer_wheel: self.propagate_pointer_wheel,
            vertical_scroll_as_horizontal: self.vertical_scroll_as_horizontal,
            scroll_bar_style: self.scroll_bar_style,
        }
    }
}

/// A new controller: nothing measured yet, viewport at the origin, no drag,
/// wheel events kept, no axis swap, the base style.
pub fn scroll() -> (controller: Scroll)
    ensures
        controller@.wf(),
        controller@ == ScrollView::initial(ScrollBarStyle::base_style()),
{
    Scroll {
        size: Size::zero(),
        actual_rect: Rect::zero(),
        child_size: Size::zero(),
        child_viewport: Rect::zero(),
        held: DragState::Idle,
        propagate_pointer_wheel: false,
        vertical_scroll_as_horizontal: false,
        scroll_bar_style: ScrollBarStyle::base(),
    }
}

impl Scroll {
    #[verifier::type_invariant]
    spec fn inv(&self) -> bool {
        self@.wf()
    }

    /// Moves the viewport to the valid origin nearest to `(x, y)` and gives it
    /// the size of the padded box.
    fn clamp_to(&mut self, x: i128, y: i128) -> (scrolled: Option<Rect>)
        ensures
            final(self)@ == old(self)@.clamp_to(x as int, y as int),
            final(self)@.wf(),
            scrolled == scroll_notice(old(self)@.child_viewport, final(self)@.child_viewport),
    {
        proof {
            use_type_invariant(&*self);
        }
        let width: i64 = self.actual_rect.x1 - self.actual_rect.x0;
        let height: i64 = self.actual_rect.y1 - self.actual_rect.y0;
        let x0: i64 = clamp_axis(x, self.child_size.width, width);
        let y0: i64 = clamp_axis(y, self.child_size.height, height);
        let viewport = Rect { x0, y0, x1: x0 + width, y1: y0 + height };
        if viewport != self.child_viewport {
            self.child_viewport = viewport;
            Some(viewport)
        } else {
            None
        }
    }

    /// Clamps a candidate viewport: its origin is held within the content, its
    /// size is replaced by that of the padded box. Returns the new viewport if
    /// it differs from the current one: the content is then to be shown at it,
    /// laid out again, and whoever listens for scrolling told, once.
    pub fn clamp_child_viewport(&mut self, child_viewport: Rect) -> (scrolled: Option<Rect>)
        ensures
            final(self)@ == old(self)@.clamp_to(child_viewport.x0 as int, child_viewport.y0 as int),
            final(self)@.wf(),
            scrolled == scroll_notice(old(self)@.child_viewport, final(self)@.child_viewport),
    {
        self.clamp_to(child_viewport.x0 as i128, child_viewport.y0 as i128)
    }

    /// Moves the viewport's origin to `origin`, clamped.
    pub fn scroll_to(&mut self, origin: Point) -> (scrolled: Option<Rect>)
        ensures
            final(self)@ == old(self)@.scroll_to(origin),
            final(self)@.wf(),
            scrolled == scroll_notice(old(self)@.child_viewport, final(self)@.child_viewport),
    {
        self.clamp_to(origin.x as i128, origin.y as i128)
    }

    /// Moves the viewport by `delta`, clamped.
    pub fn scroll_delta(&mut self, delta: Vec2) -> (scrolled: Option<Rect>)
        ensures
            final(self)@ == old(self)@.scroll_delta(delta),
            final(self)@.wf(),
            scrolled == scroll_notice(old(self)@.child_viewport, final(self)@.child_viewport),
    {
        let x: i128 = self.child_viewport.x0 as i128 + delta.x as i128;
        let y: i128 = self.child_viewport.y0 as i128 + delta.y as i128;
        self.clamp_to(x, y)
    }

    /// Pans the smallest distance that makes `rect` visible. Where `rect` is
    /// larger than the viewport, the part nearest its origin is shown.
    pub fn pan_to_visible(&mut self, rect: Rect) -> (scrolled: Option<Rect>)
        ensures
            final(self)@ == old(self)@.pan_to_visible(rect),
            final(self)@.wf(),
            scrolled == scroll_notice(old(self)@.child_viewport, final(self)@.child_viewport),
    {
        proof {
            use_type_invariant(&*self);
        }
        let view = self.child_viewport;
        let dx: i128 = pan_axis(rect.x0, rect.x1, view.x0, view.x1);
        let dy: i128 = pan_axis(rect.y0, rect.y1, view.y0, view.y1);
        self.clamp_to(view.x0 as i128 + dx, view.y0 as i128 + dy)
    }

    /// Takes over the sizes of a layout pass: the assigned box, its resolved
    /// padding, and the content's measured size, where there is one. The
    /// viewport is clamped to the new sizes at once.
    pub fn update_size(&mut self, size: Size, padding: Padding, content: Option<Size>) -> (response:
        SizeResponse)
        ensures
            final(self)@ == old(self)@.resized(size, padding, content),
            final(self)@.wf(),
            response.content_resized == (final(self)@.child_size != old(self)@.child_size),
            response.scrolled == scroll_notice(
                old(self)@.child_viewport,
                final(self)@.child_viewport,
            ),
    {
        proof {
            use_type_invariant(&*self);
        }
        let child_size = match content {
            Some(measured) => measured,
            None => Size::zero(),
        };
        let x0: i64 = padding.left as i64;
        let y0: i64 = padding.top as i64;
        let x1: i64 = size.width as i64 - padding.right as i64;
        let y1: i64 = size.height as i64 - padding.bottom as i64;
        let actual_rect = Rect { x0, y0, x1, y1 };
        let before = self.child_viewport;
        let vx: i64 = clamp_axis(before.x0 as i128, child_size.width, x1 - x0);
        let vy: i64 = clamp_axis(before.y0 as i128, child_size.height, y1 - y0);
        let child_viewport = Rect { x0: vx, y0: vy, x1: vx + (x1 - x0), y1: vy + (y1 - y0) };
        let content_resized = child_size != self.child_size;
        *self = Scroll {
            size,
            actual_rect,
            child_size,
            child_viewport,
            held: self.held,
            propagate_pointer_wheel: self.propagate_pointer_wheel,
            vertical_scroll_as_horizontal: self.vertical_scroll_as_horizontal,
            scroll_bar_style: self.scroll_bar_style,
        };
        SizeResponse {
            content_resized,
            scrolled: if child_viewport != before {
                Some(child_viewport)
            } else {
                None
            },
        }
    }

    /// The vertical thumb, in content coordinates: absent exactly when the
    /// content is no taller than the viewport.
    pub fn calc_vertical_bar_bounds(&self) -> (bounds: Option<Rect>)
        ensures
            bounds == self@.vertical_bar(),
            bounds is None <==> self@.child_viewport.height() >= self@.child_size.height,
    {
        self.vertical_bar()
    }

    fn vertical_bar(&self) -> (bounds: Option<Rect>)
        ensures
            bounds == self@.vertical_bar(),
            bounds is None <==> self@.child_viewport.height() >= self@.child_size.height,
            bounds matches Some(bar) ==> Self::near(bar),
    {
        proof {
            use_type_invariant(self);
        }
        let view = self.child_viewport;
        let width: i64 = view.x1 - view.x0;
        let height: i64 = view.y1 - view.y0;
        let content: i32 = self.child_size.height;
        if height >= content as i64 {
            return None;
        }
        let thickness: i32 = self.scroll_bar_style.thickness;
        let length: i64 = thumb_length_of(content, height, thickness);
        let top: i64 = thumb_offset_of(height - length, view.y0, content, height);
        Some(
            Rect {
                x0: view.x0 + width - thickness as i64,
                y0: view.y0 + top,
                x1: view.x0 + width,
                y1: view.y0 + top + length,
            },
        )
    }

    /// The horizontal thumb, in content coordinates: absent exactly when the
    /// content is no wider than the viewport.
    pub fn calc_horizontal_bar_bounds(&self) -> (bounds: Option<Rect>)
        ensures
            bounds == self@.horizontal_bar(),
            bounds is None <==> self@.child_viewport.width() >= self@.child_size.width,
    {
        self.horizontal_bar()
    }

    fn horizontal_bar(&self) -> (bounds: Option<Rect>)
        ensures
            bounds == self@.horizontal_bar(),
            bounds is None <==> self@.child_viewport.width() >= self@.child_size.width,
            bounds matches Some(bar) ==> Self::near(bar),
    {
        proof {
            use_type_invariant(self);
        }
        let view = self.child_viewport;
        let width: i64 = view.x1 - view.x0;
        let height: i64 = view.y1 - view.y0;
        let content: i32 = self.child_size.width;
        if width >= content as i64 {
            return None;
        }
        let thickness: i32 = self.scroll_bar_style.thickness;
        let length: i64 = thumb_length_of(content, width, SCROLLBAR_MIN_SIZE);
        let left: i64 = thumb_offset_of(width - length, view.x0, content, width);
        Some(
            Rect {
                x0: view.x0 + left,
                y0: view.y0 + height - thickness as i64,
                x1: view.x0 + left + length,
                y1: view.y0 + height,
            },
        )
    }

    fn within_vertical_at(&self, x: i128) -> (within: bool)
        ensures
            within == self@.within_vertical_band(x as int),
    {
        match self.calc_vertical_bar_bounds() {
            Some(bar) => bar.x0 as i128 <= x && x <= bar.x1 as i128,
            None => false,
        }
    }

    fn within_horizontal_at(&self, y: i128) -> (within: bool)
        ensures
            within == self@.within_horizontal_band(y as int),
    {
        match self.calc_horizontal_bar_bounds() {
            Some(bar) => bar.y0 as i128 <= y && y <= bar.y1 as i128,
            None => false,
        }
    }

    fn hits_vertical_at(&self, x: i128, y: i128) -> (hit: bool)
        ensures
            hit == self@.hits_vertical_thumb(x as int, y as int),
    {
        match self.calc_vertical_bar_bounds() {
            Some(bar) => (bar.x0 as i128) < x && x < bar.x1 as i128 && (bar.y0 as i128) < y && y
                < bar.y1 as i128,
            None => false,
        }
    }

    fn hits_horizontal_at(&self, x: i128, y: i128) -> (hit: bool)
        ensures
            hit == self@.hits_horizontal_thumb(x as int, y as int),
    {
        match self.calc_horizontal_bar_bounds() {
            Some(bar) => (bar.x0 as i128) < x && x < bar.x1 as i128 && (bar.y0 as i128) < y && y
                < bar.y1 as i128,
            None => false,
        }
    }

    /// Whether the content point falls in the vertical bar's band: within the
    /// bar's thickness at the far edge, anywhere along the viewport's height.
    pub fn point_within_vertical_bar(&self, pos: Point) -> (within: bool)
        ensures
            within == self@.within_vertical_band(pos.x as int),
    {
        self.within_vertical_at(pos.x as i128)
    }

    /// Whether the content point falls in the horizontal bar's band.
    pub fn point_within_horizontal_bar(&self, pos: Point) -> (within: bool)
        ensures
            within == self@.within_horizontal_band(pos.y as int),
    {
        self.within_horizontal_at(pos.y as i128)
    }

    /// Whether the content point lies strictly inside the vertical thumb.
    pub fn point_hits_vertical_bar(&self, pos: Point) -> (hit: bool)
        ensures
            hit == self@.hits_vertical_thumb(pos.x as int, pos.y as int),
    {
        self.hits_vertical_at(pos.x as i128, pos.y as i128)
    }

    /// Whether the content point lies strictly inside the horizontal thumb.
    pub fn point_hits_horizontal_bar(&self, pos: Point) -> (hit: bool)
        ensures
            hit == self@.hits_horizontal_thumb(pos.x as int, pos.y as int),
    {
        self.hits_horizontal_at(pos.x as i128, pos.y as i128)
    }

    /// A click on the vertical track at `pos`, in the controller's frame: the
    /// viewport jumps so that the thumb centers on the click.
    pub fn click_vertical_bar_area(&mut self, pos: Point) -> (scrolled: Option<Rect>)
        ensures
            final(self)@ == old(self)@.click_vertical(pos),
            final(self)@.wf(),
            scrolled == scroll_notice(old(self)@.child_viewport, final(self)@.child_viewport),
    {
        proof {
            use_type_invariant(&*self);
        }
        let height: i64 = self.actual_rect.y1 - self.actual_rect.y0;
        let y: i128 = jump_axis(pos.y, self.child_viewport.y0, self.child_size.height, height);
        self.clamp_to(self.child_viewport.x0 as i128, y)
    }

    /// A click on the horizontal track at `pos`, in the controller's frame.
    pub fn click_horizontal_bar_area(&mut self, pos: Point) -> (scrolled: Option<Rect>)
        ensures
            final(self)@ == old(self)@.click_horizontal(pos),
            final(self)@.wf(),
            scrolled == scroll_notice(old(self)@.child_viewport, final(self)@.child_viewport),
    {
        proof {
            use_type_invariant(&*self);
        }
        let width: i64 = self.actual_rect.x1 - self.actual_rect.x0;
        let x: i128 = jump_axis(pos.x, self.child_viewport.x0, self.child_size.width, width);
        self.clamp_to(x, self.child_viewport.y0 as i128)
    }

    /// Whether either scrollbar is being dragged.
    pub fn are_bars_held(&self) -> (held: bool)
        ensures
            held == !(self@.held is Idle),
    {
        !matches!(self.held, DragState::Idle)
    }

    fn press(&mut self, pos: Point) -> (response: PointerResponse)
        ensures
            final(self)@ == old(self)@.press(pos),
            final(self)@.wf(),
            response.consumed == old(self)@.over_bars(pos),
            response.active == response.consumed,
            response.scrolled == scroll_notice(
                old(self)@.child_viewport,
                final(self)@.child_viewport,
            ),
    {
        proof {
            use_type_invariant(&*self);
        }
        self.held = DragState::Idle;
        let x: i128 = pos.x as i128 + self.child_viewport.x0 as i128;
        let y: i128 = pos.y as i128 + self.child_viewport.y0 as i128;
        if self.within_vertical_at(x) {
            let scrolled = if self.hits_vertical_at(x, y) {
                None
            } else {
                self.click_vertical_bar_area(pos)
            };
            self.held = DragState::DraggingVertical {
                anchor: pos.y,
                origin: self.child_viewport.origin(),
            };
            PointerResponse { consumed: true, active: true, scrolled }
        } else if self.within_horizontal_at(y) {
            let scrolled = if self.hits_horizontal_at(x, y) {
                None
            } else {
                self.click_horizontal_bar_area(pos)
            };
            self.held = DragState::DraggingHorizontal {
                anchor: pos.x,
                origin: self.child_viewport.origin(),
            };
            PointerResponse { consumed: true, active: true, scrolled }
        } else {
            PointerResponse { consumed: false, active: false, scrolled: None }
        }
    }

    fn drag(&mut self, pos: Point) -> (response: PointerResponse)
        ensures
            final(self)@ == old(self)@.drag(pos),
            final(self)@.wf(),
            response.consumed == (old(self)@.held is Idle && old(self)@.over_bars(pos)),
            !response.active,
            response.scrolled == scroll_notice(
                old(self)@.child_viewport,
                final(self)@.child_viewport,
            ),
    {
        proof {
            use_type_invariant(&*self);
        }
        let view = self.child_viewport;
        match self.held {
            DragState::Idle => {
                let x: i128 = pos.x as i128 + view.x0 as i128;
                let y: i128 = pos.y as i128 + view.y0 as i128;
                let over = self.within_vertical_at(x) || self.within_horizontal_at(y);
                PointerResponse { consumed: over, active: false, scrolled: None }
            },
            DragState::DraggingVertical { anchor, origin } => {
                let y: i128 = drag_axis(
                    origin.y,
                    anchor,
                    pos.y,
                    self.child_size.height,
                    view.y1 - view.y0,
                );
                let scrolled = self.clamp_to(origin.x as i128, y);
                PointerResponse { consumed: false, active: false, scrolled }
            },
            DragState::DraggingHorizontal { anchor, origin } => {
                let x: i128 = drag_axis(
                    origin.x,
                    anchor,
                    pos.x,
                    self.child_size.width,
                    view.x1 - view.x0,
                );
                let scrolled = self.clamp_to(x, origin.y as i128);
                PointerResponse { consumed: false, active: false, scrolled }
            },
        }
    }

    /// Handles a pointer event before the content is offered it.
    ///
    /// A primary press on a bar starts a drag, after a jump where the press
    /// missed the thumb, and makes the controller the active input target. A
    /// move during a drag scrolls; a move over a bar without a drag is kept
    /// from the content. A release ends any drag. With the bars hidden,
    /// presses and moves pass through.
    pub fn pointer_event(&mut self, event: Event) -> (response: PointerResponse)
        ensures
            final(self)@ == old(self)@.after_pointer(event),
            final(self)@.wf(),
            response.consumed == old(self)@.consumes(event),
            response.active == old(self)@.activates(event),
            response.scrolled == scroll_notice(
                old(self)@.child_viewport,
                final(self)@.child_viewport,
            ),
            event is PointerUp ==> final(self)@.held is Idle,
    {
        proof {
            use_type_invariant(&*self);
        }
        let passed = PointerResponse { consumed: false, active: false, scrolled: None };
        match event {
            Event::PointerDown { pos, primary } => {
                if !self.scroll_bar_style.hide && primary {
                    self.press(pos)
                } else {
                    passed
                }
            },
            Event::PointerUp => {
                self.held = DragState::Idle;
                passed
            },
            Event::PointerMove { pos } => {
                if !self.scroll_bar_style.hide {
                    self.drag(pos)
                } else {
                    passed
                }
            },
            _ => passed,
        }
    }

    /// Handles an event that neither the controller's pointer handling nor
    /// the content kept. `listener_handled` says whether a registered wheel
    /// listener handled it. A wheel event that no listener handled scrolls by
    /// its travel, and counts as fully handled unless wheel events propagate.
    pub fn wheel_event(&mut self, event: Event, listener_handled: bool) -> (response:
        WheelResponse)
        ensures
            final(self)@ == old(self)@.after_wheel(event, listener_handled),
            final(self)@.wf(),
            response.handled == old(self)@.handles_wheel(event, listener_handled),
            response.scrolled == scroll_notice(
                old(self)@.child_viewport,
                final(self)@.child_viewport,
            ),
    {
        proof {
            use_type_invariant(&*self);
        }
        match event {
            Event::PointerWheel { delta } => {
                if listener_handled {
                    WheelResponse { handled: true, scrolled: None }
                } else {
                    let travel = if self.vertical_scroll_as_horizontal && delta.x == 0 && delta.y
                        != 0 {
                        Vec2 { x: delta.y, y: delta.x }
                    } else {
                        delta
                    };
                    let scrolled = self.scroll_delta(travel);
                    WheelResponse { handled: !self.propagate_pointer_wheel, scrolled }
                }
            },
            _ => WheelResponse { handled: false, scrolled: None },
        }
    }

    /// Applies a command. The result is the new viewport where the command
    /// moved it.
    pub fn update(&mut self, command: ScrollCommand) -> (scrolled: Option<Rect>)
        ensures
            final(self)@ == old(self)@.apply(command),
            final(self)@.wf(),
            scrolled == scroll_notice(old(self)@.child_viewport, final(self)@.child_viewport),
    {
        proof {
            use_type_invariant(&*self);
        }
        match command {
            ScrollCommand::EnsureVisible(rect) => self.pan_to_visible(rect),
            ScrollCommand::ScrollDelta(delta) => self.scroll_delta(delta),
            ScrollCommand::ScrollTo(origin) => self.scroll_to(origin),
            ScrollCommand::SetHidden(hide) => {
                self.scroll_bar_style.hide = hide;
                None
            },
            ScrollCommand::SetPropagateWheel(value) => {
                self.propagate_pointer_wheel = value;
                None
            },
            ScrollCommand::SetAxisSwap(value) => {
                self.vertical_scroll_as_horizontal = value;
                None
            },
        }
    }

    /// Takes over the style values that the surrounding context sets.
    pub fn apply_style(&mut self, by: StyleOverrides)
        ensures
            final(self)@ == old(self)@.restyled(by),
            final(self)@.wf(),
    {
        proof {
            use_type_invariant(&*self);
        }
        self.scroll_bar_style = self.scroll_bar_style.apply(by);
    }

    /// The layout pass's part: takes over the context's style values and
    /// returns the extent that the sizing node is to reserve, the content's.
    pub fn layout(&mut self, by: StyleOverrides) -> (reserve: Size)
        ensures
            final(self)@ == old(self)@.restyled(by),
            final(self)@.wf(),
            reserve == old(self)@.child_size,
    {
        self.apply_style(by);
        self.child_size
    }

    /// The thumbs to draw, in the controller's frame.
    pub fn draw_bars(&self) -> (bars: BarShapes)
        ensures
            bars == self@.drawn_bars(),
    {
        proof {
            use_type_invariant(self);
        }
        let origin = self.child_viewport.origin();
        let vertical = match self.vertical_bar() {
            Some(bar) => Some(Self::in_frame(bar, origin)),
            None => None,
        };
        let horizontal = match self.horizontal_bar() {
            Some(bar) => Some(Self::in_frame(bar, origin)),
            None => None,
        };
        BarShapes { vertical, horizontal, stroked: self.scroll_bar_style.edge_width > 0 }
    }

    /// Whether the rectangle's coordinates are far from the ends of the
    /// coordinate range.
    spec fn near(bounds: Rect) -> bool {
        &&& -0x6000_0000_0000_0000 <= bounds.x0 <= 0x6000_0000_0000_0000
        &&& -0x6000_0000_0000_0000 <= bounds.y0 <= 0x6000_0000_0000_0000
        &&& -0x6000_0000_0000_0000 <= bounds.x1 <= 0x6000_0000_0000_0000
        &&& -0x6000_0000_0000_0000 <= bounds.y1 <= 0x6000_0000_0000_0000
    }

    fn in_frame(bounds: Rect, origin: Point) -> (framed: Rect)
        requires
            Self::near(bounds),
            0 <= origin.x <= 0x1000_0000_0000_0000,
            0 <= origin.y <= 0x1000_0000_0000_0000,
        ensures
            framed == crate::model::in_frame(bounds, origin),
    {
        Rect {
            x0: bounds.x0 - origin.x,
            y0: bounds.y0 - origin.y,
            x1: bounds.x1 - origin.x,
            y1: bounds.y1 - origin.y,
        }
    }

    /// The paint pass's part: takes over the context's style values and says
    /// what to clip to, how far to shift the content, and which thumbs to
    /// draw. Hidden bars are not drawn.
    pub fn paint(&mut self, by: StyleOverrides) -> (plan: PaintPlan)
        ensures
            final(self)@ == old(self)@.restyled(by),
            final(self)@.wf(),
            plan == final(self)@.paint_plan(),
    {
        self.apply_style(by);
        proof {
            use_type_invariant(&*self);
        }
        let bars = if self.scroll_bar_style.hide {
            BarShapes { vertical: None, horizontal: None, stroked: false }
        } else {
            self.draw_bars()
        };
        PaintPlan {
            clip: self.actual_rect,
            offset: Vec2 { x: -self.child_viewport.x0, y: -self.child_viewport.y0 },
            bars,
        }
    }

    /// The controller with the bars hidden or shown.
    pub fn hide_bar(self, hide: bool) -> (controller: Scroll)
        ensures
            controller@ == self@.apply(ScrollCommand::SetHidden(hide)),
            controller@.wf(),
    {
        let mut controller = self;
        let _ = controller.update(ScrollCommand::SetHidden(hide));
        controller
    }

    /// The controller with wheel events left to ancestors too, or not.
    pub fn propagate_pointer_wheel(self, value: bool) -> (controller: Scroll)
        ensures
            controller@ == self@.apply(ScrollCommand::SetPropagateWheel(value)),
            controller@.wf(),
    {
        let mut controller = self;
        let _ = controller.update(ScrollCommand::SetPropagateWheel(value));
        controller
    }

    /// The controller with purely vertical wheel travel taken as horizontal,
    /// or not.
    pub fn vertical_scroll_as_horizontal(self, value: bool) -> (controller: Scroll)
        ensures
            controller@ == self@.apply(ScrollCommand::SetAxisSwap(value)),
            controller@.wf(),
    {
        let mut controller = self;
        let _ = controller.update(ScrollCommand::SetAxisSwap(value));
        controller
    }

    /// The controller once `rect` has been brought into view.
    pub fn on_ensure_visible(self, rect: Rect) -> (controller: Scroll)
        ensures
            controller@ == self@.apply(ScrollCommand::EnsureVisible(rect)),
            controller@.wf(),
    {
        let mut controller = self;
        let _ = controller.update(ScrollCommand::EnsureVisible(rect));
        controller
    }

    /// The controller once it has scrolled by `delta`.
    pub fn on_scroll_delta(self, delta: Vec2) -> (controller: Scroll)
        ensures
            controller@ == self@.apply(ScrollCommand::ScrollDelta(delta)),
            controller@.wf(),
    {
        let mut controller = self;
        let _ = controller.update(ScrollCommand::ScrollDelta(delta));
        controller
    }

    /// The controller once it has scrolled to `origin`, where one is given;
    /// unchanged where none is.
    pub fn on_scroll_to(self, origin: Option<Point>) -> (controller: Scroll)
        ensures
            controller@ == (match origin {
                Some(point) => self@.apply(ScrollCommand::ScrollTo(point)),
                None => self@,
            }),
            controller@.wf(),
    {
        proof {
            use_type_invariant(&self);
        }
        let mut controller = self;
        match origin {
            Some(point) => {
                let _ = controller.update(ScrollCommand::ScrollTo(point));
            },
            None => {},
        }
        controller
    }

    /// The assigned box, padding included.
    pub fn size(&self) -> (size: Size)
        ensures
            size == self@.size,
    {
        self.size
    }

    /// The box less its padding.
    pub fn actual_rect(&self) -> (rect: Rect)
        ensures
            rect == self@.actual_rect,
    {
        self.actual_rect
    }

    /// The measured size of the content.
    pub fn child_size(&self) -> (size: Size)
        ensures
            size == self@.child_size,
    {
        self.child_size
    }

    /// The viewport, in content coordinates.
    pub fn child_viewport(&self) -> (viewport: Rect)
        ensures
            viewport == self@.child_viewport,
    {
        self.child_viewport
    }

    /// The drag state.
    pub fn held(&self) -> (held: DragState)
        ensures
            held == self@.held,
    {
        self.held
    }

    /// The scrollbars' style.
    pub fn style(&self) -> (style: ScrollBarStyle)
        ensures
            style == self@.scroll_bar_style,
    {
        self.scroll_bar_style
    }

    /// Whether ancestors see wheel events too.
    pub fn propagates_pointer_wheel(&self) -> (value: bool)
        ensures
            value == self@.propagate_pointer_wheel,
    {
        self.propagate_pointer_wheel
    }

    /// Whether purely vertical wheel travel is taken as horizontal.
    pub fn scrolls_vertical_as_horizontal(&self) -> (value: bool)
        ensures
            value == self@.vertical_scroll_as_horizontal,
    {
        self.vertical_scroll_as_horizontal
    }
}

} // verus!
