use scrollport::scroll;
use scrollport::Event;
use scrollport::Padding;
use scrollport::Point;
use scrollport::Rect;
use scrollport::Scroll;
use scrollport::Size;
use scrollport::Vec2;
use scrollport::WheelResponse;

fn sized(viewport: (i32, i32), content: (i32, i32)) -> Scroll {
    let mut s = scroll();
    s.update_size(
        Size::new(viewport.0, viewport.1),
        Padding::zero(),
        Some(Size::new(content.0, content.1)),
    );
    s
}

fn wheel(x: i64, y: i64) -> Event {
    Event::PointerWheel { delta: Vec2::new(x, y) }
}

#[test]
fn wheel_scrolls_by_its_travel() {
    let mut s = sized((100, 100), (1000, 1000));
    let response = s.wheel_event(wheel(15, 40), false);
    assert_eq!(
        response,
        WheelResponse { handled: true, scrolled: Some(Rect::new(15, 40, 115, 140)) }
    );
    let response = s.wheel_event(wheel(-100, -10), false);
    assert_eq!(
        response,
        WheelResponse { handled: true, scrolled: Some(Rect::new(0, 30, 100, 130)) }
    );
}

#[test]
fn vertical_wheel_with_axis_swap_scrolls_horizontally() {
    let mut s = sized((100, 100), (1000, 1000)).vertical_scroll_as_horizontal(true);
    s.scroll_to(Point::new(50, 50));
    let response = s.wheel_event(wheel(0, -20), false);
    assert_eq!(response.scrolled, Some(Rect::new(30, 50, 130, 150)));
    assert_eq!(s.child_viewport(), Rect::new(30, 50, 130, 150));
}

#[test]
fn axis_swap_leaves_other_travel_alone() {
    let mut s = sized((100, 100), (1000, 1000)).vertical_scroll_as_horizontal(true);
    s.scroll_to(Point::new(50, 50));
    s.wheel_event(wheel(5, -20), false);
    assert_eq!(s.child_viewport(), Rect::new(55, 30, 155, 130));
    s.wheel_event(wheel(7, 0), false);
    assert_eq!(s.child_viewport(), Rect::new(62, 30, 162, 130));
    assert_eq!(s.wheel_event(wheel(0, 0), false).scrolled, None);
}

#[test]
fn vertical_wheel_without_axis_swap_scrolls_vertically() {
    let mut s = sized((100, 100), (1000, 1000));
    s.scroll_to(Point::new(50, 50));
    s.wheel_event(wheel(0, -20), false);
    assert_eq!(s.child_viewport(), Rect::new(50, 30, 150, 130));
}

#[test]
fn wheel_is_fully_handled_unless_it_propagates() {
    let mut s = sized((100, 100), (1000, 1000));
    let kept = s.wheel_event(wheel(0, 20), false);
    assert!(kept.handled);
    let mut s = s.propagate_pointer_wheel(true);
    let passed = s.wheel_event(wheel(0, 20), false);
    assert!(!passed.handled);
    assert_eq!(passed.scrolled, Some(Rect::new(0, 40, 100, 140)));
    assert_eq!(s.child_viewport(), Rect::new(0, 40, 100, 140));
}

#[test]
fn wheel_that_cannot_scroll_is_still_reported_by_the_flag() {
    let mut s = sized((100, 100), (50, 50));
    assert_eq!(s.wheel_event(wheel(0, 20), false), WheelResponse { handled: true, scrolled: None });
    let mut s = s.propagate_pointer_wheel(true);
    assert_eq!(
        s.wheel_event(wheel(0, 20), false),
        WheelResponse { handled: false, scrolled: None }
    );
}

#[test]
fn listener_that_handles_the_wheel_stops_it() {
    let mut s = sized((100, 100), (1000, 1000)).propagate_pointer_wheel(true);
    let response = s.wheel_event(wheel(0, 20), true);
    assert_eq!(response, WheelResponse { handled: true, scrolled: None });
    assert_eq!(s.child_viewport(), Rect::new(0, 0, 100, 100));
}

#[test]
fn events_other_than_wheel_are_not_handled_after_the_content() {
    let mut s = sized((100, 100), (1000, 1000));
    let passed = WheelResponse { handled: false, scrolled: None };
    assert_eq!(s.wheel_event(Event::Other, false), passed);
    assert_eq!(s.wheel_event(Event::PointerUp, true), passed);
    let moved = Event::PointerMove { pos: Point::new(95, 5) };
    assert_eq!(s.wheel_event(moved, false), passed);
    let down = Event::PointerDown { pos: Point::new(95, 5), primary: true };
    assert_eq!(s.wheel_event(down, false), passed);
    assert_eq!(s.child_viewport(), Rect::new(0, 0, 100, 100));
    assert!(!s.are_bars_held());
}

#[test]
fn wheel_at_the_ends_of_the_coordinate_range() {
    let mut s = sized((100, 100), (1000, 1000)).vertical_scroll_as_horizontal(true);
    s.scroll_to(Point::new(900, 900));
    s.wheel_event(wheel(0, i64::MAX), false);
    assert_eq!(s.child_viewport(), Rect::new(900, 900, 1000, 1000));
    s.wheel_event(wheel(0, i64::MIN), false);
    assert_eq!(s.child_viewport(), Rect::new(0, 900, 100, 1000));
    s.wheel_event(wheel(i64::MAX, i64::MIN), false);
    assert_eq!(s.child_viewport(), Rect::new(900, 0, 1000, 100));
}
