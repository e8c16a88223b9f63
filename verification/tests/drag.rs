use scrollport::scroll;
use scrollport::DragState;
use scrollport::Event;
use scrollport::Padding;
use scrollport::Point;
use scrollport::PointerResponse;
use scrollport::Rect;
use scrollport::Scroll;
use scrollport::ScrollCommand;
use scrollport::Size;

fn sized(viewport: (i32, i32), content: (i32, i32)) -> Scroll {
    let mut s = scroll();
    s.update_size(
        Size::new(viewport.0, viewport.1),
        Padding::zero(),
        Some(Size::new(content.0, content.1)),
    );
    s
}

fn down(x: i64, y: i64) -> Event {
    Event::PointerDown { pos: Point::new(x, y), primary: true }
}

fn moved(x: i64, y: i64) -> Event {
    Event::PointerMove { pos: Point::new(x, y) }
}

const PASSED: PointerResponse = PointerResponse { consumed: false, active: false, scrolled: None };

#[test]
fn press_on_thumb_starts_drag_without_scrolling() {
    let mut s = sized((100, 100), (1000, 1000));
    let response = s.pointer_event(down(95, 5));
    assert_eq!(response, PointerResponse { consumed: true, active: true, scrolled: None });
    assert_eq!(s.held(), DragState::DraggingVertical { anchor: 5, origin: Point::new(0, 0) });
    assert!(s.are_bars_held());
    assert_eq!(s.child_viewport(), Rect::new(0, 0, 100, 100));
}

#[test]
fn drag_scales_pointer_travel_by_content_over_viewport() {
    let mut s = sized((100, 100), (1000, 1000));
    s.pointer_event(down(95, 5));
    let response = s.pointer_event(moved(95, 15));
    assert_eq!(
        response,
        PointerResponse {
            consumed: false,
            active: false,
            scrolled: Some(Rect::new(0, 100, 100, 200)),
        }
    );
    let response = s.pointer_event(moved(300, 15));
    assert_eq!(response, PASSED);
    s.pointer_event(moved(95, 50));
    assert_eq!(s.child_viewport(), Rect::new(0, 450, 100, 550));
    assert_eq!(s.held(), DragState::DraggingVertical { anchor: 5, origin: Point::new(0, 0) });
}

#[test]
fn drag_is_clamped_at_both_ends() {
    let mut s = sized((100, 100), (1000, 1000));
    s.pointer_event(down(95, 5));
    s.pointer_event(moved(95, 5000));
    assert_eq!(s.child_viewport(), Rect::new(0, 900, 100, 1000));
    s.pointer_event(moved(95, -3));
    assert_eq!(s.child_viewport(), Rect::new(0, 0, 100, 100));
    s.pointer_event(moved(i64::MAX, i64::MAX));
    assert_eq!(s.child_viewport(), Rect::new(0, 900, 100, 1000));
    s.pointer_event(moved(i64::MIN, i64::MIN));
    assert_eq!(s.child_viewport(), Rect::new(0, 0, 100, 100));
}

#[test]
fn drag_rounds_scaled_travel_down() {
    let mut s = sized((100, 100), (1005, 1005));
    s.scroll_to(Point::new(0, 350));
    assert_eq!(s.calc_vertical_bar_bounds(), Some(Rect::new(90, 385, 100, 395)));
    let response = s.pointer_event(down(95, 40));
    assert_eq!(response.scrolled, None);
    assert_eq!(s.held(), DragState::DraggingVertical { anchor: 40, origin: Point::new(0, 350) });
    s.pointer_event(moved(95, 41));
    assert_eq!(s.child_viewport().y0, 360);
    s.pointer_event(moved(95, 39));
    assert_eq!(s.child_viewport().y0, 339);
    s.pointer_event(moved(95, 40));
    assert_eq!(s.child_viewport().y0, 350);
}

#[test]
fn release_ends_drag_and_later_moves_do_not_scroll() {
    let mut s = sized((100, 100), (1000, 1000));
    s.pointer_event(down(95, 5));
    s.pointer_event(moved(95, 25));
    let before = s.child_viewport();
    assert_eq!(before, Rect::new(0, 200, 100, 300));
    assert_eq!(s.pointer_event(Event::PointerUp), PASSED);
    assert_eq!(s.held(), DragState::Idle);
    assert!(!s.are_bars_held());
    assert_eq!(s.pointer_event(moved(50, 60)), PASSED);
    assert_eq!(s.child_viewport(), before);
    let over = s.pointer_event(moved(95, 60));
    assert_eq!(over, PointerResponse { consumed: true, active: false, scrolled: None });
    assert_eq!(s.child_viewport(), before);
    assert_eq!(s.held(), DragState::Idle);
}

#[test]
fn release_ends_drag_through_any_sequence() {
    let sequences: [&[Event]; 4] = [
        &[Event::PointerUp],
        &[down(95, 5), Event::PointerUp],
        &[down(40, 95), moved(60, 95), down(95, 95), Event::Other, Event::PointerUp],
        &[down(95, 40), moved(95, 45), Event::PointerUp, down(5, 95), Event::PointerUp],
    ];
    for events in sequences.iter() {
        let mut s = sized((100, 100), (1000, 1000));
        for &event in events.iter() {
            s.pointer_event(event);
        }
        assert_eq!(s.held(), DragState::Idle);
        let before = s.child_viewport();
        s.pointer_event(moved(95, 77));
        s.pointer_event(moved(-1000, 4000));
        assert_eq!(s.child_viewport(), before);
    }
}

#[test]
fn track_click_centers_thumb_on_click_and_drags_from_there() {
    let mut s = sized((100, 100), (1000, 1000));
    let response = s.pointer_event(down(95, 40));
    assert_eq!(
        response,
        PointerResponse {
            consumed: true,
            active: true,
            scrolled: Some(Rect::new(0, 350, 100, 450)),
        }
    );
    assert_eq!(s.held(), DragState::DraggingVertical { anchor: 40, origin: Point::new(0, 350) });
    s.pointer_event(moved(95, 45));
    assert_eq!(s.child_viewport(), Rect::new(0, 400, 100, 500));
}

#[test]
fn track_click_beyond_the_content_is_clamped_to_the_far_end() {
    let mut s = sized((100, 100), (200, 200));
    assert_eq!(s.calc_vertical_bar_bounds(), Some(Rect::new(90, 0, 100, 50)));
    let response = s.pointer_event(down(95, 200));
    assert_eq!(response.scrolled, Some(Rect::new(0, 100, 100, 200)));
    assert_eq!(s.held(), DragState::DraggingVertical { anchor: 200, origin: Point::new(0, 100) });
    assert_eq!(s.calc_vertical_bar_bounds(), Some(Rect::new(90, 150, 100, 200)));
}

#[test]
fn track_click_is_clamped_into_range() {
    let mut s = sized((100, 100), (1000, 1000));
    s.scroll_to(Point::new(0, 900));
    let response = s.pointer_event(down(95, 2));
    assert_eq!(response.scrolled, Some(Rect::new(0, 0, 100, 100)));
    assert_eq!(s.held(), DragState::DraggingVertical { anchor: 2, origin: Point::new(0, 0) });
    s.pointer_event(Event::PointerUp);
    s.pointer_event(down(95, 99));
    assert_eq!(s.child_viewport(), Rect::new(0, 900, 100, 1000));
    assert_eq!(s.held(), DragState::DraggingVertical { anchor: 99, origin: Point::new(0, 900) });
}

#[test]
fn click_areas_jump_one_axis() {
    let mut s = sized((100, 100), (1000, 1000));
    s.scroll_to(Point::new(200, 300));
    assert_eq!(s.click_vertical_bar_area(Point::new(7, 40)), Some(Rect::new(200, 350, 300, 450)));
    assert_eq!(s.click_horizontal_bar_area(Point::new(40, 7)), Some(Rect::new(350, 350, 450, 450)));
    assert_eq!(s.click_horizontal_bar_area(Point::new(40, 7)), None);
    assert_eq!(s.click_vertical_bar_area(Point::new(0, -1)), Some(Rect::new(350, 0, 450, 100)));
    s.update_size(Size::new(101, 101), Padding::zero(), Some(Size::new(1000, 1000)));
    assert_eq!(s.click_vertical_bar_area(Point::new(0, 40)), Some(Rect::new(350, 346, 451, 447)));
}

#[test]
fn horizontal_press_and_drag() {
    let mut s = sized((100, 100), (1000, 1000));
    let response = s.pointer_event(down(40, 95));
    assert_eq!(response.scrolled, Some(Rect::new(350, 0, 450, 100)));
    assert_eq!(s.held(), DragState::DraggingHorizontal { anchor: 40, origin: Point::new(350, 0) });
    s.pointer_event(moved(42, 3000));
    assert_eq!(s.child_viewport(), Rect::new(370, 0, 470, 100));
    s.pointer_event(Event::PointerUp);
    assert_eq!(s.calc_horizontal_bar_bounds(), Some(Rect::new(407, 90, 417, 100)));
    let response = s.pointer_event(down(41, 95));
    assert_eq!(response, PointerResponse { consumed: true, active: true, scrolled: None });
    assert_eq!(s.held(), DragState::DraggingHorizontal { anchor: 41, origin: Point::new(370, 0) });
}

#[test]
fn vertical_bar_is_asked_first_in_the_corner() {
    let mut s = sized((100, 100), (1000, 1000));
    let response = s.pointer_event(down(95, 95));
    assert_eq!(response.scrolled, Some(Rect::new(0, 900, 100, 1000)));
    assert_eq!(s.held(), DragState::DraggingVertical { anchor: 95, origin: Point::new(0, 900) });
}

#[test]
fn press_off_the_bars_passes_and_clears_drag() {
    let mut s = sized((100, 100), (1000, 1000));
    s.pointer_event(down(95, 5));
    assert!(s.are_bars_held());
    assert_eq!(s.pointer_event(down(10, 10)), PASSED);
    assert_eq!(s.held(), DragState::Idle);
}

#[test]
fn secondary_press_is_ignored() {
    let mut s = sized((100, 100), (1000, 1000));
    let secondary = Event::PointerDown { pos: Point::new(95, 40), primary: false };
    assert_eq!(s.pointer_event(secondary), PASSED);
    assert_eq!(s.held(), DragState::Idle);
    assert_eq!(s.child_viewport(), Rect::new(0, 0, 100, 100));
    s.pointer_event(down(95, 5));
    let off = Event::PointerDown { pos: Point::new(10, 10), primary: false };
    assert_eq!(s.pointer_event(off), PASSED);
    assert!(s.are_bars_held());
}

#[test]
fn hidden_bars_take_no_pointer_events() {
    let mut s = sized((100, 100), (1000, 1000));
    s.pointer_event(down(95, 5));
    s.update(ScrollCommand::SetHidden(true));
    assert_eq!(s.pointer_event(moved(95, 50)), PASSED);
    assert_eq!(s.child_viewport(), Rect::new(0, 0, 100, 100));
    assert!(s.are_bars_held());
    assert_eq!(s.pointer_event(down(95, 40)), PASSED);
    assert!(s.are_bars_held());
    assert_eq!(s.pointer_event(Event::PointerUp), PASSED);
    assert_eq!(s.held(), DragState::Idle);
    assert_eq!(s.pointer_event(moved(95, 50)), PASSED);
}

#[test]
fn move_over_a_band_is_kept_from_the_content() {
    let mut s = sized((100, 100), (1000, 1000));
    s.scroll_to(Point::new(300, 300));
    let kept = PointerResponse { consumed: true, active: false, scrolled: None };
    assert_eq!(s.pointer_event(moved(90, 50)), kept);
    assert_eq!(s.pointer_event(moved(100, -40)), kept);
    assert_eq!(s.pointer_event(moved(50, 100)), kept);
    assert_eq!(s.pointer_event(moved(89, 89)), PASSED);
    assert_eq!(s.pointer_event(moved(101, 101)), PASSED);
    assert_eq!(s.child_viewport(), Rect::new(300, 300, 400, 400));
}

#[test]
fn no_bars_no_capture() {
    let mut s = sized((100, 100), (100, 100));
    assert_eq!(s.pointer_event(down(95, 5)), PASSED);
    assert_eq!(s.pointer_event(moved(95, 5)), PASSED);
    assert_eq!(s.held(), DragState::Idle);
}

#[test]
fn drag_holds_the_other_axis_where_the_drag_began() {
    let mut s = sized((100, 100), (1000, 1000));
    s.pointer_event(down(95, 5));
    s.scroll_to(Point::new(200, 0));
    assert_eq!(s.child_viewport(), Rect::new(200, 0, 300, 100));
    s.pointer_event(moved(95, 6));
    assert_eq!(s.child_viewport(), Rect::new(0, 10, 100, 110));
}

#[test]
fn other_events_change_nothing() {
    let mut s = sized((100, 100), (1000, 1000));
    s.pointer_event(down(95, 5));
    let held = s.held();
    assert_eq!(s.pointer_event(Event::Other), PASSED);
    let wheel = Event::PointerWheel { delta: scrollport::Vec2::new(0, 30) };
    assert_eq!(s.pointer_event(wheel), PASSED);
    assert_eq!(s.held(), held);
    assert_eq!(s.child_viewport(), Rect::new(0, 0, 100, 100));
}

#[test]
fn viewport_of_no_length_maps_no_travel() {
    let mut s = sized((100, 0), (1000, 10));
    assert_eq!(s.calc_vertical_bar_bounds(), Some(Rect::new(90, 0, 100, 10)));
    let response = s.pointer_event(down(95, 5));
    assert_eq!(response, PointerResponse { consumed: true, active: true, scrolled: None });
    s.pointer_event(moved(95, 50));
    assert_eq!(s.child_viewport(), Rect::new(0, 0, 100, 0));
    s.pointer_event(Event::PointerUp);
    s.scroll_to(Point::new(0, 3));
    let response = s.pointer_event(down(95, 20));
    assert_eq!(response, PointerResponse { consumed: true, active: true, scrolled: None });
    assert_eq!(s.child_viewport(), Rect::new(0, 3, 100, 3));
    assert_eq!(s.held(), DragState::DraggingVertical { anchor: 20, origin: Point::new(0, 3) });
}

#[test]
fn press_at_the_ends_of_the_coordinate_range() {
    let mut s = sized((100, 100), (1000, 1000));
    s.scroll_to(Point::new(900, 900));
    assert_eq!(s.pointer_event(down(i64::MAX, i64::MAX)), PASSED);
    assert_eq!(s.pointer_event(down(i64::MIN, i64::MIN)), PASSED);
    let response = s.pointer_event(down(95, i64::MAX));
    assert_eq!(response, PointerResponse { consumed: true, active: true, scrolled: None });
    assert_eq!(
        s.held(),
        DragState::DraggingVertical { anchor: i64::MAX, origin: Point::new(900, 900) }
    );
    s.pointer_event(moved(0, i64::MIN));
    assert_eq!(s.child_viewport(), Rect::new(900, 0, 1000, 100));
    s.pointer_event(Event::PointerUp);
    let response = s.pointer_event(down(95, i64::MIN));
    assert_eq!(response.scrolled, None);
    assert_eq!(s.child_viewport(), Rect::new(900, 0, 1000, 100));
}

#[test]
fn drag_and_track_click_over_an_inverted_viewport() {
    let mut s = scroll();
    s.update_size(Size::new(100, 10), Padding::new(0, 0, 8, 8), Some(Size::new(1000, 100)));
    s.scroll_to(Point::new(0, 50));
    assert_eq!(s.child_viewport(), Rect::new(0, 50, 100, 44));
    assert_eq!(s.calc_vertical_bar_bounds(), Some(Rect::new(90, 43, 100, 53)));
    let response = s.pointer_event(down(95, -2));
    assert_eq!(response, PointerResponse { consumed: true, active: true, scrolled: None });
    assert_eq!(s.held(), DragState::DraggingVertical { anchor: -2, origin: Point::new(0, 50) });
    s.pointer_event(moved(95, -1));
    assert_eq!(s.child_viewport().y0, 33);
    s.pointer_event(moved(95, 1));
    assert_eq!(s.child_viewport().y0, 0);
    s.pointer_event(moved(95, -5));
    assert_eq!(s.child_viewport().y0, 100);
    s.pointer_event(Event::PointerUp);
    s.scroll_to(Point::new(0, 50));
    let response = s.pointer_event(down(95, 4));
    assert_eq!(response.scrolled, Some(Rect::new(0, 0, 100, -6)));
    s.pointer_event(Event::PointerUp);
    s.scroll_to(Point::new(0, 50));
    assert_eq!(s.click_vertical_bar_area(Point::new(0, -4)), Some(Rect::new(0, 69, 100, 63)));
    s.update_size(Size::new(100, 10), Padding::new(0, 0, 8, 9), Some(Size::new(1000, 100)));
    assert_eq!(s.click_vertical_bar_area(Point::new(0, -5)), Some(Rect::new(0, 75, 100, 68)));
}
