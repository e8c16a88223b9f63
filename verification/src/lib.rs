//! A scrollable-viewport controller over whole-pixel coordinates.
//!
//! The controller keeps a clipped window (the viewport) over content that may
//! be larger than the window, derives the scrollbar thumbs from it, classifies
//! pointer positions against track and thumb, runs the drag gesture, and
//! applies scroll commands. Coordinates are `i64`; extents and style
//! dimensions are `i32` and padding is `i16`, so that sums, differences and
//! squares of what the controller derives from them never leave the
//! coordinate range. Values are taken as given: padding that exceeds its box
//! leaves an inverted viewport, and every formula holds of it as of any other.
//! Every state change goes through one clamping step, which keeps the
//! viewport's origin inside the content.
//!
//! The controller performs no layout, event routing or drawing itself. Each
//! operation takes plain values and answers with what its host is to do: the
//! new viewport where it moved, whether an event is consumed, what to paint.
pub mod rounding;
pub mod geometry;
pub mod axis;
pub mod style;
pub mod model;
pub mod controller;

pub use crate::controller::scroll;
pub use crate::controller::Scroll;
pub use crate::geometry::Padding;
pub use crate::geometry::Point;
pub use crate::geometry::Rect;
pub use crate::geometry::Size;
pub use crate::geometry::Vec2;
pub use crate::model::BarShapes;
pub use crate::model::DragState;
pub use crate::model::Event;
pub use crate::model::PaintPlan;
pub use crate::model::PointerResponse;
pub use crate::model::ScrollCommand;
pub use crate::model::SizeResponse;
pub use crate::model::WheelResponse;
pub use crate::style::ScrollBarStyle;
pub use crate::style::StyleOverrides;
