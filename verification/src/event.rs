//! The normalized pointer-event model: one event shape covering mouse,
//! pen/stylus and touch input.
//!
//! Scalar payload the core only carries (positions, pressures, wheel
//! deltas) is stored as IEEE-754 bit patterns, so reading an event back
//! yields exactly what the embedder put in, with no conversion anywhere.

use vstd::prelude::*;

use crate::inclination::ANGLE_HALF_PI_BITS;
use crate::inclination::PenInclination;
use crate::inclination::Scalar32;
use crate::pointer::PointerButton;
use crate::pointer::PointerButtons;

verus! {

/// An IEEE-754 double-precision value carried by its bit pattern.  The
/// core stores and compares such values but never does arithmetic on
/// them; the embedder converts with `to_bits`/`from_bits`.
#[derive(PartialEq, Eq, Clone, Copy, Debug, Structural)]
pub struct Scalar64 {
    pub bits: u64,
}

/// Bit pattern of the single-precision value 0.5.
pub const SCALAR32_HALF_BITS: u32 = 0x3F000000;

/// Bit pattern of the double-precision value 1.0.
pub const SCALAR64_ONE_BITS: u64 = 0x3FF0000000000000;

/// A position in window coordinates.
#[derive(PartialEq, Eq, Clone, Copy, Debug, Structural)]
pub struct Point {
    pub x: Scalar64,
    pub y: Scalar64,
}

impl Default for Point {
    /// The origin.
    fn default() -> (r: Point)
        ensures
            r == (Point { x: (Scalar64 { bits: 0 }), y: (Scalar64 { bits: 0 }) }),
    {
        Point { x: Scalar64 { bits: 0 }, y: Scalar64 { bits: 0 } }
    }
}

/// A two-dimensional vector, such as a scroll-wheel delta.
#[derive(PartialEq, Eq, Clone, Copy, Debug, Structural)]
pub struct Vec2 {
    pub x: Scalar64,
    pub y: Scalar64,
}

impl Default for Vec2 {
    /// The zero vector.
    fn default() -> (r: Vec2)
        ensures
            r == (Vec2 { x: (Scalar64 { bits: 0 }), y: (Scalar64 { bits: 0 }) }),
    {
        Vec2 { x: Scalar64 { bits: 0 }, y: Scalar64 { bits: 0 } }
    }
}

/// A size: width and height.
#[derive(PartialEq, Eq, Clone, Copy, Debug, Structural)]
pub struct Size {
    pub width: Scalar64,
    pub height: Scalar64,
}

/// Keyboard modifiers held during the event, carried as an opaque bit
/// image that the embedder fills from its keyboard state.
#[derive(PartialEq, Eq, Clone, Copy, Debug, Structural)]
pub struct Modifiers {
    pub bits: u32,
}

impl Default for Modifiers {
    /// No modifiers held.
    fn default() -> (r: Modifiers)
        ensures
            r == (Modifiers { bits: 0 }),
    {
        Modifiers { bits: 0 }
    }
}

/// Mouse-specific payload.
#[derive(PartialEq, Eq, Clone, Copy, Debug, Structural)]
pub struct MouseInfo {
    pub wheel_delta: Vec2,
}

/// Pen/stylus payload.
#[derive(PartialEq, Eq, Clone, Copy, Debug, Structural)]
pub struct PenInfo {
    /// Normalized pressure in [0, 1].
    pub pressure: Scalar32,
    /// Normalized tangential (barrel) pressure in [-1, 1].
    pub tangential_pressure: Scalar32,
    /// Stylus orientation.
    pub inclination: PenInclination,
    /// Clockwise rotation around the pen's own axis, 0..359 degrees.
    pub twist: u16,
}

impl Default for PenInfo {
    /// Hardware-neutral rest values: pressure one half (the value required
    /// in the active-buttons state for hardware that reports no pressure),
    /// no tangential pressure, no twist, and a vertical pen (altitude a
    /// quarter turn).
    fn default() -> (r: PenInfo)
        ensures
            r == (PenInfo {
                pressure: (Scalar32 { bits: SCALAR32_HALF_BITS }),
                tangential_pressure: (Scalar32 { bits: 0 }),
                inclination: PenInclination::AzimuthAltitude(
                    (Scalar32 { bits: 0 }),
                    (Scalar32 { bits: ANGLE_HALF_PI_BITS }),
                ),
                twist: 0u16,
            }),
    {
        PenInfo {
            pressure: Scalar32 { bits: SCALAR32_HALF_BITS },
            tangential_pressure: Scalar32 { bits: 0 },
            inclination: PenInclination::from_angle(
                Scalar32 { bits: 0 },
                Scalar32 { bits: ANGLE_HALF_PI_BITS },
            ),
            twist: 0,
        }
    }
}

/// Touch payload.
#[derive(PartialEq, Eq, Clone, Copy, Debug, Structural)]
pub struct TouchInfo {
    /// The contact ellipse.
    pub contact_geometry: Size,
    /// Normalized pressure in [0, 1].
    pub pressure: Scalar32,
}

impl Default for TouchInfo {
    /// Hardware-neutral rest values: pressure one half (as for pens), and
    /// a unit contact area.
    fn default() -> (r: TouchInfo)
        ensures
            r == (TouchInfo {
                contact_geometry: (Size {
                    width: (Scalar64 { bits: SCALAR64_ONE_BITS }),
                    height: (Scalar64 { bits: SCALAR64_ONE_BITS }),
                }),
                pressure: (Scalar32 { bits: SCALAR32_HALF_BITS }),
            }),
    {
        TouchInfo {
            contact_geometry: Size {
                width: Scalar64 { bits: SCALAR64_ONE_BITS },
                height: Scalar64 { bits: SCALAR64_ONE_BITS },
            },
            pressure: Scalar32 { bits: SCALAR32_HALF_BITS },
        }
    }
}

/// Which kind of hardware produced a pointer event, with its payload.  A
/// pointer's kind is fixed for the lifetime of its `pointer_id` within one
/// input stream: a mouse does not become a pen mid-stream.
#[derive(PartialEq, Eq, Clone, Copy, Debug, Structural)]
pub enum PointerType {
    Mouse(MouseInfo),
    Pen(PenInfo),
    Touch(TouchInfo),
}

/// A normalized pointer event: the superset of mouse, pen and touch
/// events.
#[derive(PartialEq, Eq, Clone, Copy, Debug, Structural)]
pub struct PointerEvent {
    /// Identifies one pointer among those concurrently active.
    pub pointer_id: u32,
    /// Whether this is the primary pointer of its kind.
    pub is_primary: bool,
    /// The producing hardware's kind and payload.
    pub pointer_type: PointerType,
    /// Milliseconds of system uptime; meaningful relative to other events.
    pub timestamp: u32,
    /// The event's position.
    pub pos: Point,
    /// Every button held during the event.
    pub buttons: PointerButtons,
    /// Keyboard modifiers held during the event.
    pub modifiers: Modifiers,
    /// The button that changed state on a press or release; always
    /// `NoButton` on moves and touches.
    pub button: PointerButton,
    /// Whether the event caused the window to gain focus.
    pub focus: bool,
    /// The click (tap) count of the event.
    pub count: u8,
}

impl Default for PointerEvent {
    /// A primary mouse pointer at the origin with nothing held, no wheel
    /// motion and no button change.
    fn default() -> (r: PointerEvent)
        ensures
            r.pointer_id == 0,
            r.is_primary == true,
            r.pointer_type == PointerType::Mouse(
                (MouseInfo {
                    wheel_delta: (Vec2 { x: (Scalar64 { bits: 0 }), y: (Scalar64 { bits: 0 }) }),
                }),
            ),
            r.timestamp == 0,
            r.pos == (Point { x: (Scalar64 { bits: 0 }), y: (Scalar64 { bits: 0 }) }),
            r.buttons.bits() == 0,
            r.modifiers == (Modifiers { bits: 0 }),
            r.button == PointerButton::NoButton,
            r.focus == false,
            r.count == 0,
    {
        PointerEvent {
            pointer_id: 0,
            is_primary: true,
            pointer_type: PointerType::Mouse(MouseInfo { wheel_delta: Vec2::default() }),
            timestamp: 0,
            pos: Point::default(),
            buttons: PointerButtons::new(),
            modifiers: Modifiers::default(),
            button: PointerButton::NoButton,
            focus: false,
            count: 0,
        }
    }
}

impl PointerEvent {
    /// Whether the event came from a touch contact.
    pub fn is_touch(&self) -> (r: bool)
        ensures
            r == (self.pointer_type is Touch),
    {
        match self.pointer_type {
            PointerType::Touch(_) => true,
            _ => false,
        }
    }

    /// Whether the event came from a mouse.
    pub fn is_mouse(&self) -> (r: bool)
        ensures
            r == (self.pointer_type is Mouse),
    {
        match self.pointer_type {
            PointerType::Mouse(_) => true,
            _ => false,
        }
    }

    /// Whether the event came from a pen.
    pub fn is_pen(&self) -> (r: bool)
        ensures
            r == (self.pointer_type is Pen),
    {
        match self.pointer_type {
            PointerType::Pen(_) => true,
            _ => false,
        }
    }
}

} // verus!
