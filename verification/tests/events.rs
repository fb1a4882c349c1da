//! Tests for the normalized pointer-event model.

use winloop::Modifiers;
use winloop::MouseInfo;
use winloop::PenInclination;
use winloop::PenInfo;
use winloop::Point;
use winloop::PointerButton;
use winloop::PointerEvent;
use winloop::PointerType;
use winloop::Scalar32;
use winloop::Scalar64;
use winloop::Size;
use winloop::TouchInfo;
use winloop::Vec2;
use winloop::ANGLE_HALF_PI_BITS;
use winloop::SCALAR32_HALF_BITS;
use winloop::SCALAR64_ONE_BITS;

#[test]
fn scalar_constants_match_ieee_values() {
    assert_eq!(SCALAR32_HALF_BITS, 0.5f32.to_bits());
    assert_eq!(SCALAR64_ONE_BITS, 1.0f64.to_bits());
    assert_eq!(ANGLE_HALF_PI_BITS, (std::f32::consts::PI / 2.0).to_bits());
}

#[test]
fn default_event_is_a_primary_mouse_at_rest() {
    let e = PointerEvent::default();
    assert_eq!(e.pointer_id, 0);
    assert!(e.is_primary);
    assert_eq!(
        e.pointer_type,
        PointerType::Mouse(MouseInfo { wheel_delta: Vec2::default() })
    );
    assert_eq!(e.timestamp, 0);
    assert_eq!(e.pos, Point::default());
    assert!(e.buttons.is_empty());
    assert_eq!(e.modifiers, Modifiers::default());
    assert_eq!(e.button, PointerButton::NoButton);
    assert!(!e.focus);
    assert_eq!(e.count, 0);
}

#[test]
fn default_pen_info_matches_hardware_neutral_values() {
    let p = PenInfo::default();
    assert_eq!(f32::from_bits(p.pressure.bits), 0.5);
    assert_eq!(f32::from_bits(p.tangential_pressure.bits), 0.0);
    assert_eq!(p.twist, 0);
    assert_eq!(
        p.inclination,
        PenInclination::AzimuthAltitude(
            Scalar32 { bits: 0.0f32.to_bits() },
            Scalar32 { bits: (std::f32::consts::PI / 2.0).to_bits() },
        )
    );
}

#[test]
fn default_touch_info_matches_hardware_neutral_values() {
    let t = TouchInfo::default();
    assert_eq!(f32::from_bits(t.pressure.bits), 0.5);
    assert_eq!(f64::from_bits(t.contact_geometry.width.bits), 1.0);
    assert_eq!(f64::from_bits(t.contact_geometry.height.bits), 1.0);
}

#[test]
fn pointer_kind_predicates_match_the_variant() {
    let mouse = PointerEvent::default();
    assert!(mouse.is_mouse());
    assert!(!mouse.is_pen());
    assert!(!mouse.is_touch());

    let mut pen = PointerEvent::default();
    pen.pointer_type = PointerType::Pen(PenInfo::default());
    assert!(pen.is_pen());
    assert!(!pen.is_mouse());
    assert!(!pen.is_touch());

    let mut touch = PointerEvent::default();
    touch.pointer_type = PointerType::Touch(TouchInfo::default());
    assert!(touch.is_touch());
    assert!(!touch.is_mouse());
    assert!(!touch.is_pen());
}

#[test]
fn scalar_payload_round_trips_bit_for_bit() {
    let pos = Point {
        x: Scalar64 { bits: 123.456f64.to_bits() },
        y: Scalar64 { bits: (-7.5f64).to_bits() },
    };
    let mut e = PointerEvent::default();
    e.pos = pos;
    e.pointer_type = PointerType::Touch(TouchInfo {
        contact_geometry: Size {
            width: Scalar64 { bits: 2.5f64.to_bits() },
            height: Scalar64 { bits: 0.25f64.to_bits() },
        },
        pressure: Scalar32 { bits: 0.75f32.to_bits() },
    });
    assert_eq!(f64::from_bits(e.pos.x.bits), 123.456);
    assert_eq!(f64::from_bits(e.pos.y.bits), -7.5);
    match e.pointer_type {
        PointerType::Touch(t) => {
            assert_eq!(f64::from_bits(t.contact_geometry.width.bits), 2.5);
            assert_eq!(f64::from_bits(t.contact_geometry.height.bits), 0.25);
            assert_eq!(f32::from_bits(t.pressure.bits), 0.75);
        }
        _ => unreachable!(),
    }
}
