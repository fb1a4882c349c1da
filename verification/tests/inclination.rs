//! Tests for the pen-inclination representations and the exact part of
//! their conversion.

use std::f32::consts::PI;
use std::f32::consts::TAU;

use winloop::AltitudeCase;
use winloop::AzimuthCase;
use winloop::AzimuthOctant;
use winloop::PenInclination;
use winloop::PenInclinationAzimuthAltitude;
use winloop::PenInclinationTilt;
use winloop::Scalar32;
use winloop::azimuth_case_angle;
use winloop::classify_altitude;
use winloop::classify_azimuth;
use winloop::octant_tilt;
use winloop::ANGLE_HALF_PI_BITS;
use winloop::ANGLE_PI_BITS;
use winloop::ANGLE_THREE_HALF_PI_BITS;
use winloop::ANGLE_ZERO_BITS;

fn angle(x: f32) -> Scalar32 {
    Scalar32 { bits: x.to_bits() }
}

#[test]
fn angle_constants_match_single_precision_values() {
    assert_eq!(ANGLE_ZERO_BITS, 0.0f32.to_bits());
    assert_eq!(ANGLE_HALF_PI_BITS, (PI / 2.0).to_bits());
    assert_eq!(ANGLE_PI_BITS, PI.to_bits());
    assert_eq!(ANGLE_THREE_HALF_PI_BITS, (3.0 * PI / 2.0).to_bits());
}

#[test]
fn tilt_round_trip_is_exact() {
    let inc = PenInclination::from_tilt(30, -40);
    assert_eq!(
        inc.tilt(),
        Some(PenInclinationTilt { tilt_x: 30, tilt_y: -40 })
    );
    let rest = PenInclination::from_tilt(0, 0);
    assert_eq!(rest.tilt(), Some(PenInclinationTilt { tilt_x: 0, tilt_y: 0 }));
}

#[test]
fn angle_round_trip_is_exact() {
    let inc = PenInclination::from_angle(angle(1.25), angle(0.5));
    assert_eq!(
        inc.azimuth_altitude(),
        Some(PenInclinationAzimuthAltitude {
            azimuth_angle: angle(1.25),
            altitude_angle: angle(0.5),
        })
    );
    // The stored form is returned bit for bit, with no conversion pass.
    let odd = PenInclination::from_angle(angle(-0.0), angle(TAU));
    let back = odd.azimuth_altitude().unwrap();
    assert_eq!(back.azimuth_angle.bits, (-0.0f32).to_bits());
    assert_eq!(back.altitude_angle.bits, TAU.to_bits());
}

#[test]
fn mixed_accessors_defer_conversion() {
    // A stored angle pair has no exact tilt form, and a stored tilt away
    // from the boundary has no exact spherical form: the embedder computes
    // those with trigonometry.
    assert_eq!(PenInclination::from_angle(angle(0.3), angle(0.7)).tilt(), None);
    assert_eq!(PenInclination::from_tilt(30, 40).azimuth_altitude(), None);
    assert_eq!(PenInclination::from_tilt(0, 30).azimuth_altitude(), None);
}

#[test]
fn pole_tilt_converts_to_zero_angles() {
    for tilt_y in [-90, -30, 0, 45, 90] {
        let conv = PenInclination::from_tilt(90, tilt_y).azimuth_altitude();
        assert_eq!(
            conv,
            Some(PenInclinationAzimuthAltitude {
                azimuth_angle: Scalar32 { bits: 0 },
                altitude_angle: Scalar32 { bits: 0 },
            }),
            "tilt_y = {tilt_y}"
        );
    }
}

#[test]
fn boundary_tilts_convert_exactly() {
    let cases = [
        ((0, 0), (ANGLE_ZERO_BITS, ANGLE_HALF_PI_BITS)),
        ((0, 90), (ANGLE_HALF_PI_BITS, ANGLE_ZERO_BITS)),
        ((0, -90), (ANGLE_THREE_HALF_PI_BITS, ANGLE_ZERO_BITS)),
        ((90, 0), (ANGLE_ZERO_BITS, ANGLE_ZERO_BITS)),
        ((-90, 0), (ANGLE_PI_BITS, ANGLE_ZERO_BITS)),
        ((-90, 45), (ANGLE_ZERO_BITS, ANGLE_ZERO_BITS)),
        ((45, 90), (ANGLE_ZERO_BITS, ANGLE_ZERO_BITS)),
    ];
    for ((tx, ty), (az, al)) in cases {
        let conv = PenInclination::from_tilt(tx, ty).azimuth_altitude();
        assert_eq!(
            conv,
            Some(PenInclinationAzimuthAltitude {
                azimuth_angle: Scalar32 { bits: az },
                altitude_angle: Scalar32 { bits: al },
            }),
            "tilt ({tx}, {ty})"
        );
    }
}

#[test]
fn azimuth_classification_follows_branch_order() {
    assert_eq!(classify_azimuth(0, 30), AzimuthCase::QuarterTurn);
    assert_eq!(classify_azimuth(0, 90), AzimuthCase::QuarterTurn);
    assert_eq!(classify_azimuth(0, -15), AzimuthCase::ThreeQuarterTurn);
    assert_eq!(classify_azimuth(0, 0), AzimuthCase::Zero);
    assert_eq!(classify_azimuth(-20, 0), AzimuthCase::HalfTurn);
    assert_eq!(classify_azimuth(20, 0), AzimuthCase::Zero);
    assert_eq!(classify_azimuth(90, 0), AzimuthCase::Zero);
    assert_eq!(classify_azimuth(90, 45), AzimuthCase::Indeterminate);
    assert_eq!(classify_azimuth(45, -90), AzimuthCase::Indeterminate);
    assert_eq!(classify_azimuth(30, 40), AzimuthCase::General);
}

#[test]
fn altitude_classification_puts_boundary_first() {
    assert_eq!(classify_altitude(90, 30), AltitudeCase::Horizon);
    assert_eq!(classify_altitude(0, -90), AltitudeCase::Horizon);
    assert_eq!(classify_altitude(0, 30), AltitudeCase::ComplementOfTiltY);
    assert_eq!(classify_altitude(25, 0), AltitudeCase::ComplementOfTiltX);
    assert_eq!(classify_altitude(30, 40), AltitudeCase::General);
}

#[test]
fn octant_table_matches_surface_plane_patterns() {
    let t = |tx: i32, ty: i32| PenInclinationTilt { tilt_x: tx, tilt_y: ty };
    assert_eq!(octant_tilt(AzimuthOctant::PositiveX), t(90, 0));
    assert_eq!(octant_tilt(AzimuthOctant::FirstQuadrant), t(90, 90));
    assert_eq!(octant_tilt(AzimuthOctant::PositiveY), t(0, 90));
    assert_eq!(octant_tilt(AzimuthOctant::SecondQuadrant), t(-90, 90));
    assert_eq!(octant_tilt(AzimuthOctant::NegativeX), t(-90, 0));
    assert_eq!(octant_tilt(AzimuthOctant::ThirdQuadrant), t(-90, -90));
    assert_eq!(octant_tilt(AzimuthOctant::NegativeY), t(0, -90));
    assert_eq!(octant_tilt(AzimuthOctant::FourthQuadrant), t(90, -90));
    assert_eq!(octant_tilt(AzimuthOctant::OutOfRange), t(0, 0));
}

#[test]
fn azimuth_case_table_matches_the_constants() {
    let some = |bits: u32| Some(Scalar32 { bits });
    assert_eq!(azimuth_case_angle(AzimuthCase::Zero), some(ANGLE_ZERO_BITS));
    assert_eq!(azimuth_case_angle(AzimuthCase::QuarterTurn), some(ANGLE_HALF_PI_BITS));
    assert_eq!(azimuth_case_angle(AzimuthCase::HalfTurn), some(ANGLE_PI_BITS));
    assert_eq!(
        azimuth_case_angle(AzimuthCase::ThreeQuarterTurn),
        some(ANGLE_THREE_HALF_PI_BITS)
    );
    assert_eq!(azimuth_case_angle(AzimuthCase::Indeterminate), some(ANGLE_ZERO_BITS));
    assert_eq!(azimuth_case_angle(AzimuthCase::General), None);
    // Composed with the classifier: an axis tilt away from the corners
    // still gets its exact azimuth constant.
    let case = classify_azimuth(0, 30);
    assert_eq!(azimuth_case_angle(case), some((PI / 2.0).to_bits()));
    let case = classify_azimuth(-20, 0);
    assert_eq!(azimuth_case_angle(case), some(PI.to_bits()));
}
