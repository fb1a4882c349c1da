//! Pen (stylus) inclination: the dual tilt / azimuth-altitude representation
//! and the exact part of the conversion between them.
//!
//! An inclination is stored as whichever form the source hardware reported;
//! the other form is computed on demand, never eagerly, to avoid double
//! rounding.  The conversion's case analysis (which axis or boundary branch
//! applies, and the octant table used when the pen lies in the surface
//! plane) is integer logic and is verified here.  Only the general-case
//! trigonometry is left to the embedder, which carries angles through this
//! core as opaque bit patterns.

use vstd::prelude::*;

verus! {

/// An IEEE-754 single-precision value carried by its bit pattern.
///
/// The verified core stores and compares such values but never does
/// arithmetic on them; the embedder converts with `to_bits`/`from_bits`.
#[derive(PartialEq, Eq, Clone, Copy, Debug, Structural)]
pub struct Scalar32 {
    pub bits: u32,
}

/// Bit pattern of the single-precision value 0.0.
pub const ANGLE_ZERO_BITS: u32 = 0;

/// Bit pattern of the single-precision value of pi / 2.
pub const ANGLE_HALF_PI_BITS: u32 = 0x3FC90FDB;

/// Bit pattern of the single-precision value of pi.
pub const ANGLE_PI_BITS: u32 = 0x40490FDB;

/// Bit pattern of the single-precision value of 3 * pi / 2, as computed by
/// multiplying the single-precision pi by 3 and halving.
pub const ANGLE_THREE_HALF_PI_BITS: u32 = 0x4096CBE4;

/// Pen inclination as spherical angles, both in radians.
#[derive(PartialEq, Eq, Clone, Copy, Debug, Structural)]
pub struct PenInclinationAzimuthAltitude {
    pub azimuth_angle: Scalar32,
    pub altitude_angle: Scalar32,
}

/// Pen inclination as per-axis tilt, both in degrees in [-90, 90].
#[derive(PartialEq, Eq, Clone, Copy, Debug, Structural)]
pub struct PenInclinationTilt {
    pub tilt_x: i32,
    pub tilt_y: i32,
}

/// Pen inclination, stored as whatever the platform reported: either tilt
/// angles in degrees, or an azimuth/altitude pair in radians.
#[derive(PartialEq, Eq, Clone, Copy, Debug, Structural)]
pub enum PenInclination {
    /// Tilt over the X and Y axes, in degrees in [-90, 90].
    Tilt(i32, i32),
    /// Azimuth and altitude angles, in radians.
    AzimuthAltitude(Scalar32, Scalar32),
}

/// The tilt-to-spherical conversions that need no trigonometry: the pole
/// (either tilt at magnitude 90) and the rest position, where the angles
/// are axis constants.  Elsewhere the result is transcendental and the
/// conversion is left to the embedder, guided by `classify_azimuth` and
/// `classify_altitude`.
pub open spec fn spec_tilt_to_spherical_exact(tilt_x: int, tilt_y: int) -> Option<
    PenInclinationAzimuthAltitude,
> {
    if tilt_x == 0 && tilt_y == 0 {
        Some(
            (PenInclinationAzimuthAltitude {
                azimuth_angle: (Scalar32 { bits: ANGLE_ZERO_BITS }),
                altitude_angle: (Scalar32 { bits: ANGLE_HALF_PI_BITS }),
            }),
        )
    } else if tilt_x == 0 && tilt_y == 90 {
        Some(
            (PenInclinationAzimuthAltitude {
                azimuth_angle: (Scalar32 { bits: ANGLE_HALF_PI_BITS }),
                altitude_angle: (Scalar32 { bits: ANGLE_ZERO_BITS }),
            }),
        )
    } else if tilt_x == 0 && tilt_y == -90 {
        Some(
            (PenInclinationAzimuthAltitude {
                azimuth_angle: (Scalar32 { bits: ANGLE_THREE_HALF_PI_BITS }),
                altitude_angle: (Scalar32 { bits: ANGLE_ZERO_BITS }),
            }),
        )
    } else if tilt_y == 0 && tilt_x == 90 {
        Some(
            (PenInclinationAzimuthAltitude {
                azimuth_angle: (Scalar32 { bits: ANGLE_ZERO_BITS }),
                altitude_angle: (Scalar32 { bits: ANGLE_ZERO_BITS }),
            }),
        )
    } else if tilt_y == 0 && tilt_x == -90 {
        Some(
            (PenInclinationAzimuthAltitude {
                azimuth_angle: (Scalar32 { bits: ANGLE_PI_BITS }),
                altitude_angle: (Scalar32 { bits: ANGLE_ZERO_BITS }),
            }),
        )
    } else if tilt_x == 90 || tilt_x == -90 || tilt_y == 90 || tilt_y == -90 {
        Some(
            (PenInclinationAzimuthAltitude {
                azimuth_angle: (Scalar32 { bits: ANGLE_ZERO_BITS }),
                altitude_angle: (Scalar32 { bits: ANGLE_ZERO_BITS }),
            }),
        )
    } else {
        None
    }
}

impl PenInclination {
    /// Whether the stored representation satisfies the tilt range bound.
    pub open spec fn wf(self) -> bool {
        self matches PenInclination::Tilt(x, y) ==> -90 <= x <= 90 && -90 <= y <= 90
    }

    /// Store a tilt pair, in degrees.
    pub fn from_tilt(tilt_x: i32, tilt_y: i32) -> (r: PenInclination)
        requires
            -90 <= tilt_x <= 90,
            -90 <= tilt_y <= 90,
        ensures
            r == PenInclination::Tilt(tilt_x, tilt_y),
            r.wf(),
    {
        PenInclination::Tilt(tilt_x, tilt_y)
    }

    /// Store an azimuth/altitude pair, in radians.
    pub fn from_angle(azimuth_angle: Scalar32, altitude_angle: Scalar32) -> (r: PenInclination)
        ensures
            r == PenInclination::AzimuthAltitude(azimuth_angle, altitude_angle),
            r.wf(),
    {
        PenInclination::AzimuthAltitude(azimuth_angle, altitude_angle)
    }

    /// The tilt form, where it needs no conversion: `Some` exactly for a
    /// stored tilt.
    pub open spec fn spec_tilt(self) -> Option<PenInclinationTilt> {
        match self {
            PenInclination::Tilt(x, y) => Some((PenInclinationTilt { tilt_x: x, tilt_y: y })),
            PenInclination::AzimuthAltitude(_, _) => None,
        }
    }

    /// The azimuth/altitude form, where it needs no trigonometry: the
    /// stored pair itself, or the exact boundary conversions of a stored
    /// tilt.
    pub open spec fn spec_azimuth_altitude(self) -> Option<PenInclinationAzimuthAltitude> {
        match self {
            PenInclination::AzimuthAltitude(az, al) => Some(
                (PenInclinationAzimuthAltitude { azimuth_angle: az, altitude_angle: al }),
            ),
            PenInclination::Tilt(x, y) => spec_tilt_to_spherical_exact(x as int, y as int),
        }
    }

    /// The tilt form, where it needs no conversion.  A stored tilt comes
    /// back exactly; a stored azimuth/altitude pair needs trigonometry
    /// (`octant_tilt` covers its zero-altitude case), so the embedder
    /// converts it and `None` is returned here.
    pub fn tilt(&self) -> (r: Option<PenInclinationTilt>)
        ensures
            r == self.spec_tilt(),
    {
        match *self {
            PenInclination::Tilt(tilt_x, tilt_y) => Some(PenInclinationTilt { tilt_x, tilt_y }),
            PenInclination::AzimuthAltitude(_, _) => None,
        }
    }

    /// The azimuth/altitude form, where it needs no trigonometry.  A stored
    /// pair comes back exactly.  A stored tilt converts exactly on the
    /// boundary cases (either tilt at magnitude 90 yields the pole, where
    /// both angles are defined as zero, and the rest position yields the
    /// vertical); elsewhere the embedder computes the transcendental
    /// branches chosen by `classify_azimuth` and `classify_altitude`, and
    /// `None` is returned here.
    pub fn azimuth_altitude(&self) -> (r: Option<PenInclinationAzimuthAltitude>)
        ensures
            r == self.spec_azimuth_altitude(),
    {
        match *self {
            PenInclination::AzimuthAltitude(azimuth_angle, altitude_angle) => Some(
                PenInclinationAzimuthAltitude { azimuth_angle, altitude_angle },
            ),
            PenInclination::Tilt(tilt_x, tilt_y) => {
                if tilt_x == 0 && tilt_y == 0 {
                    Some(
                        PenInclinationAzimuthAltitude {
                            azimuth_angle: Scalar32 { bits: ANGLE_ZERO_BITS },
                            altitude_angle: Scalar32 { bits: ANGLE_HALF_PI_BITS },
                        },
                    )
                } else if tilt_x == 0 && tilt_y == 90 {
                    Some(
                        PenInclinationAzimuthAltitude {
                            azimuth_angle: Scalar32 { bits: ANGLE_HALF_PI_BITS },
                            altitude_angle: Scalar32 { bits: ANGLE_ZERO_BITS },
                        },
                    )
                } else if tilt_x == 0 && tilt_y == -90 {
                    Some(
                        PenInclinationAzimuthAltitude {
                            azimuth_angle: Scalar32 { bits: ANGLE_THREE_HALF_PI_BITS },
                            altitude_angle: Scalar32 { bits: ANGLE_ZERO_BITS },
                        },
                    )
                } else if tilt_y == 0 && tilt_x == 90 {
                    Some(
                        PenInclinationAzimuthAltitude {
                            azimuth_angle: Scalar32 { bits: ANGLE_ZERO_BITS },
                            altitude_angle: Scalar32 { bits: ANGLE_ZERO_BITS },
                        },
                    )
                } else if tilt_y == 0 && tilt_x == -90 {
                    Some(
                        PenInclinationAzimuthAltitude {
                            azimuth_angle: Scalar32 { bits: ANGLE_PI_BITS },
                            altitude_angle: Scalar32 { bits: ANGLE_ZERO_BITS },
                        },
                    )
                } else if tilt_x == 90 || tilt_x == -90 || tilt_y == 90 || tilt_y == -90 {
                    Some(
                        PenInclinationAzimuthAltitude {
                            azimuth_angle: Scalar32 { bits: ANGLE_ZERO_BITS },
                            altitude_angle: Scalar32 { bits: ANGLE_ZERO_BITS },
                        },
                    )
                } else {
                    None
                }
            },
        }
    }
}

/// Which branch of the tilt-to-spherical conversion yields the azimuth.
#[derive(PartialEq, Eq, Clone, Copy, Debug, Structural)]
pub enum AzimuthCase {
    /// The azimuth is 0: the tilt leans along the positive X axis.
    Zero,
    /// The azimuth is pi / 2: tilt only over the positive Y axis.
    QuarterTurn,
    /// The azimuth is pi: tilt only along the negative X axis.
    HalfTurn,
    /// The azimuth is 3 * pi / 2: tilt only over the negative Y axis.
    ThreeQuarterTurn,
    /// A tilt at magnitude 90 with both components nonzero: not enough
    /// information, and the azimuth is defined as 0.
    Indeterminate,
    /// The general case: atan2 of the two tilt tangents, normalized into
    /// [0, 2 * pi).
    General,
}

/// The azimuth branch for a tilt pair, with the branches tried in the same
/// order as the conversion defines them: the X-axis cases first, then the
/// Y-axis cases, then the magnitude-90 boundary, then the general case.
pub open spec fn spec_azimuth_case(tilt_x: int, tilt_y: int) -> AzimuthCase {
    if tilt_x == 0 {
        if tilt_y > 0 {
            AzimuthCase::QuarterTurn
        } else if tilt_y < 0 {
            AzimuthCase::ThreeQuarterTurn
        } else {
            AzimuthCase::Zero
        }
    } else if tilt_y == 0 {
        if tilt_x < 0 {
            AzimuthCase::HalfTurn
        } else {
            AzimuthCase::Zero
        }
    } else if tilt_x == 90 || tilt_x == -90 || tilt_y == 90 || tilt_y == -90 {
        AzimuthCase::Indeterminate
    } else {
        AzimuthCase::General
    }
}

/// Classify which azimuth branch applies to a tilt pair.
pub fn classify_azimuth(tilt_x: i32, tilt_y: i32) -> (r: AzimuthCase)
    requires
        -90 <= tilt_x <= 90,
        -90 <= tilt_y <= 90,
    ensures
        r == spec_azimuth_case(tilt_x as int, tilt_y as int),
{
    if tilt_x == 0 {
        if tilt_y > 0 {
            AzimuthCase::QuarterTurn
        } else if tilt_y < 0 {
            AzimuthCase::ThreeQuarterTurn
        } else {
            AzimuthCase::Zero
        }
    } else if tilt_y == 0 {
        if tilt_x < 0 {
            AzimuthCase::HalfTurn
        } else {
            AzimuthCase::Zero
        }
    } else if tilt_x == 90 || tilt_x == -90 || tilt_y == 90 || tilt_y == -90 {
        AzimuthCase::Indeterminate
    } else {
        AzimuthCase::General
    }
}

/// The azimuth angle each non-general branch yields, as single-precision
/// bits: the axis branches give the four quarter-turn constants, the
/// indeterminate pole gives zero, and only the general branch computes.
pub open spec fn spec_azimuth_case_angle(case: AzimuthCase) -> Option<Scalar32> {
    match case {
        AzimuthCase::Zero => Some((Scalar32 { bits: ANGLE_ZERO_BITS })),
        AzimuthCase::QuarterTurn => Some((Scalar32 { bits: ANGLE_HALF_PI_BITS })),
        AzimuthCase::HalfTurn => Some((Scalar32 { bits: ANGLE_PI_BITS })),
        AzimuthCase::ThreeQuarterTurn => Some((Scalar32 { bits: ANGLE_THREE_HALF_PI_BITS })),
        AzimuthCase::Indeterminate => Some((Scalar32 { bits: ANGLE_ZERO_BITS })),
        AzimuthCase::General => None,
    }
}

/// The azimuth constant for a non-general branch (so, by
/// `classify_azimuth`, for every axis tilt: tilt (0, 30) yields the
/// quarter turn, tilt (-20, 0) the half turn, and so on); `None` exactly
/// for the general branch, whose transcendental value the embedder
/// computes.
pub fn azimuth_case_angle(case: AzimuthCase) -> (r: Option<Scalar32>)
    ensures
        r == spec_azimuth_case_angle(case),
        (r is None) == (case is General),
{
    match case {
        AzimuthCase::Zero => Some(Scalar32 { bits: ANGLE_ZERO_BITS }),
        AzimuthCase::QuarterTurn => Some(Scalar32 { bits: ANGLE_HALF_PI_BITS }),
        AzimuthCase::HalfTurn => Some(Scalar32 { bits: ANGLE_PI_BITS }),
        AzimuthCase::ThreeQuarterTurn => Some(Scalar32 { bits: ANGLE_THREE_HALF_PI_BITS }),
        AzimuthCase::Indeterminate => Some(Scalar32 { bits: ANGLE_ZERO_BITS }),
        AzimuthCase::General => None,
    }
}

/// Which branch of the tilt-to-spherical conversion yields the altitude.
#[derive(PartialEq, Eq, Clone, Copy, Debug, Structural)]
pub enum AltitudeCase {
    /// A tilt at magnitude 90: the pen lies in the surface plane and the
    /// altitude is defined as 0.
    Horizon,
    /// No X tilt: the altitude is pi / 2 minus the absolute Y tilt in
    /// radians.
    ComplementOfTiltY,
    /// No Y tilt: the altitude is pi / 2 minus the absolute X tilt in
    /// radians.
    ComplementOfTiltX,
    /// The general case: atan of the reciprocal root of the summed squared
    /// tilt tangents.
    General,
}

/// The altitude branch for a tilt pair: the magnitude-90 boundary first,
/// then the axis cases, then the general case.
pub open spec fn spec_altitude_case(tilt_x: int, tilt_y: int) -> AltitudeCase {
    if tilt_x == 90 || tilt_x == -90 || tilt_y == 90 || tilt_y == -90 {
        AltitudeCase::Horizon
    } else if tilt_x == 0 {
        AltitudeCase::ComplementOfTiltY
    } else if tilt_y == 0 {
        AltitudeCase::ComplementOfTiltX
    } else {
        AltitudeCase::General
    }
}

/// Classify which altitude branch applies to a tilt pair.
pub fn classify_altitude(tilt_x: i32, tilt_y: i32) -> (r: AltitudeCase)
    requires
        -90 <= tilt_x <= 90,
        -90 <= tilt_y <= 90,
    ensures
        r == spec_altitude_case(tilt_x as int, tilt_y as int),
{
    if tilt_x == 90 || tilt_x == -90 || tilt_y == 90 || tilt_y == -90 {
        AltitudeCase::Horizon
    } else if tilt_x == 0 {
        AltitudeCase::ComplementOfTiltY
    } else if tilt_y == 0 {
        AltitudeCase::ComplementOfTiltX
    } else {
        AltitudeCase::General
    }
}

/// Where an azimuth angle lies relative to the four surface-plane axes.
/// The embedder classifies the (floating-point) azimuth into one of these
/// when the altitude is zero, and `octant_tilt` yields the tilt pattern.
#[derive(PartialEq, Eq, Clone, Copy, Debug, Structural)]
pub enum AzimuthOctant {
    /// Exactly 0 or a full turn: the pen points along the positive X axis.
    PositiveX,
    /// Strictly between 0 and a quarter turn.
    FirstQuadrant,
    /// Exactly a quarter turn: along the positive Y axis.
    PositiveY,
    /// Strictly between a quarter and a half turn.
    SecondQuadrant,
    /// Exactly a half turn: along the negative X axis.
    NegativeX,
    /// Strictly between a half and three quarters of a turn.
    ThirdQuadrant,
    /// Exactly three quarters of a turn: along the negative Y axis.
    NegativeY,
    /// Strictly between three quarters of a turn and a full turn.
    FourthQuadrant,
    /// Outside [0, full turn]: no pattern matches and both tilts stay 0.
    OutOfRange,
}

/// The tilt pattern for a pen lying in the surface plane, by azimuth
/// octant.  Each component is -90, 0 or +90 degrees.
pub open spec fn spec_octant_tilt(octant: AzimuthOctant) -> PenInclinationTilt {
    match octant {
        AzimuthOctant::PositiveX => PenInclinationTilt { tilt_x: 90i32, tilt_y: 0i32 },
        AzimuthOctant::FirstQuadrant => PenInclinationTilt { tilt_x: 90i32, tilt_y: 90i32 },
        AzimuthOctant::PositiveY => PenInclinationTilt { tilt_x: 0i32, tilt_y: 90i32 },
        AzimuthOctant::SecondQuadrant => PenInclinationTilt { tilt_x: -90i32, tilt_y: 90i32 },
        AzimuthOctant::NegativeX => PenInclinationTilt { tilt_x: -90i32, tilt_y: 0i32 },
        AzimuthOctant::ThirdQuadrant => PenInclinationTilt { tilt_x: -90i32, tilt_y: -90i32 },
        AzimuthOctant::NegativeY => PenInclinationTilt { tilt_x: 0i32, tilt_y: -90i32 },
        AzimuthOctant::FourthQuadrant => PenInclinationTilt { tilt_x: 90i32, tilt_y: -90i32 },
        AzimuthOctant::OutOfRange => PenInclinationTilt { tilt_x: 0i32, tilt_y: 0i32 },
    }
}

/// The spherical-to-tilt conversion at zero altitude: the pen lies in the
/// surface plane and the tilt is one of eight axis or quadrant patterns.
pub fn octant_tilt(octant: AzimuthOctant) -> (r: PenInclinationTilt)
    ensures
        r == spec_octant_tilt(octant),
        -90 <= r.tilt_x <= 90,
        -90 <= r.tilt_y <= 90,
{
    match octant {
        AzimuthOctant::PositiveX => PenInclinationTilt { tilt_x: 90, tilt_y: 0 },
        AzimuthOctant::FirstQuadrant => PenInclinationTilt { tilt_x: 90, tilt_y: 90 },
        AzimuthOctant::PositiveY => PenInclinationTilt { tilt_x: 0, tilt_y: 90 },
        AzimuthOctant::SecondQuadrant => PenInclinationTilt { tilt_x: -90, tilt_y: 90 },
        AzimuthOctant::NegativeX => PenInclinationTilt { tilt_x: -90, tilt_y: 0 },
        AzimuthOctant::ThirdQuadrant => PenInclinationTilt { tilt_x: -90, tilt_y: -90 },
        AzimuthOctant::NegativeY => PenInclinationTilt { tilt_x: 0, tilt_y: -90 },
        AzimuthOctant::FourthQuadrant => PenInclinationTilt { tilt_x: 90, tilt_y: -90 },
        AzimuthOctant::OutOfRange => PenInclinationTilt { tilt_x: 0, tilt_y: 0 },
    }
}

/// Round-trip law for the stored representations: a tilt pair stored by
/// `from_tilt` reads back exactly through `tilt`, and an angle pair stored
/// by `from_angle` reads back exactly through `azimuth_altitude`, with no
/// conversion in either direction.
pub proof fn lemma_inclination_round_trip(
    tilt_x: i32,
    tilt_y: i32,
    azimuth_angle: Scalar32,
    altitude_angle: Scalar32,
)
    ensures
        PenInclination::Tilt(tilt_x, tilt_y).spec_tilt() == Some(
            (PenInclinationTilt { tilt_x, tilt_y }),
        ),
        PenInclination::AzimuthAltitude(azimuth_angle, altitude_angle).spec_azimuth_altitude()
            == Some((PenInclinationAzimuthAltitude { azimuth_angle, altitude_angle })),
{
}

/// Degenerate-pole law: whatever the Y tilt, a tilt pair with the X tilt at
/// 90 degrees converts exactly, and both resulting angles are zero.
pub proof fn lemma_pole_tilt_converts_to_zero(tilt_x: i32, tilt_y: i32)
    requires
        tilt_x == 90,
        -90 <= tilt_y <= 90,
    ensures
        PenInclination::Tilt(tilt_x, tilt_y).spec_azimuth_altitude() matches Some(r)
            && r.altitude_angle == (Scalar32 { bits: ANGLE_ZERO_BITS }) && r.azimuth_angle == (
        Scalar32 { bits: ANGLE_ZERO_BITS }),
{
}

} // verus!
