//! Core of a single-threaded windowing-backend event loop.
//!
//! The crate models the pieces of such a backend that are pure logic:
//! a normalized pointer-event data model (buttons, pen inclination),
//! a timer subsystem ordered by earliest deadline, a registry of live
//! window surfaces with an active-surface stack, and the decision core
//! of the event-loop driver that ties them together.  Display-server
//! I/O, the blocking poll and floating-point trigonometry are left to
//! the embedding program, which drives this core through plain values.

mod driver;
mod error;
mod event;
mod inclination;
mod locale;
mod pointer;
mod registry;
mod timer;

pub use driver::EventLoopDriver;
pub use driver::TimerDelivery;
pub use driver::TimerDispatch;
pub use driver::TICK_INTERVAL_MS;
pub use driver::spec_after_drain;
pub use driver::spec_deliveries;
pub use driver::spec_expired;
pub use driver::spec_stale;
pub use error::Error;
pub use event::Modifiers;
pub use event::MouseInfo;
pub use event::PenInfo;
pub use event::Point;
pub use event::PointerEvent;
pub use event::PointerType;
pub use event::Scalar64;
pub use event::Size;
pub use event::TouchInfo;
pub use event::Vec2;
pub use event::SCALAR32_HALF_BITS;
pub use event::SCALAR64_ONE_BITS;
pub use inclination::AltitudeCase;
pub use inclination::AzimuthCase;
pub use inclination::AzimuthOctant;
pub use inclination::PenInclination;
pub use inclination::PenInclinationAzimuthAltitude;
pub use inclination::PenInclinationTilt;
pub use inclination::Scalar32;
pub use inclination::classify_altitude;
pub use inclination::classify_azimuth;
pub use inclination::octant_tilt;
pub use inclination::spec_altitude_case;
pub use inclination::spec_azimuth_case;
pub use inclination::spec_octant_tilt;
pub use inclination::spec_azimuth_case_angle;
pub use inclination::azimuth_case_angle;
pub use inclination::spec_tilt_to_spherical_exact;
pub use inclination::lemma_inclination_round_trip;
pub use inclination::lemma_pole_tilt_converts_to_zero;
pub use inclination::ANGLE_ZERO_BITS;
pub use inclination::ANGLE_HALF_PI_BITS;
pub use inclination::ANGLE_PI_BITS;
pub use inclination::ANGLE_THREE_HALF_PI_BITS;
pub use locale::normalize_locale;
pub use locale::spec_default_locale;
pub use locale::spec_locale_map_byte;
pub use locale::spec_locale_tag;
pub use locale::spec_normalize_locale;
pub use locale::LOCALE_CODESET_MARK;
pub use locale::LOCALE_HYPHEN;
pub use locale::LOCALE_MODIFIER_MARK;
pub use locale::LOCALE_UNDERSCORE;
pub use pointer::PointerButton;
pub use pointer::lemma_button_count_insert;
pub use pointer::lemma_button_set_pointwise;
pub use pointer::lemma_button_set_round_trip;
pub use pointer::lemma_none_button_no_op;
pub use pointer::PointerButtons;
pub use registry::SurfaceRegistry;
pub use registry::WindowHandle;
pub use registry::ord_map_entries;
pub use registry::spec_prune;
pub use registry::lemma_prune_props;
pub use registry::lemma_register_then_lookup;
pub use registry::lemma_unregister_prunes_active;
pub use timer::Timer;
pub use timer::TimerQueue;
pub use timer::TimerToken;
pub use timer::timer_before;
pub use timer::spec_insert_by_deadline;
pub use timer::lemma_drain_split_exact;
