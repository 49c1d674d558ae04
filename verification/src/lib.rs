//! Verified core of a networked media display: a scene of textured screens whose
//! contents follow a timeline driven by a transport clock.
//!
//! Time is exact integer arithmetic throughout. Timeline positions are signed
//! counts of nanoseconds, wall-clock instants are unsigned counts of microseconds
//! on a monotonic clock, and a playback rate is the number of nanoseconds the
//! timeline advances per wall-clock microsecond. Geometry is carried as raw
//! IEEE-754 bit patterns and is never interpreted here.
pub mod control;
pub mod convert;
pub mod document;
pub mod media;
pub mod project;
pub mod render;
pub mod scene;
pub mod state;
pub mod text;
pub mod timeline;
pub mod transport;
