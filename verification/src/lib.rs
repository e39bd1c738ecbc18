//! Core of an animation system: a pose-blending state machine driven by a
//! shared parameter table, together with the renderer bookkeeping types that
//! accompany it.
//!
//! The centrepiece is [`machine::Machine`]: it owns an arena of pose-graph
//! nodes, an arena of named states, an arena of timed transitions, a
//! parameter table and a bounded event queue, and advances all of them once
//! per frame. The whole frame is specified as a function of the machine's
//! mathematical view ([`machine::spec_evaluate`]), the per-frame update is
//! proved to implement it exactly, and the machine-wide laws — timer bounds,
//! reset idempotence, determinism, first-match transition selection — are
//! proved in [`laws`].
//!
//! Everything is stated over exact values:
//!
//! - time is counted in integer ticks of the caller's chosen unit, so a
//!   transition's blend factor is the exact ratio of two tick counts;
//! - blend weights and blend factors are exact integer ratios
//!   ([`scalar::Scalar`]);
//! - a pose records what was blended into it — an optional raw sample tag
//!   plus the ordered list of weighted folds ([`pose::Pose`]) — since
//!   sampling an animation clip, like everything behind the graphics
//!   backend, is an external concern.

pub mod animation;
pub mod bloom;
pub mod events;
pub mod framework;
pub mod laws;
pub mod luminance;
pub mod machine;
pub mod nodes;
pub mod occlusion;
pub mod params;
pub mod pool;
pub mod pose;
pub mod scalar;
pub mod shaders;
pub mod stats;
pub mod tilemap;
