//! Verified core of a multi-camera marker-location service: pose remapping
//! from the detector's camera-frame convention into the robot convention,
//! per-camera pipeline planning with failure isolation, and the cooperative
//! lifecycle coordinator that drives startup and shutdown.
//!
//! Frame acquisition, image transforms, marker detection and network
//! publishing are supplied by an external capture/transport framework and an
//! external detector; the host process performs those calls and hands this
//! crate plain values (detection records with scalars as IEEE-754 bit
//! patterns, per-step success or failure). Everything this crate decides —
//! which stages a pipeline runs, which pipelines survive a failed step, how a
//! solved pose is remapped, when the process must abort and in what order
//! running pipelines are stopped — is stated in contracts and proved.

pub mod frame;
pub mod lifecycle;
pub mod locate;
pub mod pipeline;
pub mod pose;
