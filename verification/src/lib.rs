//! Frame timing and same-frame cross-device transfer engine.

pub mod bridge;
pub mod completion;
pub mod copy;
pub mod copy_answers;
pub mod copy_inputs;
pub mod copy_invariant;
pub mod copy_laws;
pub mod copy_progress;
pub mod copy_stages;
pub mod damage;
pub mod device;
pub mod error;
pub mod geometry;
pub mod histogram;
pub mod histogram_laws;
pub mod modifiers;
pub mod names;
pub mod negotiation;
pub mod outside;
pub mod record;
pub mod resources;
pub mod session;
pub mod setup;
pub mod timing;
pub mod timing_laws;
pub mod timing_series;
pub mod transfer;
pub mod validate;
