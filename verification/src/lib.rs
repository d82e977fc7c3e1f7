//! Reconstruction of higher-level input semantics from a stream of raw
//! input-device events.
//!
//! Each key press is paired with its matching release into a timed
//! [`event::Action`]; actions whose hold intervals overlap (chained through
//! the moments at which some key is still held) are grouped into a
//! [`group::ParallelActionSet`]; sealed sets accumulate, in order, in a
//! [`group::History`]. The whole pipeline is driven one event at a time
//! through [`recorder::Recorder::push_event`].

pub mod correlator;
pub mod event;
pub mod group;
pub mod laws;
pub mod model;
pub mod recorder;
