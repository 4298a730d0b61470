//! The coarse states of tracking and of the processing pipeline, and the
//! response curve choices of the axis mapping.
use vstd::prelude::*;

verus! {

/// Whether a face is being tracked.
#[derive(Debug, Clone, Copy, PartialEq, Eq, Structural)]
pub enum TrackingState {
    Active,
    Inactive,
    Lost,
}

impl Default for TrackingState {
    fn default() -> (s: Self)
        ensures
            s == TrackingState::Inactive,
    {
        TrackingState::Inactive
    }
}

/// Whether the pipeline runs.
#[derive(Debug, Clone, Copy, PartialEq, Eq, Structural)]
pub enum PipelineState {
    Running,
    Paused,
    Stopped,
}

impl Default for PipelineState {
    fn default() -> (s: Self)
        ensures
            s == PipelineState::Stopped,
    {
        PipelineState::Stopped
    }
}

/// The shape of the curve applied to an axis after the deadzone.
#[derive(Debug, Clone, Copy, PartialEq, Eq, Structural)]
pub enum ResponseCurvePreset {
    Linear,
    Smooth,
    Aggressive,
}

} // verus!
