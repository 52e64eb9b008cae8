//! What a score can say. A trace that could not be scored has no number: it
//! says so, and why.
use core::time::Duration;
use vstd::prelude::*;

verus! {

/// A trace's score, its cohort and the version that scored it.
#[derive(Debug, Clone)]
pub struct Score {
    pub conformity: ManifoldConformity,
    pub cohort_id: String,
    pub lens_core_version: &'static str,
    /// What the detectors reported, for the caller to observe. Empty when no
    /// detector flagged.
    pub detection_events: Vec<DetectionEvent>,
}

/// How a trace lies to its cohort's manifold.
#[allow(inconsistent_fields)]
#[derive(Debug, Clone, Copy)]
pub enum ManifoldConformity {
    /// A distance, as the bits of an IEEE 754 double.
    Numeric(u64),
    /// There is not enough to score against.
    Indeterminate { reason: IndeterminateReason },
    /// Scoring itself failed.
    Unavailable { reason: UnavailableReason },
}

#[derive(Debug, Clone, Copy)]
pub enum IndeterminateReason {
    /// The cohort has no calibrated centroid yet.
    CohortColdStart,
    /// The cohort has fewer samples than are asked for.
    SampleSizeBelowGate { current: u32, gate: u32 },
    /// The classifier could not tell the cohort.
    InferredCohortAmbiguous,
    /// The axis has no operational definition yet.
    AxisAwaitingCalibration { family: AxisFamily },
}

/// A family of axes that awaits its calibration.
#[derive(Debug, Clone, Copy, PartialEq, Eq, Structural)]
pub enum AxisFamily {
    F3CorrelatedAction,
    DistributiveAccess,
}

#[derive(Debug, Clone, Copy)]
pub enum UnavailableReason {
    /// Scoring took longer than it may.
    SloBreach { budget: Duration, observed: Duration },
    /// The cohort's centroid could not be read.
    PersistReadFailure,
    /// A detector panicked.
    DetectorPanic { detector: &'static str },
    /// The score stands, but its signed record does not.
    StewardSignFailure,
}

/// What one detector reported.
#[derive(Debug, Clone)]
pub struct DetectionEvent {
    pub detector: &'static str,
    pub severity: Severity,
    /// SHA-256 of the signed canonical bytes, in hexadecimal.
    pub event_hash: String,
}

#[derive(Debug, Clone, Copy, PartialEq, Eq, Structural)]
pub enum Severity {
    Info,
    Warning,
    Critical,
}

} // verus!
