//! Detectors. None has a calibrated centroid to judge by yet, so none gives a
//! verdict.
use vstd::prelude::*;

use crate::json::Json;
use crate::scoring::assembly::AssemblyInput;

pub mod correlated_action;
pub mod distributive_access;

verus! {

/// The six axes by which an agent declares its cohort.
#[derive(Debug)]
pub struct DeclaredCohortAxes {
    pub agent_role: Option<String>,
    pub agent_template: Option<String>,
    pub deployment_domain: Option<String>,
    pub deployment_type: Option<String>,
    pub deployment_region: Option<String>,
    pub deployment_trust_mode: Option<String>,
}

/// What was extracted of a trace.
#[derive(Debug)]
pub struct Features {
    pub declared: DeclaredCohortAxes,
}

/// What the detectors found in a trace.
#[derive(Debug, Clone)]
pub enum DetectionResult {
    /// No detector flagged the trace.
    NoDetection,
    /// The distance to the cohort's centroid, as the bits of an IEEE 754 double,
    /// and how many samples the cohort has.
    Manifold { mahalanobis: u64, cohort_sample_count: u32 },
    /// The agent declares one cohort and the classifier finds another.
    DeclaredInferredMismatch { declared: Json, inferred: Json },
}

/// Looks at a trace's features. Until there are centroids to score against
/// there is nothing to report of any trace.
pub fn detect(features: &Features) -> (res: DetectionResult)
    ensures
        res is NoDetection,
{
    DetectionResult::NoDetection
}

/// Whether a detector flagged the trace.
pub open spec fn flags(detection: DetectionResult) -> bool {
    !(detection is NoDetection)
}

/// Whether a detector flagged the trace.
pub fn is_flagged(detection: &DetectionResult) -> (res: bool)
    ensures
        res == flags(*detection),
{
    match detection {
        DetectionResult::NoDetection => false,
        DetectionResult::Manifold { .. } => true,
        DetectionResult::DeclaredInferredMismatch { .. } => true,
    }
}

/// What a detection means for the score.
pub open spec fn assembly_input_of(detection: DetectionResult) -> AssemblyInput {
    match detection {
        DetectionResult::NoDetection => AssemblyInput::CohortColdStart,
        DetectionResult::Manifold { mahalanobis, cohort_sample_count } => AssemblyInput::Scored {
            mahalanobis,
            cohort_sample_count,
        },
        DetectionResult::DeclaredInferredMismatch { .. } => AssemblyInput::AmbiguousCohort,
    }
}

/// Turns a detection into what the score is put together from.
pub fn assembly_input(detection: DetectionResult) -> (res: AssemblyInput)
    ensures
        res == assembly_input_of(detection),
{
    match detection {
        DetectionResult::NoDetection => AssemblyInput::CohortColdStart,
        DetectionResult::Manifold { mahalanobis, cohort_sample_count } => AssemblyInput::Scored {
            mahalanobis,
            cohort_sample_count,
        },
        DetectionResult::DeclaredInferredMismatch { .. } => AssemblyInput::AmbiguousCohort,
    }
}

/// A distance reaches the score as it was measured, with the cohort's own count;
/// a mismatch is an ambiguous cohort, whatever was declared and inferred.
pub proof fn law_detection_reaches_the_score(
    mahalanobis: u64,
    cohort_sample_count: u32,
    declared: Json,
    inferred: Json,
)
    ensures
        assembly_input_of(DetectionResult::Manifold { mahalanobis, cohort_sample_count }) == (
        AssemblyInput::Scored { mahalanobis, cohort_sample_count }),
        assembly_input_of(DetectionResult::DeclaredInferredMismatch { declared, inferred })
            == AssemblyInput::AmbiguousCohort,
        assembly_input_of(DetectionResult::NoDetection) == AssemblyInput::CohortColdStart,
        flags(DetectionResult::Manifold { mahalanobis, cohort_sample_count }),
        flags(DetectionResult::DeclaredInferredMismatch { declared, inferred }),
        !flags(DetectionResult::NoDetection),
{
}

} // verus!
