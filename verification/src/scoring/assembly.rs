//! The sample-size gate.
use vstd::prelude::*;

use crate::scoring::result::{IndeterminateReason, ManifoldConformity};

verus! {

/// What is known of a trace when its score is put together.
#[derive(Debug, Clone, Copy)]
pub enum AssemblyInput {
    CohortColdStart,
    /// A distance, as the bits of an IEEE 754 double, and how many samples the
    /// cohort has.
    Scored { mahalanobis: u64, cohort_sample_count: u32 },
    AmbiguousCohort,
}

/// The score that follows from what is known.
pub open spec fn assembled(input: AssemblyInput, sample_size_gate: u32) -> ManifoldConformity {
    match input {
        AssemblyInput::CohortColdStart => ManifoldConformity::Indeterminate {
            reason: IndeterminateReason::CohortColdStart,
        },
        AssemblyInput::Scored { mahalanobis, cohort_sample_count } => if cohort_sample_count
            < sample_size_gate {
            ManifoldConformity::Indeterminate {
                reason: IndeterminateReason::SampleSizeBelowGate {
                    current: cohort_sample_count,
                    gate: sample_size_gate,
                },
            }
        } else {
            ManifoldConformity::Numeric(mahalanobis)
        },
        AssemblyInput::AmbiguousCohort => ManifoldConformity::Indeterminate {
            reason: IndeterminateReason::InferredCohortAmbiguous,
        },
    }
}

/// Puts a score together. Only a cohort with enough samples gets a number.
pub fn assemble(input: AssemblyInput, sample_size_gate: u32) -> (res: ManifoldConformity)
    ensures
        res == assembled(input, sample_size_gate),
{
    match input {
        AssemblyInput::CohortColdStart => ManifoldConformity::Indeterminate {
            reason: IndeterminateReason::CohortColdStart,
        },
        AssemblyInput::Scored { mahalanobis, cohort_sample_count } => {
            if cohort_sample_count < sample_size_gate {
                ManifoldConformity::Indeterminate {
                    reason: IndeterminateReason::SampleSizeBelowGate {
                        current: cohort_sample_count,
                        gate: sample_size_gate,
                    },
                }
            } else {
                ManifoldConformity::Numeric(mahalanobis)
            }
        },
        AssemblyInput::AmbiguousCohort => ManifoldConformity::Indeterminate {
            reason: IndeterminateReason::InferredCohortAmbiguous,
        },
    }
}

/// An insufficient sample never gets a number: whoever has a number had a
/// distance and at least as many samples as are asked for.
pub proof fn law_number_needs_sample(input: AssemblyInput, sample_size_gate: u32)
    ensures
        assembled(input, sample_size_gate) is Numeric <==> (input matches AssemblyInput::Scored {
            cohort_sample_count,
            ..
        } && cohort_sample_count >= sample_size_gate),
        assembled(input, sample_size_gate) matches ManifoldConformity::Numeric(bits)
            ==> input->mahalanobis == bits,
{
}

/// A sample that is too small says how small it is, and how large it should be;
/// without a distance the score says why there is none, whatever size is asked
/// for.
pub proof fn law_no_number_says_why(
    mahalanobis: u64,
    cohort_sample_count: u32,
    sample_size_gate: u32,
)
    ensures
        cohort_sample_count < sample_size_gate ==> assembled(
            AssemblyInput::Scored { mahalanobis, cohort_sample_count },
            sample_size_gate,
        ) == (ManifoldConformity::Indeterminate {
            reason: IndeterminateReason::SampleSizeBelowGate {
                current: cohort_sample_count,
                gate: sample_size_gate,
            },
        }),
        assembled(AssemblyInput::CohortColdStart, sample_size_gate) == (
        ManifoldConformity::Indeterminate { reason: IndeterminateReason::CohortColdStart }),
        assembled(AssemblyInput::AmbiguousCohort, sample_size_gate) == (
        ManifoldConformity::Indeterminate { reason: IndeterminateReason::InferredCohortAmbiguous }),
{
}

/// Putting a score together never reports that scoring failed.
pub proof fn law_assembly_is_never_unavailable(input: AssemblyInput, sample_size_gate: u32)
    ensures
        !(assembled(input, sample_size_gate) is Unavailable),
{
}

} // verus!
