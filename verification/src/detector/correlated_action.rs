//! Correlated action: pursuit that is compliant one by one and harmful taken
//! together.
use vstd::prelude::*;

use crate::json::Json;
use crate::scoring::result::{AxisFamily, IndeterminateReason, ManifoldConformity};
use crate::text;

verus! {

/// The axis that a finding is about. The vocabulary is open: an axis that is
/// not named here is carried as it is.
#[derive(Debug, Clone, PartialEq, Eq)]
pub enum CorrelatedActionAxis {
    RightsAsymmetry { population: String },
    ParticipationExclusion { cohort: String },
    ParticipationInclusion { cohort: String },
    InformationalAsymmetry { scope: String },
    InformationalSymmetry { scope: String },
    AggregateFootprint { harm_class: String },
    AggregateBenefit { class: String },
    EcologyOfCommunication { aspect: String },
    /// An axis that was named later.
    Custom { axis: String },
}

/// The name of an axis that is named here, with its colon; nothing for another.
pub open spec fn axis_prefix(axis: CorrelatedActionAxis) -> Seq<char> {
    match axis {
        CorrelatedActionAxis::RightsAsymmetry { .. } => "rights_asymmetry:"@,
        CorrelatedActionAxis::ParticipationExclusion { .. } => "participation_exclusion:"@,
        CorrelatedActionAxis::ParticipationInclusion { .. } => "participation_inclusion:"@,
        CorrelatedActionAxis::InformationalAsymmetry { .. } => "informational_asymmetry:"@,
        CorrelatedActionAxis::InformationalSymmetry { .. } => "informational_symmetry:"@,
        CorrelatedActionAxis::AggregateFootprint { .. } => "aggregate_footprint:"@,
        CorrelatedActionAxis::AggregateBenefit { .. } => "aggregate_benefit:"@,
        CorrelatedActionAxis::EcologyOfCommunication { .. } => "ecology_of_communication:"@,
        CorrelatedActionAxis::Custom { .. } => ""@,
    }
}

/// What an axis is about: the part that lens-core does not read.
pub open spec fn axis_facet(axis: CorrelatedActionAxis) -> Seq<char> {
    match axis {
        CorrelatedActionAxis::RightsAsymmetry { population } => population@,
        CorrelatedActionAxis::ParticipationExclusion { cohort } => cohort@,
        CorrelatedActionAxis::ParticipationInclusion { cohort } => cohort@,
        CorrelatedActionAxis::InformationalAsymmetry { scope } => scope@,
        CorrelatedActionAxis::InformationalSymmetry { scope } => scope@,
        CorrelatedActionAxis::AggregateFootprint { harm_class } => harm_class@,
        CorrelatedActionAxis::AggregateBenefit { class } => class@,
        CorrelatedActionAxis::EcologyOfCommunication { aspect } => aspect@,
        CorrelatedActionAxis::Custom { axis } => axis@,
    }
}

/// An axis on the wire.
pub open spec fn axis_suffix(axis: CorrelatedActionAxis) -> Seq<char> {
    axis_prefix(axis) + axis_facet(axis)
}

/// The dimension of a finding on the wire.
pub open spec fn axis_label(axis: CorrelatedActionAxis) -> Seq<char> {
    "detection:correlated_action:"@ + axis_suffix(axis)
}

impl CorrelatedActionAxis {
    /// The axis on the wire: the last part of its dimension.
    pub fn wire_suffix(&self) -> (res: String)
        ensures
            res@ == axis_suffix(*self),
    {
        match self {
            CorrelatedActionAxis::RightsAsymmetry { population } => text::join(
                "rights_asymmetry:",
                population.as_str(),
            ),
            CorrelatedActionAxis::ParticipationExclusion { cohort } => text::join(
                "participation_exclusion:",
                cohort.as_str(),
            ),
            CorrelatedActionAxis::ParticipationInclusion { cohort } => text::join(
                "participation_inclusion:",
                cohort.as_str(),
            ),
            CorrelatedActionAxis::InformationalAsymmetry { scope } => text::join(
                "informational_asymmetry:",
                scope.as_str(),
            ),
            CorrelatedActionAxis::InformationalSymmetry { scope } => text::join(
                "informational_symmetry:",
                scope.as_str(),
            ),
            CorrelatedActionAxis::AggregateFootprint { harm_class } => text::join(
                "aggregate_footprint:",
                harm_class.as_str(),
            ),
            CorrelatedActionAxis::AggregateBenefit { class } => text::join(
                "aggregate_benefit:",
                class.as_str(),
            ),
            CorrelatedActionAxis::EcologyOfCommunication { aspect } => text::join(
                "ecology_of_communication:",
                aspect.as_str(),
            ),
            CorrelatedActionAxis::Custom { axis } => {
                proof {
                    reveal_strlit("");
                    assert(axis_suffix(*self) =~= axis@);
                }
                axis.clone()
            },
        }
    }

    /// The dimension of a finding on this axis.
    pub fn dimension_label(&self) -> (res: String)
        ensures
            res@ == axis_label(*self),
    {
        text::join("detection:correlated_action:", self.wire_suffix().as_str())
    }
}

/// An axis and the traces to judge it by.
#[derive(Debug, Clone)]
pub struct CorrelatedActionInput<'a> {
    pub axis: CorrelatedActionAxis,
    pub corpus: &'a [Json],
}

/// Scores an axis. No axis has an operational definition yet, so the answer is
/// the same for every axis and every corpus.
pub fn score(input: &CorrelatedActionInput<'_>) -> (res: ManifoldConformity)
    ensures
        res == (ManifoldConformity::Indeterminate {
            reason: IndeterminateReason::AxisAwaitingCalibration {
                family: AxisFamily::F3CorrelatedAction,
            },
        }),
{
    ManifoldConformity::Indeterminate {
        reason: IndeterminateReason::AxisAwaitingCalibration {
            family: AxisFamily::F3CorrelatedAction,
        },
    }
}

/// What an axis is about goes onto the wire whole, behind the axis's own name and
/// the detector's.
pub proof fn law_facet_is_carried_whole(facet: String)
    ensures
        axis_label(CorrelatedActionAxis::RightsAsymmetry { population: facet }) == "detection:correlated_action:"@
            + "rights_asymmetry:"@ + facet@,
        axis_label(CorrelatedActionAxis::ParticipationExclusion { cohort: facet }) == "detection:correlated_action:"@
            + "participation_exclusion:"@ + facet@,
        axis_label(CorrelatedActionAxis::ParticipationInclusion { cohort: facet }) == "detection:correlated_action:"@
            + "participation_inclusion:"@ + facet@,
        axis_label(CorrelatedActionAxis::InformationalAsymmetry { scope: facet }) == "detection:correlated_action:"@
            + "informational_asymmetry:"@ + facet@,
        axis_label(CorrelatedActionAxis::InformationalSymmetry { scope: facet }) == "detection:correlated_action:"@
            + "informational_symmetry:"@ + facet@,
        axis_label(CorrelatedActionAxis::AggregateFootprint { harm_class: facet }) == "detection:correlated_action:"@
            + "aggregate_footprint:"@ + facet@,
        axis_label(CorrelatedActionAxis::AggregateBenefit { class: facet }) == "detection:correlated_action:"@
            + "aggregate_benefit:"@ + facet@,
        axis_label(CorrelatedActionAxis::EcologyOfCommunication { aspect: facet }) == "detection:correlated_action:"@
            + "ecology_of_communication:"@ + facet@,
        axis_label(CorrelatedActionAxis::Custom { axis: facet })
            == "detection:correlated_action:"@ + facet@,
{
    assert(axis_label(CorrelatedActionAxis::RightsAsymmetry { population: facet }) =~= "detection:correlated_action:"@
        + "rights_asymmetry:"@ + facet@);
    assert(axis_label(CorrelatedActionAxis::ParticipationExclusion { cohort: facet }) =~= "detection:correlated_action:"@
        + "participation_exclusion:"@ + facet@);
    assert(axis_label(CorrelatedActionAxis::ParticipationInclusion { cohort: facet }) =~= "detection:correlated_action:"@
        + "participation_inclusion:"@ + facet@);
    assert(axis_label(CorrelatedActionAxis::InformationalAsymmetry { scope: facet }) =~= "detection:correlated_action:"@
        + "informational_asymmetry:"@ + facet@);
    assert(axis_label(CorrelatedActionAxis::InformationalSymmetry { scope: facet }) =~= "detection:correlated_action:"@
        + "informational_symmetry:"@ + facet@);
    assert(axis_label(CorrelatedActionAxis::AggregateFootprint { harm_class: facet }) =~= "detection:correlated_action:"@
        + "aggregate_footprint:"@ + facet@);
    assert(axis_label(CorrelatedActionAxis::AggregateBenefit { class: facet }) =~= "detection:correlated_action:"@
        + "aggregate_benefit:"@ + facet@);
    assert(axis_label(CorrelatedActionAxis::EcologyOfCommunication { aspect: facet }) =~= "detection:correlated_action:"@
        + "ecology_of_communication:"@ + facet@);
    law_custom_axis_is_verbatim(facet);
}

/// An axis that is not named here goes onto the wire as it is.
pub proof fn law_custom_axis_is_verbatim(axis: String)
    ensures
        axis_suffix(CorrelatedActionAxis::Custom { axis }) == axis@,
{
    reveal_strlit("");
    assert(axis_suffix(CorrelatedActionAxis::Custom { axis }) =~= axis@);
}

/// Two labels are the same if and only if the axes are the same on the wire.
pub proof fn law_label_follows_suffix(left: CorrelatedActionAxis, right: CorrelatedActionAxis)
    ensures
        axis_label(left) == axis_label(right) <==> axis_suffix(left) == axis_suffix(right),
{
    let prefix = "detection:correlated_action:"@;
    assert(axis_label(left).skip(prefix.len() as int) =~= axis_suffix(left));
    assert(axis_label(right).skip(prefix.len() as int) =~= axis_suffix(right));
}

/// Where the names of the axes differ.
proof fn lemma_axis_prefixes()
    ensures
        "rights_asymmetry:"@.len() == 17,
        "rights_asymmetry:"@[0] == 'r',
        "rights_asymmetry:"@[14] == 'r',
        "rights_asymmetry:"@[16] == ':',
        "participation_exclusion:"@.len() == 24,
        "participation_exclusion:"@[0] == 'p',
        "participation_exclusion:"@[14] == 'e',
        "participation_exclusion:"@[16] == 'c',
        "participation_exclusion:"@[17] == 'l',
        "participation_exclusion:"@[19] == 's',
        "participation_exclusion:"@[22] == 'n',
        "participation_exclusion:"@[23] == ':',
        "participation_inclusion:"@.len() == 24,
        "participation_inclusion:"@[0] == 'p',
        "participation_inclusion:"@[14] == 'i',
        "participation_inclusion:"@[16] == 'c',
        "participation_inclusion:"@[17] == 'l',
        "participation_inclusion:"@[19] == 's',
        "participation_inclusion:"@[22] == 'n',
        "participation_inclusion:"@[23] == ':',
        "informational_asymmetry:"@.len() == 24,
        "informational_asymmetry:"@[0] == 'i',
        "informational_asymmetry:"@[14] == 'a',
        "informational_asymmetry:"@[16] == 'y',
        "informational_asymmetry:"@[17] == 'm',
        "informational_asymmetry:"@[19] == 'e',
        "informational_asymmetry:"@[22] == 'y',
        "informational_asymmetry:"@[23] == ':',
        "informational_symmetry:"@.len() == 23,
        "informational_symmetry:"@[0] == 'i',
        "informational_symmetry:"@[14] == 's',
        "informational_symmetry:"@[16] == 'm',
        "informational_symmetry:"@[17] == 'm',
        "informational_symmetry:"@[19] == 't',
        "informational_symmetry:"@[22] == ':',
        "aggregate_footprint:"@.len() == 20,
        "aggregate_footprint:"@[0] == 'a',
        "aggregate_footprint:"@[14] == 'p',
        "aggregate_footprint:"@[16] == 'i',
        "aggregate_footprint:"@[17] == 'n',
        "aggregate_footprint:"@[19] == ':',
        "aggregate_benefit:"@.len() == 18,
        "aggregate_benefit:"@[0] == 'a',
        "aggregate_benefit:"@[14] == 'f',
        "aggregate_benefit:"@[16] == 't',
        "aggregate_benefit:"@[17] == ':',
        "ecology_of_communication:"@.len() == 25,
        "ecology_of_communication:"@[0] == 'e',
        "ecology_of_communication:"@[14] == 'm',
        "ecology_of_communication:"@[16] == 'n',
        "ecology_of_communication:"@[17] == 'i',
        "ecology_of_communication:"@[19] == 'a',
        "ecology_of_communication:"@[22] == 'o',
        "ecology_of_communication:"@[23] == 'n',
{
    reveal_strlit("rights_asymmetry:");
    reveal_strlit("participation_exclusion:");
    reveal_strlit("participation_inclusion:");
    reveal_strlit("informational_asymmetry:");
    reveal_strlit("informational_symmetry:");
    reveal_strlit("aggregate_footprint:");
    reveal_strlit("aggregate_benefit:");
    reveal_strlit("ecology_of_communication:");
}

/// An axis on the wire begins with its name.
proof fn lemma_prefix_char(axis: CorrelatedActionAxis, i: int)
    ensures
        0 <= i < axis_prefix(axis).len() ==> axis_suffix(axis)[i] == axis_prefix(axis)[i],
{
}

/// No two axes that are named here share a dimension: the label tells the axis
/// and what it is about.
pub proof fn law_named_axis_labels_differ(left: CorrelatedActionAxis, right: CorrelatedActionAxis)
    requires
        !(left is Custom),
        !(right is Custom),
        axis_label(left) == axis_label(right),
    ensures
        axis_prefix(left) == axis_prefix(right),
        axis_facet(left) == axis_facet(right),
{
    law_label_follows_suffix(left, right);
    lemma_axis_prefixes();
    let ours = axis_prefix(left);
    let theirs = axis_prefix(right);
    let suffix = axis_suffix(left);
    lemma_prefix_char(left, 0);
    lemma_prefix_char(right, 0);
    lemma_prefix_char(left, 14);
    lemma_prefix_char(right, 14);
    lemma_prefix_char(left, 16);
    lemma_prefix_char(right, 16);
    lemma_prefix_char(left, 17);
    lemma_prefix_char(right, 17);
    lemma_prefix_char(left, 19);
    lemma_prefix_char(right, 19);
    lemma_prefix_char(left, 22);
    lemma_prefix_char(right, 22);
    lemma_prefix_char(left, 23);
    lemma_prefix_char(right, 23);
    assert(ours.len() == theirs.len());
    assert(ours =~= theirs);
    assert(suffix.skip(ours.len() as int) =~= axis_facet(left));
    assert(axis_suffix(right).skip(ours.len() as int) =~= axis_facet(right));
}

} // verus!
