//! Distributive access: how a resource is spread over the federation.
use vstd::prelude::*;

use crate::json::Json;
use crate::scoring::result::{AxisFamily, IndeterminateReason, ManifoldConformity};
use crate::text;

verus! {

/// The resource that a finding is about. The vocabulary is closed.
#[derive(Debug, Clone, Copy, PartialEq, Eq, Structural)]
pub enum DistributiveAccessResource {
    Compute,
    Models,
    TrainingData,
    AgentCapabilities,
    FederationMembership,
}

/// A resource on the wire.
pub open spec fn resource_suffix(resource: DistributiveAccessResource) -> Seq<char> {
    match resource {
        DistributiveAccessResource::Compute => "compute"@,
        DistributiveAccessResource::Models => "models"@,
        DistributiveAccessResource::TrainingData => "training_data"@,
        DistributiveAccessResource::AgentCapabilities => "agent_capabilities"@,
        DistributiveAccessResource::FederationMembership => "federation_membership"@,
    }
}

/// The dimension of a finding on the wire.
pub open spec fn resource_label(resource: DistributiveAccessResource) -> Seq<char> {
    "detection:distributive:access:"@ + resource_suffix(resource)
}

impl DistributiveAccessResource {
    /// Every resource, once.
    pub const ALL: [DistributiveAccessResource; 5] = [
        DistributiveAccessResource::Compute,
        DistributiveAccessResource::Models,
        DistributiveAccessResource::TrainingData,
        DistributiveAccessResource::AgentCapabilities,
        DistributiveAccessResource::FederationMembership,
    ];

    /// The resource on the wire: the last part of its dimension.
    pub fn wire_suffix(self) -> (res: &'static str)
        ensures
            res@ == resource_suffix(self),
    {
        match self {
            DistributiveAccessResource::Compute => "compute",
            DistributiveAccessResource::Models => "models",
            DistributiveAccessResource::TrainingData => "training_data",
            DistributiveAccessResource::AgentCapabilities => "agent_capabilities",
            DistributiveAccessResource::FederationMembership => "federation_membership",
        }
    }

    /// The dimension of a finding on this resource.
    pub fn dimension_label(self) -> (res: String)
        ensures
            res@ == resource_label(self),
    {
        text::join("detection:distributive:access:", self.wire_suffix())
    }
}

/// A resource and the traces to judge it by.
#[derive(Debug, Clone)]
pub struct DistributiveAccessInput<'a> {
    pub resource: DistributiveAccessResource,
    pub corpus: &'a [Json],
}

/// Scores a resource. No resource has an operational definition yet, so the
/// answer is the same for every resource and every corpus.
pub fn score(input: &DistributiveAccessInput<'_>) -> (res: ManifoldConformity)
    ensures
        res == (ManifoldConformity::Indeterminate {
            reason: IndeterminateReason::AxisAwaitingCalibration {
                family: AxisFamily::DistributiveAccess,
            },
        }),
{
    ManifoldConformity::Indeterminate {
        reason: IndeterminateReason::AxisAwaitingCalibration {
            family: AxisFamily::DistributiveAccess,
        },
    }
}

/// The closed vocabulary: every resource is listed, and none twice.
pub proof fn law_all_lists_every_resource_once(resource: DistributiveAccessResource)
    ensures
        exists|i: int| 0 <= i < 5 && #[trigger] DistributiveAccessResource::ALL[i] == resource,
        forall|i: int, j: int|
            0 <= i < j < 5 ==> #[trigger] DistributiveAccessResource::ALL[i]
                != #[trigger] DistributiveAccessResource::ALL[j],
{
}

/// No two resources have the same dimension.
pub proof fn law_resource_labels_differ(
    left: DistributiveAccessResource,
    right: DistributiveAccessResource,
)
    requires
        resource_label(left) == resource_label(right),
    ensures
        left == right,
{
    let prefix = "detection:distributive:access:"@;
    assert(resource_label(left).skip(prefix.len() as int) =~= resource_suffix(left));
    assert(resource_label(right).skip(prefix.len() as int) =~= resource_suffix(right));
    reveal_strlit("compute");
    reveal_strlit("models");
    reveal_strlit("training_data");
    reveal_strlit("agent_capabilities");
    reveal_strlit("federation_membership");
    assert("compute"@.len() == 7);
    assert("models"@.len() == 6);
    assert("training_data"@.len() == 13);
    assert("agent_capabilities"@.len() == 18);
    assert("federation_membership"@.len() == 21);
}

} // verus!
