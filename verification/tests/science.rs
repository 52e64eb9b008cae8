use ciris_lens_core::codec::{parse, render, to_value};
use ciris_lens_core::config::egress::{EgressFilter, TraceLevel};
use ciris_lens_core::detector::correlated_action;
use ciris_lens_core::detector::correlated_action::{CorrelatedActionAxis, CorrelatedActionInput};
use ciris_lens_core::detector::distributive_access;
use ciris_lens_core::detector::distributive_access::{
    DistributiveAccessInput, DistributiveAccessResource,
};
use ciris_lens_core::detector::{
    assembly_input, detect, DeclaredCohortAxes, DetectionResult, Features,
};
use ciris_lens_core::json::{Json, JsonObject};
use ciris_lens_core::scoring::assembly::{assemble, AssemblyInput};
use ciris_lens_core::scoring::result::{AxisFamily, IndeterminateReason, ManifoldConformity};

#[test]
fn default_is_generic_most_conservative() {
    assert_eq!(EgressFilter::default().trace_level, TraceLevel::Generic);
}

#[test]
fn new_sets_trace_level() {
    let f = EgressFilter::new(TraceLevel::FullTraces);
    assert_eq!(f.trace_level, TraceLevel::FullTraces);
}

#[test]
fn serde_roundtrip_each_level() {
    for level in [
        TraceLevel::Generic,
        TraceLevel::Detailed,
        TraceLevel::FullTraces,
    ] {
        let f = EgressFilter::new(level);
        let json = render(&f.to_json()).unwrap();
        let back = EgressFilter::from_json(&parse(&json).unwrap()).unwrap();
        assert_eq!(f, back);
    }
}

#[test]
fn serde_uses_snake_case_trace_level() {
    let f = EgressFilter::new(TraceLevel::FullTraces);
    let json = to_value(f.to_json());
    assert_eq!(json["trace_level"], "full_traces");
    assert_eq!(json.as_object().unwrap().len(), 1);
}

#[test]
fn documents_that_say_no_filter() {
    for text in [
        "{}",
        "[]",
        "\"generic\"",
        r#"{"trace_level": null}"#,
        r#"{"trace_level": "Generic"}"#,
        r#"{"level": "generic"}"#,
    ] {
        assert_eq!(EgressFilter::from_json(&parse(text).unwrap()), None);
    }
    let more = parse(r#"{"trace_level": "detailed", "min_severity": "info"}"#).unwrap();
    assert_eq!(
        EgressFilter::from_json(&more),
        Some(EgressFilter::new(TraceLevel::Detailed))
    );
}

#[test]
fn level_names_read_back() {
    for (level, name) in [
        (TraceLevel::Generic, "generic"),
        (TraceLevel::Detailed, "detailed"),
        (TraceLevel::FullTraces, "full_traces"),
    ] {
        assert_eq!(level.wire_name(), name);
        assert_eq!(TraceLevel::from_wire_name(name), Some(level));
    }
    assert_eq!(TraceLevel::from_wire_name("Generic"), None);
    assert_eq!(TraceLevel::from_wire_name(""), None);
}

#[test]
fn wire_label_for_canonical_axes() {
    let cases = [
        (
            CorrelatedActionAxis::RightsAsymmetry {
                population: "indigenous_nations".into(),
            },
            "detection:correlated_action:rights_asymmetry:indigenous_nations",
        ),
        (
            CorrelatedActionAxis::ParticipationExclusion {
                cohort: "cohort_42".into(),
            },
            "detection:correlated_action:participation_exclusion:cohort_42",
        ),
        (
            CorrelatedActionAxis::EcologyOfCommunication {
                aspect: "echo_chamber_density".into(),
            },
            "detection:correlated_action:ecology_of_communication:echo_chamber_density",
        ),
    ];
    for (axis, expected) in cases {
        assert_eq!(axis.dimension_label(), expected);
    }
}

#[test]
fn wire_suffix_of_every_axis() {
    let cases = [
        (
            CorrelatedActionAxis::ParticipationInclusion { cohort: "c".into() },
            "participation_inclusion:c",
        ),
        (
            CorrelatedActionAxis::InformationalAsymmetry { scope: "s".into() },
            "informational_asymmetry:s",
        ),
        (
            CorrelatedActionAxis::InformationalSymmetry { scope: "s".into() },
            "informational_symmetry:s",
        ),
        (
            CorrelatedActionAxis::AggregateFootprint {
                harm_class: "h".into(),
            },
            "aggregate_footprint:h",
        ),
        (
            CorrelatedActionAxis::AggregateBenefit { class: "".into() },
            "aggregate_benefit:",
        ),
        (CorrelatedActionAxis::Custom { axis: "".into() }, ""),
    ];
    for (axis, expected) in cases {
        assert_eq!(axis.wire_suffix(), expected);
    }
}

#[test]
fn named_axes_never_share_a_label() {
    let facet = || "p:x".to_string();
    let axes = [
        CorrelatedActionAxis::RightsAsymmetry { population: facet() },
        CorrelatedActionAxis::ParticipationExclusion { cohort: facet() },
        CorrelatedActionAxis::ParticipationInclusion { cohort: facet() },
        CorrelatedActionAxis::InformationalAsymmetry { scope: facet() },
        CorrelatedActionAxis::InformationalSymmetry { scope: facet() },
        CorrelatedActionAxis::AggregateFootprint { harm_class: facet() },
        CorrelatedActionAxis::AggregateBenefit { class: facet() },
        CorrelatedActionAxis::EcologyOfCommunication { aspect: facet() },
    ];
    for (i, left) in axes.iter().enumerate() {
        for (j, right) in axes.iter().enumerate() {
            assert_eq!(left.dimension_label() == right.dimension_label(), i == j);
        }
    }
}

#[test]
fn wire_label_custom_axis_passes_through_verbatim() {
    let axis = CorrelatedActionAxis::Custom {
        axis: "future_amendment_axis:some_facet".into(),
    };
    assert_eq!(
        axis.dimension_label(),
        "detection:correlated_action:future_amendment_axis:some_facet"
    );
}

#[test]
fn score_always_returns_axis_awaiting_calibration() {
    let input = CorrelatedActionInput {
        axis: CorrelatedActionAxis::RightsAsymmetry {
            population: "p".into(),
        },
        corpus: &[],
    };
    match correlated_action::score(&input) {
        ManifoldConformity::Indeterminate {
            reason:
                IndeterminateReason::AxisAwaitingCalibration {
                    family: AxisFamily::F3CorrelatedAction,
                },
        } => (),
        other => panic!("unexpected {other:?}"),
    }
}

#[test]
fn score_indeterminate_regardless_of_corpus_size() {
    for size in [0usize, 1, 100, 10_000] {
        let corpus: Vec<Json> = (0..size)
            .map(|i| {
                let mut object = JsonObject::new();
                object.insert("i".into(), Json::Number(serde_json::Number::from(i)));
                Json::Object(object)
            })
            .collect();
        let input = CorrelatedActionInput {
            axis: CorrelatedActionAxis::AggregateFootprint {
                harm_class: "h".into(),
            },
            corpus: &corpus,
        };
        assert!(matches!(
            correlated_action::score(&input),
            ManifoldConformity::Indeterminate {
                reason: IndeterminateReason::AxisAwaitingCalibration {
                    family: AxisFamily::F3CorrelatedAction
                }
            }
        ));
    }
}

#[test]
fn wire_label_locked_for_every_variant() {
    let expected = [
        (
            DistributiveAccessResource::Compute,
            "detection:distributive:access:compute",
        ),
        (
            DistributiveAccessResource::Models,
            "detection:distributive:access:models",
        ),
        (
            DistributiveAccessResource::TrainingData,
            "detection:distributive:access:training_data",
        ),
        (
            DistributiveAccessResource::AgentCapabilities,
            "detection:distributive:access:agent_capabilities",
        ),
        (
            DistributiveAccessResource::FederationMembership,
            "detection:distributive:access:federation_membership",
        ),
    ];
    for (resource, expected) in expected {
        assert_eq!(resource.dimension_label(), expected);
    }
}

#[test]
fn all_constant_has_exactly_five_variants() {
    assert_eq!(DistributiveAccessResource::ALL.len(), 5);
}

#[test]
fn all_constant_contains_each_variant_exactly_once() {
    let mut sorted: Vec<_> = DistributiveAccessResource::ALL.iter().collect();
    sorted.sort_by_key(|r| r.wire_suffix());
    sorted.dedup();
    assert_eq!(sorted.len(), 5);
}

#[test]
fn score_always_returns_axis_awaiting_calibration_for_every_resource() {
    for resource in DistributiveAccessResource::ALL {
        let input = DistributiveAccessInput {
            resource,
            corpus: &[],
        };
        match distributive_access::score(&input) {
            ManifoldConformity::Indeterminate {
                reason:
                    IndeterminateReason::AxisAwaitingCalibration {
                        family: AxisFamily::DistributiveAccess,
                    },
            } => (),
            other => panic!("unexpected {other:?} for {resource:?}"),
        }
    }
}

fn no_axes() -> DeclaredCohortAxes {
    DeclaredCohortAxes {
        agent_role: None,
        agent_template: None,
        deployment_domain: None,
        deployment_type: None,
        deployment_region: None,
        deployment_trust_mode: None,
    }
}

#[test]
fn v010_detector_always_returns_none() {
    match detect(&Features {
        declared: no_axes(),
    }) {
        DetectionResult::NoDetection => (),
        other => panic!("v0.1.0 must return None, got {other:?}"),
    }
}

#[test]
fn detections_become_assembly_inputs() {
    assert!(matches!(
        assembly_input(DetectionResult::NoDetection),
        AssemblyInput::CohortColdStart
    ));
    assert!(matches!(
        assembly_input(DetectionResult::Manifold {
            mahalanobis: 1.5f64.to_bits(),
            cohort_sample_count: 7
        }),
        AssemblyInput::Scored { mahalanobis, cohort_sample_count: 7 }
            if f64::from_bits(mahalanobis) == 1.5
    ));
    assert!(matches!(
        assembly_input(DetectionResult::DeclaredInferredMismatch {
            declared: Json::Null,
            inferred: Json::Null
        }),
        AssemblyInput::AmbiguousCohort
    ));
}

#[test]
fn insufficient_sample_never_gets_a_number() {
    let scored = |n: u32| AssemblyInput::Scored {
        mahalanobis: 2.5f64.to_bits(),
        cohort_sample_count: n,
    };
    assert!(matches!(
        assemble(scored(499), 500),
        ManifoldConformity::Indeterminate {
            reason: IndeterminateReason::SampleSizeBelowGate {
                current: 499,
                gate: 500
            }
        }
    ));
    assert!(matches!(
        assemble(scored(500), 500),
        ManifoldConformity::Numeric(bits) if f64::from_bits(bits) == 2.5
    ));
    assert!(matches!(
        assemble(AssemblyInput::CohortColdStart, 0),
        ManifoldConformity::Indeterminate {
            reason: IndeterminateReason::CohortColdStart
        }
    ));
    assert!(matches!(
        assemble(AssemblyInput::AmbiguousCohort, 0),
        ManifoldConformity::Indeterminate {
            reason: IndeterminateReason::InferredCohortAmbiguous
        }
    ));
}
