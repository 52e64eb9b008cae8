//! The host's client: how it is made, and what a captured event does.
//!
//! A client either uses the engine of its own process or drives an engine that
//! the host hands over, call by call.
use vstd::prelude::*;

use crate::capture::client;
use crate::capture::client::{CaptureEventOutcome, ClientError, SealSummary};
use crate::capture::seal;
use crate::capture::trace;
use crate::capture::trace::{BatchProvenance, CompleteTrace};
use crate::codec;
use crate::config::egress;
use crate::config::egress::TraceLevel;
use crate::ffi::engine;
use crate::ffi::engine::EngineAnswer;
use crate::ffi::scrub;
use crate::ffi::value;
use crate::ffi::value::{HostDict, HostError, HostView};
use crate::json::{Json, JsonView};
use crate::text;
use crate::wire::signer::ED25519_SIGNATURE_LEN;

verus! {

/// What is said where there is no engine of the process and the host hands none
/// over.
pub const NO_PROCESS_ENGINE: &'static str =
    "no process Engine — host must construct ciris_persist.Engine first. For pip cohabitation (two-wheel deployment) pass engine=<host_engine> to LensClient to fix CIRISLensCore#43.1.";

/// What the host says of a client that it makes.
#[derive(Debug)]
pub struct ClientArguments {
    pub consent_timestamp: Option<String>,
    pub trace_level: String,
    pub trace_schema_version: String,
    pub consent_attesting_key_id: Option<String>,
    pub local_copy_dir: Option<String>,
    pub deployment_region: Option<String>,
    pub deployment_type: Option<String>,
    pub agent_role: Option<String>,
    pub agent_template: Option<String>,
    pub share_location: bool,
    pub user_location: Option<String>,
    pub user_timezone: Option<String>,
}

/// What correlation metadata is built from; a text that the host leaves out is
/// empty.
#[derive(Debug)]
pub struct CorrelationInputs {
    pub deployment_region: String,
    pub deployment_type: String,
    pub agent_role: String,
    pub agent_template: String,
    pub share_location: bool,
    pub user_location: String,
    pub user_timezone: String,
}

/// A client as it is to be made.
#[derive(Debug)]
pub struct ClientPlan {
    pub level: TraceLevel,
    pub trace_level: String,
    pub trace_schema_version: String,
    pub deployment_profile: Option<Json>,
    pub correlation: CorrelationInputs,
    pub consent_timestamp: Option<String>,
    pub consent_attesting_key_id: Option<String>,
    pub local_copy_dir: Option<String>,
    /// Whether content leaves without being scrubbed here, which the operator is
    /// to be told.
    pub warn_unscrubbed: bool,
}

/// A text, empty where there is none.
pub open spec fn text_or_empty(text: Option<String>) -> Seq<char> {
    match text {
        Some(text) => text@,
        None => ""@,
    }
}

fn or_empty(text: Option<String>) -> (res: String)
    ensures
        res@ == text_or_empty(text),
{
    match text {
        Some(text) => text,
        None => "".to_owned(),
    }
}

/// Whether a plan has what the arguments say.
pub open spec fn planned(
    arguments: ClientArguments,
    deployment_profile: Option<JsonView>,
    plan: ClientPlan,
) -> bool {
    &&& egress::level_text(plan.level) == arguments.trace_level@
    &&& plan.trace_level == arguments.trace_level
    &&& plan.trace_schema_version == arguments.trace_schema_version
    &&& trace::opt_json(plan.deployment_profile) == deployment_profile
    &&& plan.correlation.deployment_region@ == text_or_empty(arguments.deployment_region)
    &&& plan.correlation.deployment_type@ == text_or_empty(arguments.deployment_type)
    &&& plan.correlation.agent_role@ == text_or_empty(arguments.agent_role)
    &&& plan.correlation.agent_template@ == text_or_empty(arguments.agent_template)
    &&& plan.correlation.share_location == arguments.share_location
    &&& plan.correlation.user_location@ == text_or_empty(arguments.user_location)
    &&& plan.correlation.user_timezone@ == text_or_empty(arguments.user_timezone)
    &&& plan.consent_timestamp == arguments.consent_timestamp
    &&& plan.consent_attesting_key_id == arguments.consent_attesting_key_id
    &&& plan.local_copy_dir == arguments.local_copy_dir
    &&& plan.warn_unscrubbed == (arguments.trace_level@ != "generic"@)
}

/// Whether the answer for a deployment profile that the host wrote out as a text
/// is the right one.
pub open spec fn profile_answer(
    arguments: ClientArguments,
    written: Result<String, HostError>,
    res: Result<ClientPlan, HostError>,
) -> bool {
    match written {
        Err(error) => res == Err::<ClientPlan, HostError>(error),
        Ok(written) => match codec::parsed_json(written@) {
            Ok(profile) => res matches Ok(plan) && planned(arguments, Some(profile), plan),
            Err(cause) => res matches Err(error) && value::is_value_error(
                error,
                "deployment_profile: failed to parse as JSON: "@ + cause,
            ),
        },
    }
}

/// Plans a client. A level that there is not is refused before anything else is
/// looked at; the deployment profile is written out by the host and read back.
pub fn plan_client<D: Fn() -> Result<String, HostError>>(
    arguments: ClientArguments,
    has_profile: bool,
    dumps: D,
) -> (res: Result<ClientPlan, HostError>)
    requires
        call_requires(dumps, ()),
    ensures
        !scrub::is_level(arguments.trace_level@) ==> res is Err && value::is_value_error(
            res->Err_0,
            scrub::level_error_text(arguments.trace_level@),
        ),
        scrub::is_level(arguments.trace_level@) && !has_profile ==> res is Ok && planned(
            arguments,
            None,
            res->Ok_0,
        ),
        scrub::is_level(arguments.trace_level@) && has_profile ==> exists|
            written: Result<String, HostError>,
        |
            #[trigger] call_ensures(dumps, (), written) && profile_answer(arguments, written, res),
{
    let level = match scrub::parse_level(arguments.trace_level.as_str()) {
        Ok(level) => level,
        Err(error) => {
            return Err(error);
        },
    };
    proof {
        assert(egress::level_text(level) == arguments.trace_level@);
    }
    let deployment_profile = if has_profile {
        let written = dumps();
        match written {
            Ok(written) => match codec::parse(written.as_str()) {
                Ok(profile) => Some(profile),
                Err(cause) => {
                    return Err(
                        HostError::value(
                            "deployment_profile: failed to parse as JSON: ",
                            cause.as_str(),
                        ),
                    );
                },
            },
            Err(error) => {
                return Err(error);
            },
        }
    } else {
        None
    };
    let warn_unscrubbed = !text::same(arguments.trace_level.as_str(), "generic");
    Ok(
        ClientPlan {
            level,
            trace_level: arguments.trace_level,
            trace_schema_version: arguments.trace_schema_version,
            deployment_profile,
            correlation: CorrelationInputs {
                deployment_region: or_empty(arguments.deployment_region),
                deployment_type: or_empty(arguments.deployment_type),
                agent_role: or_empty(arguments.agent_role),
                agent_template: or_empty(arguments.agent_template),
                share_location: arguments.share_location,
                user_location: or_empty(arguments.user_location),
                user_timezone: or_empty(arguments.user_timezone),
            },
            consent_timestamp: arguments.consent_timestamp,
            consent_attesting_key_id: arguments.consent_attesting_key_id,
            local_copy_dir: arguments.local_copy_dir,
            warn_unscrubbed,
        },
    )
}

/// Correlation metadata that says nothing is left out.
pub fn keep_correlation<M>(metadata: M, is_empty: bool) -> (res: Option<M>)
    ensures
        res == if is_empty {
            None
        } else {
            Some(metadata)
        },
{
    if is_empty {
        None
    } else {
        Some(metadata)
    }
}

/// Which engine a client uses.
#[derive(Debug, Clone, Copy, PartialEq, Eq, Structural)]
pub enum ClientPath {
    /// The engine of its own process.
    Sovereign,
    /// An engine that the host hands over.
    Cohabitation,
}

/// Which engine a client uses: one that the host hands over comes first, and
/// without either there is no client.
pub fn client_path(host_engine: bool, process_engine: bool) -> (res: Result<ClientPath, HostError>)
    ensures
        host_engine ==> res == Ok::<ClientPath, HostError>(ClientPath::Cohabitation),
        !host_engine && process_engine ==> res == Ok::<ClientPath, HostError>(
            ClientPath::Sovereign,
        ),
        !host_engine && !process_engine ==> res is Err && value::is_runtime_error(
            res->Err_0,
            NO_PROCESS_ENGINE@,
        ),
{
    if host_engine {
        Ok(ClientPath::Cohabitation)
    } else if process_engine {
        Ok(ClientPath::Sovereign)
    } else {
        Err(HostError::Runtime(NO_PROCESS_ENGINE.to_owned()))
    }
}

/// What a client on a path is made with: all of its plan, but that the key under
/// which consent is attested plays no part where the host hands an engine over.
pub open spec fn path_settings(plan: ClientPlan, path: ClientPath) -> ClientPlan {
    ClientPlan {
        consent_attesting_key_id: if path is Cohabitation {
            None
        } else {
            plan.consent_attesting_key_id
        },
        ..plan
    }
}

/// What a client on a path is made with.
pub fn settings_for(plan: ClientPlan, path: ClientPath) -> (res: ClientPlan)
    ensures
        res == path_settings(plan, path),
{
    match path {
        ClientPath::Sovereign => plan,
        ClientPath::Cohabitation => ClientPlan { consent_attesting_key_id: None, ..plan },
    }
}

/// Consent on an engine that the host hands over rests on the host's own
/// settings: two plans that differ only in the key under which consent is
/// attested make the same client there.
pub proof fn law_attesting_key_has_no_effect_on_a_hosts_engine(
    plan: ClientPlan,
    consent_attesting_key_id: Option<String>,
)
    ensures
        path_settings((ClientPlan { consent_attesting_key_id, ..plan }), ClientPath::Cohabitation)
            == path_settings(plan, ClientPath::Cohabitation),
        path_settings(plan, ClientPath::Cohabitation).consent_attesting_key_id is None,
        path_settings(plan, ClientPath::Sovereign) == plan,
{
}

/// What the host gets of an outcome.
pub open spec fn outcome_entries(outcome: CaptureEventOutcome) -> Seq<(Seq<char>, HostView)> {
    match outcome {
        CaptureEventOutcome::Opened => seq![("outcome"@, HostView::Text("opened"@))],
        CaptureEventOutcome::Appended => seq![("outcome"@, HostView::Text("appended"@))],
        CaptureEventOutcome::Rejected { raw } => seq![
            ("outcome"@, HostView::Text("rejected"@)),
            ("raw"@, HostView::Text(raw@)),
        ],
        CaptureEventOutcome::SealedAndPersisted { trace_id, summary } => seq![
            ("outcome"@, HostView::Text("sealed_and_persisted"@)),
            ("trace_id"@, HostView::Text(trace_id@)),
            ("trace_events_inserted"@, HostView::Count(summary.trace_events_inserted as nat)),
            ("signatures_verified"@, HostView::Count(summary.signatures_verified as nat)),
        ],
        CaptureEventOutcome::ConsentBlocked { reason } => seq![
            ("outcome"@, HostView::Text("consent_blocked"@)),
            ("reason"@, HostView::Text(reason@)),
        ],
    }
}

/// An outcome for the host.
pub fn outcome_to_dict(outcome: CaptureEventOutcome) -> (res: HostDict)
    ensures
        res@ == outcome_entries(outcome),
{
    let mut dict = HostDict::new();
    match &outcome {
        CaptureEventOutcome::Opened => {
            dict.put_text("outcome", "opened");
        },
        CaptureEventOutcome::Appended => {
            dict.put_text("outcome", "appended");
        },
        CaptureEventOutcome::Rejected { raw } => {
            dict.put_text("outcome", "rejected");
            dict.put_text("raw", raw.as_str());
        },
        CaptureEventOutcome::SealedAndPersisted { trace_id, summary } => {
            dict.put_text("outcome", "sealed_and_persisted");
            dict.put_text("trace_id", trace_id.as_str());
            dict.put_count("trace_events_inserted", summary.trace_events_inserted);
            dict.put_count("signatures_verified", summary.signatures_verified);
        },
        CaptureEventOutcome::ConsentBlocked { reason } => {
            dict.put_text("outcome", "consent_blocked");
            dict.put_text("reason", reason.as_str());
        },
    }
    proof {
        assert(dict@ =~= outcome_entries(outcome));
    }
    dict
}

/// What the host gets of an event that the process's own engine took.
pub fn sovereign_captured(answer: Result<CaptureEventOutcome, ClientError>) -> (res: Result<
    HostDict,
    HostError,
>)
    ensures
        match answer {
            Ok(outcome) => res matches Ok(dict) && dict@ == outcome_entries(outcome),
            Err(cause) => res matches Err(error) && value::is_runtime_error(
                error,
                "capture_event: "@ + client::client_error_text(cause),
            ),
        },
{
    match answer {
        Ok(outcome) => Ok(outcome_to_dict(outcome)),
        Err(cause) => Err(HostError::runtime("capture_event: ", cause.message().as_str())),
    }
}

/// What the store and the consent gate made of an event, where the engine is the
/// host's.
#[derive(Debug)]
pub enum PrepareOutcome {
    Opened,
    Appended,
    Rejected { raw: String },
    ConsentBlocked { reason: String },
    /// The event ended its trace, which is stamped and may be sealed.
    ReadyToSeal { trace: CompleteTrace, provenance: BatchProvenance },
}

/// A trace with its canonical bytes, that waits for the name of the engine's key.
#[derive(Debug)]
pub struct PendingKey {
    pub trace: CompleteTrace,
    pub provenance: BatchProvenance,
    pub canonical: Vec<u8>,
}

/// A trace that waits for the engine's signature over `canonical`, under the name
/// of its key.
#[derive(Debug)]
pub struct PendingSeal {
    pub trace: CompleteTrace,
    pub provenance: BatchProvenance,
    pub canonical: Vec<u8>,
    pub key_id: String,
}

/// A signed trace that is to be put into a batch.
#[derive(Debug)]
pub struct SealedTrace {
    pub trace: CompleteTrace,
    pub provenance: BatchProvenance,
}

/// A batch that waits for the engine to take it.
#[derive(Debug)]
pub struct PendingBatch {
    pub trace_id: String,
    pub batch: Vec<u8>,
}

/// What is to be done next for an event.
#[derive(Debug)]
pub enum CohabitationStep {
    /// Nothing: the host gets this.
    Finished(HostDict),
    /// The engine is to name its key, before it is to sign.
    NameKey(PendingKey),
}

/// Whether the outcome of an event that sealed nothing is what the host gets.
pub open spec fn finished_with(step: CohabitationStep, outcome: CaptureEventOutcome) -> bool {
    step matches CohabitationStep::Finished(dict) && dict@ == outcome_entries(outcome)
}

/// What follows when the store and the consent gate have taken an event.
pub fn capture_event<C: Fn(&CompleteTrace) -> Result<Vec<u8>, String>>(
    prepared: PrepareOutcome,
    canonical_bytes_for: C,
) -> (res: Result<CohabitationStep, HostError>)
    requires
        forall|sealed: &CompleteTrace| #[trigger] call_requires(canonical_bytes_for, (sealed,)),
    ensures
        match prepared {
            PrepareOutcome::Opened => res is Ok && finished_with(
                res->Ok_0,
                CaptureEventOutcome::Opened,
            ),
            PrepareOutcome::Appended => res is Ok && finished_with(
                res->Ok_0,
                CaptureEventOutcome::Appended,
            ),
            PrepareOutcome::Rejected { raw } => res is Ok && finished_with(
                res->Ok_0,
                CaptureEventOutcome::Rejected { raw },
            ),
            PrepareOutcome::ConsentBlocked { reason } => res is Ok && finished_with(
                res->Ok_0,
                CaptureEventOutcome::ConsentBlocked { reason },
            ),
            PrepareOutcome::ReadyToSeal { trace, provenance } => exists|
                answer: Result<Vec<u8>, String>,
            |
                #[trigger] call_ensures(canonical_bytes_for, (&trace,), answer) && match answer {
                    Ok(canonical) => res == Ok::<CohabitationStep, HostError>(
                        CohabitationStep::NameKey((PendingKey { trace, provenance, canonical })),
                    ),
                    Err(cause) => res is Err && value::is_runtime_error(
                        res->Err_0,
                        "canonical_bytes: "@ + cause@,
                    ),
                },
        },
{
    match prepared {
        PrepareOutcome::Opened => Ok(
            CohabitationStep::Finished(outcome_to_dict(CaptureEventOutcome::Opened)),
        ),
        PrepareOutcome::Appended => Ok(
            CohabitationStep::Finished(outcome_to_dict(CaptureEventOutcome::Appended)),
        ),
        PrepareOutcome::Rejected { raw } => Ok(
            CohabitationStep::Finished(outcome_to_dict(CaptureEventOutcome::Rejected { raw })),
        ),
        PrepareOutcome::ConsentBlocked { reason } => Ok(
            CohabitationStep::Finished(
                outcome_to_dict(CaptureEventOutcome::ConsentBlocked { reason }),
            ),
        ),
        PrepareOutcome::ReadyToSeal { trace, provenance } => {
            let answer = canonical_bytes_for(&trace);
            match answer {
                Ok(canonical) => Ok(
                    CohabitationStep::NameKey(PendingKey { trace, provenance, canonical }),
                ),
                Err(cause) => Err(HostError::runtime("canonical_bytes: ", cause.as_str())),
            }
        },
    }
}

/// What follows when the engine has named its key: it is to sign the canonical
/// bytes.
pub fn event_keyed(pending: PendingKey, answer: EngineAnswer<String>) -> (res: Result<
    PendingSeal,
    HostError,
>)
    ensures
        exists|named: Result<String, HostError>| #[trigger]
            engine::engine_result("engine.local_key_id(): "@, answer, named) && match named {
                Ok(key_id) => res == Ok::<PendingSeal, HostError>(
                    (PendingSeal {
                        trace: pending.trace,
                        provenance: pending.provenance,
                        canonical: pending.canonical,
                        key_id,
                    }),
                ),
                Err(error) => res == Err::<PendingSeal, HostError>(error),
            },
{
    match engine::local_key_id(answer) {
        Ok(key_id) => Ok(
            PendingSeal {
                trace: pending.trace,
                provenance: pending.provenance,
                canonical: pending.canonical,
                key_id,
            },
        ),
        Err(error) => Err(error),
    }
}

/// What is said of a signature that is not as long as one.
pub open spec fn short_signature_text(len: nat) -> Seq<char> {
    "engine.local_sign returned "@ + text::decimal_text(len) + " bytes, expected 64"@
}

/// What follows when the engine has signed: its signature goes onto the trace,
/// if it is one.
pub fn event_signed(pending: PendingSeal, answer: EngineAnswer<Vec<u8>>) -> (res: Result<
    SealedTrace,
    HostError,
>)
    ensures
        exists|sig: Result<Vec<u8>, HostError>| #[trigger]
            engine::engine_result("engine.local_sign: "@, answer, sig) && match sig {
                Ok(sig_bytes) => if sig_bytes@.len() == ED25519_SIGNATURE_LEN {
                    res is Ok && res->Ok_0.trace@ == seal::signed(
                        pending.trace@,
                        sig_bytes@,
                        pending.key_id@,
                    ) && res->Ok_0.provenance == pending.provenance
                } else {
                    res is Err && value::is_runtime_error(
                        res->Err_0,
                        short_signature_text(sig_bytes@.len()),
                    )
                },
                Err(error) => res == Err::<SealedTrace, HostError>(error),
            },
{
    match engine::engine_given("engine.local_sign: ", answer) {
        Ok(sig_bytes) => {
            if sig_bytes.len() != ED25519_SIGNATURE_LEN {
                let mut message = text::join(
                    "engine.local_sign returned ",
                    text::decimal(sig_bytes.len() as u64).as_str(),
                );
                message.append(" bytes, expected 64");
                return Err(HostError::Runtime(message));
            }
            let mut trace = pending.trace;
            seal::apply_signature(&mut trace, sig_bytes.as_slice(), pending.key_id.as_str());
            Ok(SealedTrace { trace, provenance: pending.provenance })
        },
        Err(error) => Err(error),
    }
}

/// What follows when the batch builder has answered.
pub fn event_batched(sealed: SealedTrace, answer: Result<Vec<u8>, String>) -> (res: Result<
    PendingBatch,
    HostError,
>)
    ensures
        match answer {
            Ok(batch) => res == Ok::<PendingBatch, HostError>(
                (PendingBatch { trace_id: sealed.trace.trace_id, batch }),
            ),
            Err(cause) => res is Err && value::is_runtime_error(
                res->Err_0,
                "build_batch_bytes: "@ + cause@,
            ),
        },
{
    match answer {
        Ok(batch) => Ok(PendingBatch { trace_id: sealed.trace.trace_id, batch }),
        Err(cause) => Err(HostError::runtime("build_batch_bytes: ", cause.as_str())),
    }
}

/// A count in what the engine says of a batch.
#[derive(Debug)]
pub enum SummaryField {
    Missing,
    Given(usize),
    /// It is there and no count; the text is what the host says of it.
    Mistyped(String),
}

/// The two counts that are read of what the engine says of a batch.
#[derive(Debug)]
pub struct EngineSummary {
    pub trace_events_inserted: SummaryField,
    pub signatures_verified: SummaryField,
}

/// Whether a count is what its field is worth.
pub open spec fn field_result(
    missing: Seq<char>,
    field: SummaryField,
    res: Result<usize, HostError>,
) -> bool {
    match field {
        SummaryField::Given(count) => res == Ok::<usize, HostError>(count),
        SummaryField::Missing => res is Err && value::is_runtime_error(res->Err_0, missing),
        SummaryField::Mistyped(raised) => res == Err::<usize, HostError>(HostError::Raised(raised)),
    }
}

fn field_given(missing: &str, field: SummaryField) -> (res: Result<usize, HostError>)
    ensures
        field_result(missing@, field, res),
{
    match field {
        SummaryField::Given(count) => Ok(count),
        SummaryField::Missing => Err(HostError::Runtime(missing.to_owned())),
        SummaryField::Mistyped(raised) => Err(HostError::Raised(raised)),
    }
}

/// Whether the counts that are read of a summary are what it says: the first
/// field that is not what it should be ends the reading.
pub open spec fn summary_result(
    summary: EngineSummary,
    res: Result<SealSummary, HostError>,
) -> bool {
    exists|inserted: Result<usize, HostError>, verified: Result<usize, HostError>| #[trigger]
        field_result(
            "receive_and_persist summary missing 'trace_events_inserted'"@,
            summary.trace_events_inserted,
            inserted,
        ) && #[trigger] field_result(
            "receive_and_persist summary missing 'signatures_verified'"@,
            summary.signatures_verified,
            verified,
        ) && match inserted {
            Err(error) => res == Err::<SealSummary, HostError>(error),
            Ok(trace_events_inserted) => match verified {
                Err(error) => res == Err::<SealSummary, HostError>(error),
                Ok(signatures_verified) => res == Ok::<SealSummary, HostError>(
                    (SealSummary { trace_events_inserted, signatures_verified }),
                ),
            },
        }
}

/// Reads the counts of a summary.
pub fn read_summary(summary: EngineSummary) -> (res: Result<SealSummary, HostError>)
    ensures
        summary_result(summary, res),
{
    let inserted = field_given(
        "receive_and_persist summary missing 'trace_events_inserted'",
        summary.trace_events_inserted,
    );
    let verified = field_given(
        "receive_and_persist summary missing 'signatures_verified'",
        summary.signatures_verified,
    );
    match inserted {
        Err(error) => Err(error),
        Ok(trace_events_inserted) => match verified {
            Err(error) => Err(error),
            Ok(signatures_verified) => Ok(
                SealSummary { trace_events_inserted, signatures_verified },
            ),
        },
    }
}

/// What the host gets of an event when the engine has taken its batch.
pub fn event_persisted(trace_id: String, answer: EngineAnswer<EngineSummary>) -> (res: Result<
    HostDict,
    HostError,
>)
    ensures
        exists|given: Result<EngineSummary, HostError>| #[trigger]
            engine::engine_result("engine.receive_and_persist: "@, answer, given) && match given {
                Err(error) => res == Err::<HostDict, HostError>(error),
                Ok(summary) => exists|counts: Result<SealSummary, HostError>| #[trigger]
                    summary_result(summary, counts) && match counts {
                        Err(error) => res == Err::<HostDict, HostError>(error),
                        Ok(summary) => res is Ok && res->Ok_0@ == outcome_entries(
                            CaptureEventOutcome::SealedAndPersisted { trace_id, summary },
                        ),
                    },
            },
{
    match engine::engine_given("engine.receive_and_persist: ", answer) {
        Ok(summary) => match read_summary(summary) {
            Ok(summary) => Ok(
                outcome_to_dict(CaptureEventOutcome::SealedAndPersisted { trace_id, summary }),
            ),
            Err(error) => Err(error),
        },
        Err(error) => Err(error),
    }
}

/// The host tells outcomes apart: two that give it the same are the same
/// outcome.
pub proof fn law_outcomes_are_told_apart(left: CaptureEventOutcome, right: CaptureEventOutcome)
    requires
        outcome_entries(left) == outcome_entries(right),
    ensures
        left is Opened <==> right is Opened,
        left is Appended <==> right is Appended,
        left matches CaptureEventOutcome::Rejected { raw } ==> right is Rejected && raw@
            == right->raw@,
        left matches CaptureEventOutcome::ConsentBlocked { reason } ==> right is ConsentBlocked
            && reason@ == right->reason@,
        left matches CaptureEventOutcome::SealedAndPersisted { trace_id, summary } ==> right
            is SealedAndPersisted && trace_id@ == right->trace_id@ && summary == right->summary,
{
    reveal_strlit("opened");
    reveal_strlit("appended");
    reveal_strlit("rejected");
    reveal_strlit("sealed_and_persisted");
    reveal_strlit("consent_blocked");
    let ours = outcome_entries(left);
    let theirs = outcome_entries(right);
    assert("opened"@.len() == 6);
    assert("appended"@.len() == 8);
    assert("appended"@[0] == 'a');
    assert("rejected"@.len() == 8);
    assert("rejected"@[0] == 'r');
    assert("sealed_and_persisted"@.len() == 20);
    assert("consent_blocked"@.len() == 15);
    assert(ours[0] == theirs[0]);
    if ours.len() > 1 {
        assert(ours[1] == theirs[1]);
    }
    if ours.len() > 2 {
        assert(ours[2] == theirs[2]);
        assert(ours[3] == theirs[3]);
    }
}

} // verus!
