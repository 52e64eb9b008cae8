//! Relay mode: how a relay starts, and how it ends.
//!
//! The signer, the transport and the runtime are the host's. The relay decides
//! in which order they are set up and what a failure of each means.
use vstd::prelude::*;

use crate::pipeline::lifecycle::LensCore;
use crate::text;

verus! {

/// How long the relay's transport waits for an answer, in seconds.
pub const DEFAULT_REQUEST_TIMEOUT_SECS: u64 = 30;

/// The file in the seed directory that holds the Ed25519 seed.
pub const ED25519_SEED_FILE: &'static str = "ed25519.seed";

/// The file in the seed directory that holds the ML-DSA-65 seed, if any.
pub const ML_DSA_65_SEED_FILE: &'static str = "ml_dsa_65.seed";

/// Why a relay did not start, or did not end well.
#[derive(Debug)]
#[non_exhaustive]
pub enum RelayError {
    /// The host's engine has no SQLite backend to share.
    NotSqliteBacked,
    /// The signing identity could not be loaded.
    Signer(String),
    /// The transport could not be opened.
    Transport(String),
    /// The edge could not be built, refused the handler or failed.
    Edge(String),
    /// The listener's task panicked or was cancelled.
    Join(String),
}

/// What is said of a relay that failed.
pub open spec fn relay_error_text(error: RelayError) -> Seq<char> {
    match error {
        RelayError::NotSqliteBacked =>
            "relay mode requires a SQLite-backed Engine; this Engine is Postgres-backed"@,
        RelayError::Signer(cause) => "load relay signer: "@ + cause@,
        RelayError::Transport(cause) => "edge transport: "@ + cause@,
        RelayError::Edge(cause) => "edge: "@ + cause@,
        RelayError::Join(cause) => "edge runtime task: "@ + cause@,
    }
}

impl RelayError {
    pub fn message(&self) -> (res: String)
        ensures
            res@ == relay_error_text(*self),
    {
        match self {
            RelayError::NotSqliteBacked =>
                "relay mode requires a SQLite-backed Engine; this Engine is Postgres-backed".to_owned(),
            RelayError::Signer(cause) => text::join("load relay signer: ", cause.as_str()),
            RelayError::Transport(cause) => text::join("edge transport: ", cause.as_str()),
            RelayError::Edge(cause) => text::join("edge: ", cause.as_str()),
            RelayError::Join(cause) => text::join("edge runtime task: ", cause.as_str()),
        }
    }
}

/// A key and the file that its seed is in.
#[derive(Debug)]
pub struct SeedKey {
    pub key_id: String,
    pub file: &'static str,
}

/// The keys that a relay's signing identity is loaded from.
#[derive(Debug)]
pub struct SeedPlan {
    pub classical: SeedKey,
    pub pqc: Option<SeedKey>,
}

/// What the signing identity is loaded from: the Ed25519 seed under the relay's
/// own name, and the ML-DSA-65 seed under that name with `-pqc` behind it, where
/// the directory has one.
pub fn seed_plan(key_id: &str, pqc_seed_present: bool) -> (res: SeedPlan)
    ensures
        res.classical.key_id@ == key_id@,
        res.classical.file@ == ED25519_SEED_FILE@,
        res.pqc is Some <==> pqc_seed_present,
        res.pqc matches Some(pqc) ==> pqc.key_id@ == key_id@ + "-pqc"@ && pqc.file@
            == ML_DSA_65_SEED_FILE@,
{
    let pqc = if pqc_seed_present {
        Some(SeedKey { key_id: text::join(key_id, "-pqc"), file: ML_DSA_65_SEED_FILE })
    } else {
        None
    };
    SeedPlan { classical: SeedKey { key_id: key_id.to_owned(), file: ED25519_SEED_FILE }, pqc }
}

/// A step of a relay's start, in order.
#[derive(Debug, Clone, Copy, PartialEq, Eq, Structural)]
pub enum RelayStage {
    LoadSigner,
    OpenTransport,
    BuildEdge,
    RegisterHandler,
    /// The listener is to be spawned; nothing can fail any more.
    Listen,
}

/// The stage after a stage.
pub open spec fn stage_after(stage: RelayStage) -> RelayStage {
    match stage {
        RelayStage::LoadSigner => RelayStage::OpenTransport,
        RelayStage::OpenTransport => RelayStage::BuildEdge,
        RelayStage::BuildEdge => RelayStage::RegisterHandler,
        RelayStage::RegisterHandler => RelayStage::Listen,
        RelayStage::Listen => RelayStage::Listen,
    }
}

/// What a failure at a stage is.
pub open spec fn stage_failure(stage: RelayStage, cause: String) -> RelayError {
    match stage {
        RelayStage::LoadSigner => RelayError::Signer(cause),
        RelayStage::OpenTransport => RelayError::Transport(cause),
        RelayStage::BuildEdge => RelayError::Edge(cause),
        RelayStage::RegisterHandler => RelayError::Edge(cause),
        RelayStage::Listen => RelayError::Edge(cause),
    }
}

impl LensCore {
    /// Where a relay starts: nowhere, unless the engine has an SQLite backend.
    pub fn relay(sqlite_backed: bool) -> (res: Result<RelayStage, RelayError>)
        ensures
            res == if sqlite_backed {
                Ok::<RelayStage, RelayError>(RelayStage::LoadSigner)
            } else {
                Err::<RelayStage, RelayError>(RelayError::NotSqliteBacked)
            },
    {
        if sqlite_backed {
            Ok(RelayStage::LoadSigner)
        } else {
            Err(RelayError::NotSqliteBacked)
        }
    }
}

/// What follows when a stage is done, or has failed.
pub fn relay_stage_done(stage: RelayStage, answer: Result<(), String>) -> (res: Result<
    RelayStage,
    RelayError,
>)
    ensures
        match answer {
            Ok(_) => res == Ok::<RelayStage, RelayError>(stage_after(stage)),
            Err(cause) => res == Err::<RelayStage, RelayError>(stage_failure(stage, cause)),
        },
{
    match answer {
        Ok(_) => Ok(
            match stage {
                RelayStage::LoadSigner => RelayStage::OpenTransport,
                RelayStage::OpenTransport => RelayStage::BuildEdge,
                RelayStage::BuildEdge => RelayStage::RegisterHandler,
                RelayStage::RegisterHandler => RelayStage::Listen,
                RelayStage::Listen => RelayStage::Listen,
            },
        ),
        Err(cause) => Err(
            match stage {
                RelayStage::LoadSigner => RelayError::Signer(cause),
                RelayStage::OpenTransport => RelayError::Transport(cause),
                RelayStage::BuildEdge => RelayError::Edge(cause),
                RelayStage::RegisterHandler => RelayError::Edge(cause),
                RelayStage::Listen => RelayError::Edge(cause),
            },
        ),
    }
}

/// A relay that listens, and where.
#[derive(Debug)]
pub struct RelayHandle<A> {
    listen_addr: A,
}

impl<A> View for RelayHandle<A> {
    type V = A;

    closed spec fn view(&self) -> A {
        self.listen_addr
    }
}

impl<A> RelayHandle<A> {
    pub fn new(listen_addr: A) -> (res: RelayHandle<A>)
        ensures
            res@ == listen_addr,
    {
        RelayHandle { listen_addr }
    }

    /// Where the relay listens.
    pub fn listen_addr(&self) -> (res: &A)
        ensures
            *res == self@,
    {
        &self.listen_addr
    }

    /// How the relay ended, from what its task left: the runtime's own result,
    /// or why there is none.
    pub fn shutdown(self, joined: Result<Result<(), String>, String>) -> (res: Result<
        (),
        RelayError,
    >)
        ensures
            match joined {
                Ok(Ok(_)) => res is Ok,
                Ok(Err(cause)) => res == Err::<(), RelayError>(RelayError::Edge(cause)),
                Err(cause) => res == Err::<(), RelayError>(RelayError::Join(cause)),
            },
    {
        match joined {
            Ok(Ok(_)) => Ok(()),
            Ok(Err(cause)) => Err(RelayError::Edge(cause)),
            Err(cause) => Err(RelayError::Join(cause)),
        }
    }
}

/// A failure of a stage keeps its cause, and what is said of a relay that failed
/// ends with the cause, whole.
pub proof fn law_relay_failures_keep_their_cause(cause: String)
    ensures
        stage_failure(RelayStage::LoadSigner, cause) == RelayError::Signer(cause),
        stage_failure(RelayStage::OpenTransport, cause) == RelayError::Transport(cause),
        stage_failure(RelayStage::BuildEdge, cause) == RelayError::Edge(cause),
        stage_failure(RelayStage::RegisterHandler, cause) == RelayError::Edge(cause),
        stage_failure(RelayStage::Listen, cause) == RelayError::Edge(cause),
        relay_error_text(RelayError::Signer(cause)) == "load relay signer: "@ + cause@,
        relay_error_text(RelayError::Transport(cause)) == "edge transport: "@ + cause@,
        relay_error_text(RelayError::Edge(cause)) == "edge: "@ + cause@,
        relay_error_text(RelayError::Join(cause)) == "edge runtime task: "@ + cause@,
{
}

/// A relay listens only once its handler is registered: no other stage of its
/// start leads there, and none comes back.
pub proof fn law_listening_follows_registration(stage: RelayStage)
    ensures
        stage_after(stage) == RelayStage::Listen <==> (stage == RelayStage::RegisterHandler
            || stage == RelayStage::Listen),
        stage_after(stage) != RelayStage::LoadSigner,
        stage_after(stage) == RelayStage::OpenTransport <==> stage == RelayStage::LoadSigner,
        stage_after(stage) == RelayStage::BuildEdge <==> stage == RelayStage::OpenTransport,
        stage_after(stage) == RelayStage::RegisterHandler <==> stage == RelayStage::BuildEdge,
{
}

/// The keys of a relay are under its own name: the second one, where there is a
/// seed for it, has the name with four characters behind it.
pub proof fn law_relay_keys_are_under_its_name(
    key_id: &str,
    pqc_seed_present: bool,
    plan: SeedPlan,
)
    requires
        call_ensures(seed_plan, (key_id, pqc_seed_present), plan),
    ensures
        plan.classical.key_id@ == key_id@,
        plan.classical.file@ == "ed25519.seed"@,
        plan.pqc is Some <==> pqc_seed_present,
        plan.pqc is Some ==> plan.pqc->Some_0.key_id@ == key_id@ + seq!['-', 'p', 'q', 'c'],
        plan.pqc is Some ==> plan.pqc->Some_0.file@ == "ml_dsa_65.seed"@,
{
    reveal_strlit("-pqc");
    assert("-pqc"@ =~= seq!['-', 'p', 'q', 'c']);
}

/// A relay ends well exactly where its task did, and else with the task's reason.
pub proof fn law_relay_ends_as_its_task<A>(
    handle: RelayHandle<A>,
    joined: Result<Result<(), String>, String>,
    res: Result<(), RelayError>,
)
    requires
        call_ensures(RelayHandle::<A>::shutdown, (handle, joined), res),
    ensures
        res is Ok <==> joined is Ok && joined->Ok_0 is Ok,
        joined is Err ==> res->Err_0 == RelayError::Join(joined->Err_0),
        joined is Ok && joined->Ok_0 is Err ==> res->Err_0 == RelayError::Edge(
            joined->Ok_0->Err_0,
        ),
{
}

/// A relay says where it listens as it was told.
pub proof fn law_relay_says_where_it_listens<A>(listen_addr: A, handle: RelayHandle<A>, said: &A)
    requires
        call_ensures(RelayHandle::<A>::new, (listen_addr,), handle),
        call_ensures(RelayHandle::<A>::listen_addr, (&handle,), said),
    ensures
        *said == listen_addr,
{
}

} // verus!
