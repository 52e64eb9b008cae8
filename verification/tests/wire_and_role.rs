use ciris_lens_core::pipeline::lifecycle::LensCore;
use ciris_lens_core::role::relay::{
    relay_stage_done, seed_plan, RelayError, RelayHandle, RelayStage, DEFAULT_REQUEST_TIMEOUT_SECS,
};
use ciris_lens_core::wire::signer::{bound_message, Ed25519TraceSigner, SignError};

#[test]
fn ed25519_alone_is_sixty_four_bytes() {
    let signer = Ed25519TraceSigner::new("steward".into());
    assert_eq!(signer.key_id(), "steward");
    let signed = signer
        .sign_ed25519(Ok(vec![1, 2, 3]), |message: &Vec<u8>| {
            assert_eq!(message, &vec![1, 2, 3]);
            Ok(vec![9; 64])
        })
        .unwrap();
    assert_eq!(signed.canonical_bytes, vec![1, 2, 3]);
    assert_eq!(signed.ed25519_sig, vec![9; 64]);
    assert!(signed.ml_dsa_65_sig.is_none());
    assert_eq!(signed.signing_key_id, "steward");
}

#[test]
fn hybrid_binds_the_first_signature() {
    let signer = Ed25519TraceSigner::new("steward".into());
    let pending = signer
        .sign_hybrid(Ok(vec![1, 2]), |_: &Vec<u8>| Ok(vec![7; 64]))
        .unwrap();
    let mut bound = vec![1, 2];
    bound.extend_from_slice(&[7; 64]);
    assert_eq!(pending.bound, bound);
    let signed = signer.finish_hybrid(pending, Ok(vec![8; 3309])).unwrap();
    assert_eq!(signed.canonical_bytes, vec![1, 2]);
    assert_eq!(signed.ed25519_sig, vec![7; 64]);
    assert_eq!(signed.ml_dsa_65_sig, Some(vec![8; 3309]));
    assert_eq!(signed.signing_key_id, "steward");
}

#[test]
fn hybrid_begins_as_ed25519_alone() {
    let signer = Ed25519TraceSigner::new("steward".into());
    let sign = |message: &Vec<u8>| -> Result<Vec<u8>, String> { Ok(vec![message.len() as u8; 64]) };
    let alone = signer.sign_ed25519(Ok(vec![1, 2]), sign).unwrap();
    let pending = signer.sign_hybrid(Ok(vec![1, 2]), sign).unwrap();
    let hybrid = signer.finish_hybrid(pending, Ok(vec![0; 3309])).unwrap();
    assert_eq!(alone.canonical_bytes, hybrid.canonical_bytes);
    assert_eq!(alone.ed25519_sig, hybrid.ed25519_sig);
    assert_eq!(alone.signing_key_id, hybrid.signing_key_id);
    assert!(alone.ml_dsa_65_sig.is_none() && hybrid.ml_dsa_65_sig.is_some());
}

#[test]
fn each_sign_error() {
    let signer = Ed25519TraceSigner::new("steward".into());
    let good = |_: &Vec<u8>| -> Result<Vec<u8>, String> { Ok(vec![7; 64]) };
    let e = signer.sign_ed25519(Err("nan".into()), good).unwrap_err();
    assert_eq!(e.message(), "canonicalize: nan");
    let e = signer
        .sign_hybrid(Ok(vec![]), |_: &Vec<u8>| Err("no seed".to_string()))
        .unwrap_err();
    assert_eq!(e.message(), "signer: no seed");
    let e = signer
        .sign_hybrid(Ok(vec![]), |_: &Vec<u8>| Ok(vec![7; 63]))
        .unwrap_err();
    assert!(matches!(
        e,
        SignError::SignatureShape {
            field: "ed25519_sig",
            actual: 63,
            expected: 64
        }
    ));
    assert_eq!(
        e.message(),
        "signature shape: ed25519_sig length is 63, expected 64"
    );
    let pending = signer.sign_hybrid(Ok(vec![]), good).unwrap();
    let e = signer
        .finish_hybrid(pending, Ok(vec![0; 100]))
        .unwrap_err();
    assert_eq!(
        e.message(),
        "signature shape: ml_dsa_65_sig length is 100, expected 3309"
    );
    let pending = signer.sign_hybrid(Ok(vec![]), good).unwrap();
    let e = signer
        .finish_hybrid(pending, Err("no pqc".into()))
        .unwrap_err();
    assert_eq!(e.message(), "signer: no pqc");
}

#[test]
fn bound_message_is_one_after_the_other() {
    assert_eq!(bound_message(&[1], &[2, 3]), vec![1, 2, 3]);
    assert_eq!(bound_message(&[], &[]), Vec::<u8>::new());
}

#[test]
fn relay_error_messages_are_actionable() {
    assert!(RelayError::NotSqliteBacked
        .message()
        .contains("SQLite-backed Engine"));
    assert_eq!(
        RelayError::Signer("seed missing".into()).message(),
        "load relay signer: seed missing",
    );
    assert_eq!(
        RelayError::Join("panicked".into()).message(),
        "edge runtime task: panicked",
    );
    assert_eq!(
        RelayError::Transport("bind".into()).message(),
        "edge transport: bind"
    );
    assert_eq!(RelayError::Edge("full".into()).message(), "edge: full");
}

#[test]
fn relay_starts_in_order() {
    assert!(matches!(
        LensCore::relay(false),
        Err(RelayError::NotSqliteBacked)
    ));
    let mut stage = LensCore::relay(true).unwrap();
    for expected in [
        RelayStage::LoadSigner,
        RelayStage::OpenTransport,
        RelayStage::BuildEdge,
        RelayStage::RegisterHandler,
    ] {
        assert_eq!(stage, expected);
        stage = relay_stage_done(stage, Ok(())).unwrap();
    }
    assert_eq!(stage, RelayStage::Listen);
}

#[test]
fn relay_failures_name_their_stage() {
    let failed = |stage| relay_stage_done(stage, Err("x".into())).unwrap_err();
    assert!(matches!(
        failed(RelayStage::LoadSigner),
        RelayError::Signer(_)
    ));
    assert!(matches!(
        failed(RelayStage::OpenTransport),
        RelayError::Transport(_)
    ));
    assert!(matches!(failed(RelayStage::BuildEdge), RelayError::Edge(_)));
    assert!(matches!(
        failed(RelayStage::RegisterHandler),
        RelayError::Edge(_)
    ));
}

#[test]
fn relay_ends_as_its_task_did() {
    let handle = || RelayHandle::new("127.0.0.1:4242".to_string());
    assert_eq!(handle().listen_addr(), "127.0.0.1:4242");
    assert!(handle().shutdown(Ok(Ok(()))).is_ok());
    assert!(matches!(
        handle().shutdown(Ok(Err("x".into()))),
        Err(RelayError::Edge(_))
    ));
    assert!(matches!(
        handle().shutdown(Err("x".into())),
        Err(RelayError::Join(_))
    ));
}

#[test]
fn second_seed_only_where_it_is_there() {
    let plan = seed_plan("relay-test", true);
    assert_eq!(plan.classical.key_id, "relay-test");
    assert_eq!(plan.classical.file, "ed25519.seed");
    let pqc = plan.pqc.unwrap();
    assert_eq!(pqc.key_id, "relay-test-pqc");
    assert_eq!(pqc.file, "ml_dsa_65.seed");
    assert!(seed_plan("relay-test", false).pqc.is_none());
    assert_eq!(DEFAULT_REQUEST_TIMEOUT_SECS, 30);
}
