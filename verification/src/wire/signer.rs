//! Signing a batch for the wire: with Ed25519 alone, or with Ed25519 and then
//! ML-DSA-65 over the same bytes and the first signature.
//!
//! The keys are the host's. The signer decides what is signed, and whether what
//! comes back has the shape of a signature.
use vstd::prelude::*;

use crate::text;

verus! {

/// How many bytes an Ed25519 signature has.
pub const ED25519_SIGNATURE_LEN: usize = 64;

/// How many bytes an ML-DSA-65 signature has.
pub const ML_DSA_65_SIGNATURE_LEN: usize = 3309;

/// Why a batch was not signed.
#[derive(Debug)]
pub enum SignError {
    /// The batch could not be made canonical.
    Canonicalize(String),
    /// The host's signer failed.
    Signer(String),
    /// What came back is not as long as a signature.
    SignatureShape { field: &'static str, actual: usize, expected: usize },
}

/// What is said of a batch that was not signed.
pub open spec fn sign_error_text(error: SignError) -> Seq<char> {
    match error {
        SignError::Canonicalize(cause) => "canonicalize: "@ + cause@,
        SignError::Signer(cause) => "signer: "@ + cause@,
        SignError::SignatureShape { field, actual, expected } => "signature shape: "@ + field@
            + " length is "@ + text::decimal_text(actual as nat) + ", expected "@
            + text::decimal_text(expected as nat),
    }
}

impl SignError {
    pub fn message(&self) -> (res: String)
        ensures
            res@ == sign_error_text(*self),
    {
        match self {
            SignError::Canonicalize(cause) => text::join("canonicalize: ", cause.as_str()),
            SignError::Signer(cause) => text::join("signer: ", cause.as_str()),
            SignError::SignatureShape { field, actual, expected } => {
                let mut message = text::join("signature shape: ", field);
                message.append(" length is ");
                message.append(text::decimal(*actual as u64).as_str());
                message.append(", expected ");
                message.append(text::decimal(*expected as u64).as_str());
                message
            },
        }
    }
}

/// A batch's canonical bytes and what was signed over them.
#[derive(Debug, Clone)]
pub struct SignedEnvelope {
    pub canonical_bytes: Vec<u8>,
    /// 64 bytes over the canonical bytes.
    pub ed25519_sig: Vec<u8>,
    /// 3309 bytes over the canonical bytes and the first signature, where the
    /// signature is a hybrid one.
    pub ml_dsa_65_sig: Option<Vec<u8>>,
    pub signing_key_id: String,
}

impl SignedEnvelope {
    /// Whether each signature has its length.
    pub open spec fn well_shaped(&self) -> bool {
        &&& self.ed25519_sig@.len() == ED25519_SIGNATURE_LEN
        &&& self.ml_dsa_65_sig matches Some(sig) ==> sig@.len() == ML_DSA_65_SIGNATURE_LEN
    }
}

/// A batch with its first signature, that waits for the second one over
/// `bound`.
#[derive(Debug)]
pub struct PendingHybrid {
    pub canonical_bytes: Vec<u8>,
    pub ed25519_sig: Vec<u8>,
    pub bound: Vec<u8>,
}

impl PendingHybrid {
    /// Whether the second signature is over the canonical bytes followed by the
    /// first signature, and that one has its length.
    pub open spec fn bound_well(&self) -> bool {
        &&& self.ed25519_sig@.len() == ED25519_SIGNATURE_LEN
        &&& self.bound@ == self.canonical_bytes@ + self.ed25519_sig@
    }
}

/// What a signer's answer is worth: its bytes where there are as many as there
/// should be.
pub open spec fn checked(
    answer: Result<Vec<u8>, String>,
    field: Seq<char>,
    expected: usize,
    res: Result<Vec<u8>, SignError>,
) -> bool {
    match answer {
        Err(cause) => res == Err::<Vec<u8>, SignError>(SignError::Signer(cause)),
        Ok(sig) => if sig@.len() == expected {
            res == Ok::<Vec<u8>, SignError>(sig)
        } else {
            res matches Err(SignError::SignatureShape { field: named, actual, expected: wanted })
                && named@ == field && actual == sig@.len() && wanted == expected
        },
    }
}

/// Whether a batch is signed with Ed25519 alone as it should be, under a key's
/// name: over the canonical bytes, by what the signer may answer for them.
pub open spec fn signed_alone<S: Fn(&Vec<u8>) -> Result<Vec<u8>, String>>(
    key_id: Seq<char>,
    canonical: Result<Vec<u8>, String>,
    sign: S,
    res: Result<SignedEnvelope, SignError>,
) -> bool {
    match canonical {
        Err(cause) => res == Err::<SignedEnvelope, SignError>(SignError::Canonicalize(cause)),
        Ok(canonical_bytes) => exists|
            answer: Result<Vec<u8>, String>,
            first: Result<Vec<u8>, SignError>,
        |
            #[trigger] call_ensures(sign, (&canonical_bytes,), answer) && #[trigger] checked(
                answer,
                "ed25519_sig"@,
                ED25519_SIGNATURE_LEN,
                first,
            ) && match first {
                Ok(ed25519_sig) => res is Ok && res->Ok_0.canonical_bytes == canonical_bytes
                    && res->Ok_0.ed25519_sig == ed25519_sig && res->Ok_0.ml_dsa_65_sig is None
                    && res->Ok_0.signing_key_id@ == key_id && res->Ok_0.well_shaped(),
                Err(error) => res == Err::<SignedEnvelope, SignError>(error),
            },
    }
}

/// Whether the first half of a hybrid signature is as it should be.
pub open spec fn half_signed<S: Fn(&Vec<u8>) -> Result<Vec<u8>, String>>(
    canonical: Result<Vec<u8>, String>,
    sign: S,
    res: Result<PendingHybrid, SignError>,
) -> bool {
    match canonical {
        Err(cause) => res == Err::<PendingHybrid, SignError>(SignError::Canonicalize(cause)),
        Ok(canonical_bytes) => exists|
            answer: Result<Vec<u8>, String>,
            first: Result<Vec<u8>, SignError>,
        |
            #[trigger] call_ensures(sign, (&canonical_bytes,), answer) && #[trigger] checked(
                answer,
                "ed25519_sig"@,
                ED25519_SIGNATURE_LEN,
                first,
            ) && match first {
                Ok(ed25519_sig) => res is Ok && res->Ok_0.canonical_bytes == canonical_bytes
                    && res->Ok_0.ed25519_sig == ed25519_sig && res->Ok_0.bound_well(),
                Err(error) => res == Err::<PendingHybrid, SignError>(error),
            },
    }
}

/// Whether the second half of a hybrid signature is as it should be, under a
/// key's name.
pub open spec fn both_signed(
    key_id: Seq<char>,
    pending: PendingHybrid,
    answer: Result<Vec<u8>, String>,
    res: Result<SignedEnvelope, SignError>,
) -> bool {
    exists|second: Result<Vec<u8>, SignError>| #[trigger]
        checked(answer, "ml_dsa_65_sig"@, ML_DSA_65_SIGNATURE_LEN, second) && match second {
            Ok(ml_dsa_65_sig) => res is Ok && res->Ok_0.canonical_bytes == pending.canonical_bytes
                && res->Ok_0.ed25519_sig == pending.ed25519_sig && res->Ok_0.ml_dsa_65_sig == Some(
                ml_dsa_65_sig,
            ) && res->Ok_0.signing_key_id@ == key_id && (pending.bound_well()
                ==> res->Ok_0.well_shaped()),
            Err(error) => res == Err::<SignedEnvelope, SignError>(error),
        }
}

fn check_signature(
    answer: Result<Vec<u8>, String>,
    field: &'static str,
    expected: usize,
) -> (res: Result<Vec<u8>, SignError>)
    ensures
        checked(answer, field@, expected, res),
{
    match answer {
        Err(cause) => Err(SignError::Signer(cause)),
        Ok(sig) => {
            let actual: usize = sig.len();
            if actual == expected {
                Ok(sig)
            } else {
                Err(SignError::SignatureShape { field, actual, expected })
            }
        },
    }
}

/// One byte string after the other.
pub fn bound_message(canonical_bytes: &[u8], signature: &[u8]) -> (res: Vec<u8>)
    ensures
        res@ == canonical_bytes@ + signature@,
{
    let mut bound: Vec<u8> = Vec::new();
    bound.extend_from_slice(canonical_bytes);
    bound.extend_from_slice(signature);
    proof {
        assert(bound@ =~= canonical_bytes@ + signature@);
    }
    bound
}

/// The identity that batches are signed with.
#[derive(Debug, Clone)]
pub struct Ed25519TraceSigner {
    key_id: String,
}

impl View for Ed25519TraceSigner {
    type V = Seq<char>;

    closed spec fn view(&self) -> Seq<char> {
        self.key_id@
    }
}

impl Ed25519TraceSigner {
    /// An identity under its name.
    pub fn new(key_id: String) -> (res: Ed25519TraceSigner)
        ensures
            res@ == key_id@,
    {
        Ed25519TraceSigner { key_id }
    }

    /// The name of the key.
    pub fn key_id(&self) -> (res: &str)
        ensures
            res@ == self@,
    {
        self.key_id.as_str()
    }

    /// Signs a batch with Ed25519 alone.
    pub fn sign_ed25519<S: Fn(&Vec<u8>) -> Result<Vec<u8>, String>>(
        &self,
        canonical: Result<Vec<u8>, String>,
        sign: S,
    ) -> (res: Result<SignedEnvelope, SignError>)
        requires
            forall|message: &Vec<u8>| #[trigger] call_requires(sign, (message,)),
        ensures
            signed_alone(self@, canonical, sign, res),
    {
        let canonical_bytes = match canonical {
            Ok(canonical_bytes) => canonical_bytes,
            Err(cause) => {
                return Err(SignError::Canonicalize(cause));
            },
        };
        let answer = sign(&canonical_bytes);
        match check_signature(answer, "ed25519_sig", ED25519_SIGNATURE_LEN) {
            Ok(ed25519_sig) => Ok(
                SignedEnvelope {
                    canonical_bytes,
                    ed25519_sig,
                    ml_dsa_65_sig: None,
                    signing_key_id: self.key_id.clone(),
                },
            ),
            Err(error) => Err(error),
        }
    }

    /// The first half of a hybrid signature: Ed25519 over the canonical bytes,
    /// and what the second half is over.
    pub fn sign_hybrid<S: Fn(&Vec<u8>) -> Result<Vec<u8>, String>>(
        &self,
        canonical: Result<Vec<u8>, String>,
        sign: S,
    ) -> (res: Result<PendingHybrid, SignError>)
        requires
            forall|message: &Vec<u8>| #[trigger] call_requires(sign, (message,)),
        ensures
            half_signed(canonical, sign, res),
    {
        match self.sign_ed25519(canonical, sign) {
            Ok(signed) => {
                let bound = bound_message(
                    signed.canonical_bytes.as_slice(),
                    signed.ed25519_sig.as_slice(),
                );
                Ok(
                    PendingHybrid {
                        canonical_bytes: signed.canonical_bytes,
                        ed25519_sig: signed.ed25519_sig,
                        bound,
                    },
                )
            },
            Err(error) => Err(error),
        }
    }

    /// The second half of a hybrid signature, from the answer to `bound`.
    pub fn finish_hybrid(
        &self,
        pending: PendingHybrid,
        answer: Result<Vec<u8>, String>,
    ) -> (res: Result<SignedEnvelope, SignError>)
        ensures
            both_signed(self@, pending, answer, res),
    {
        match check_signature(answer, "ml_dsa_65_sig", ML_DSA_65_SIGNATURE_LEN) {
            Ok(ml_dsa_65_sig) => Ok(
                SignedEnvelope {
                    canonical_bytes: pending.canonical_bytes,
                    ed25519_sig: pending.ed25519_sig,
                    ml_dsa_65_sig: Some(ml_dsa_65_sig),
                    signing_key_id: self.key_id.clone(),
                },
            ),
            Err(error) => Err(error),
        }
    }
}

/// The bound message says both: two that are equal, over first signatures of
/// the right length, hold the same canonical bytes and the same first signature.
pub proof fn law_bound_message_binds_both(
    left_bytes: Seq<u8>,
    left_sig: Seq<u8>,
    right_bytes: Seq<u8>,
    right_sig: Seq<u8>,
)
    requires
        left_sig.len() == ED25519_SIGNATURE_LEN,
        right_sig.len() == ED25519_SIGNATURE_LEN,
        left_bytes + left_sig == right_bytes + right_sig,
    ensures
        left_bytes == right_bytes,
        left_sig == right_sig,
{
    let left = left_bytes + left_sig;
    let right = right_bytes + right_sig;
    assert(left.len() == right.len());
    assert(left_bytes =~= left.take(left_bytes.len() as int));
    assert(right_bytes =~= right.take(right_bytes.len() as int));
    assert(left_sig =~= left.skip(left_bytes.len() as int));
    assert(right_sig =~= right.skip(right_bytes.len() as int));
}

/// What goes onto the wire is the signer's own answer: a batch that is signed with
/// Ed25519 alone holds the bytes that were to be signed and, byte for byte, 64
/// bytes that the signer gave for them, under the key's name, and nothing more.
pub proof fn law_signature_is_the_answer<S: Fn(&Vec<u8>) -> Result<Vec<u8>, String>>(
    key_id: Seq<char>,
    bytes: Vec<u8>,
    sign: S,
    alone: SignedEnvelope,
)
    requires
        signed_alone(key_id, Ok(bytes), sign, Ok(alone)),
    ensures
        alone.canonical_bytes@ == bytes@,
        exists|answer: Vec<u8>| #[trigger]
            call_ensures(sign, (&bytes,), Ok(answer)) && alone.ed25519_sig@ == answer@
                && answer@.len() == 64,
        alone.ml_dsa_65_sig is None,
        alone.signing_key_id@ == key_id,
{
    let (answer, first) = choose|
        answer: Result<Vec<u8>, String>,
        first: Result<Vec<u8>, SignError>,
    |
        #[trigger] call_ensures(sign, (&bytes,), answer) && #[trigger] checked(
            answer,
            "ed25519_sig"@,
            ED25519_SIGNATURE_LEN,
            first,
        ) && match first {
            Ok(ed25519_sig) => alone.ed25519_sig == ed25519_sig,
            Err(error) => false,
        };
    assert(call_ensures(sign, (&bytes,), Ok(answer->Ok_0)));
}

/// A hybrid signature holds both answers byte for byte: the first over the bytes
/// that were to be signed, and the second, of 3309 bytes, over those bytes and
/// then the first.
pub proof fn law_hybrid_holds_both_answers<S: Fn(&Vec<u8>) -> Result<Vec<u8>, String>>(
    key_id: Seq<char>,
    bytes: Vec<u8>,
    sign: S,
    pending: PendingHybrid,
    second: Result<Vec<u8>, String>,
    hybrid: SignedEnvelope,
)
    requires
        half_signed(Ok(bytes), sign, Ok(pending)),
        both_signed(key_id, pending, second, Ok(hybrid)),
    ensures
        exists|answer: Vec<u8>| #[trigger]
            call_ensures(sign, (&bytes,), Ok(answer)) && pending.ed25519_sig@ == answer@
                && answer@.len() == 64 && pending.bound@ == bytes@ + answer@
                && hybrid.ed25519_sig@ == answer@,
        pending.canonical_bytes@ == bytes@,
        hybrid.canonical_bytes@ == bytes@,
        second is Ok,
        second->Ok_0@.len() == 3309,
        hybrid.ml_dsa_65_sig is Some,
        hybrid.ml_dsa_65_sig->0@ == second->Ok_0@,
        hybrid.signing_key_id@ == key_id,
{
    let (answer, first) = choose|
        answer: Result<Vec<u8>, String>,
        first: Result<Vec<u8>, SignError>,
    |
        #[trigger] call_ensures(sign, (&bytes,), answer) && #[trigger] checked(
            answer,
            "ed25519_sig"@,
            ED25519_SIGNATURE_LEN,
            first,
        ) && match first {
            Ok(ed25519_sig) => pending.ed25519_sig == ed25519_sig && pending.bound_well(),
            Err(error) => false,
        };
    assert(call_ensures(sign, (&bytes,), Ok(answer->Ok_0)));
}

/// Why a batch is not signed: it could not be made canonical, and then no signer
/// is asked; or the signer gave no bytes; or not as many as a signature has, and
/// then the error says of which one, how many there were and how many there
/// should be.
pub proof fn law_sign_errors_say_why<S: Fn(&Vec<u8>) -> Result<Vec<u8>, String>>(
    key_id: Seq<char>,
    canonical: Result<Vec<u8>, String>,
    sign: S,
    alone: Result<SignedEnvelope, SignError>,
    half: Result<PendingHybrid, SignError>,
)
    requires
        signed_alone(key_id, canonical, sign, alone),
        half_signed(canonical, sign, half),
    ensures
        canonical matches Err(cause) ==> alone == Err::<SignedEnvelope, SignError>(
            SignError::Canonicalize(cause),
        ) && half == Err::<PendingHybrid, SignError>(SignError::Canonicalize(cause)),
        canonical is Ok && alone is Err ==> exists|answer: Result<Vec<u8>, String>| #[trigger]
            call_ensures(sign, (&canonical->Ok_0,), answer) && match answer {
                Err(cause) => alone->Err_0 == SignError::Signer(cause),
                Ok(sig) => sig@.len() != 64 && alone->Err_0 is SignatureShape
                    && alone->Err_0->field@ == "ed25519_sig"@ && alone->Err_0->actual == sig@.len()
                    && alone->Err_0->expected == 64,
            },
        canonical is Ok && half is Err ==> exists|answer: Result<Vec<u8>, String>| #[trigger]
            call_ensures(sign, (&canonical->Ok_0,), answer) && match answer {
                Err(cause) => half->Err_0 == SignError::Signer(cause),
                Ok(sig) => sig@.len() != 64 && half->Err_0 is SignatureShape && half->Err_0->field@
                    == "ed25519_sig"@ && half->Err_0->actual == sig@.len() && half->Err_0->expected
                    == 64,
            },
{
}

/// A good signer signs: where whatever the signer answers for the bytes is 64
/// bytes, there is a signature.
pub proof fn law_good_answers_sign<S: Fn(&Vec<u8>) -> Result<Vec<u8>, String>>(
    key_id: Seq<char>,
    bytes: Vec<u8>,
    sign: S,
    alone: Result<SignedEnvelope, SignError>,
    half: Result<PendingHybrid, SignError>,
)
    requires
        signed_alone(key_id, Ok(bytes), sign, alone),
        half_signed(Ok(bytes), sign, half),
        forall|answer: Result<Vec<u8>, String>| #[trigger]
            call_ensures(sign, (&bytes,), answer) ==> answer is Ok && answer->Ok_0@.len() == 64,
    ensures
        alone is Ok,
        half is Ok,
{
}

/// The second answer is a signature if and only if it has 3309 bytes; otherwise
/// the error is the signer's own, or says how many there were.
pub proof fn law_second_answer_is_held_or_refused(
    key_id: Seq<char>,
    pending: PendingHybrid,
    second: Result<Vec<u8>, String>,
    res: Result<SignedEnvelope, SignError>,
)
    requires
        both_signed(key_id, pending, second, res),
    ensures
        second matches Err(cause) ==> res == Err::<SignedEnvelope, SignError>(
            SignError::Signer(cause),
        ),
        second is Ok && second->Ok_0@.len() == 3309 ==> res is Ok && res->Ok_0.ml_dsa_65_sig is Some
            && res->Ok_0.ml_dsa_65_sig->0@ == second->Ok_0@ && res->Ok_0.ed25519_sig@
            == pending.ed25519_sig@ && res->Ok_0.canonical_bytes@ == pending.canonical_bytes@
            && res->Ok_0.signing_key_id@ == key_id,
        second is Ok && second->Ok_0@.len() != 3309 ==> res is Err && res->Err_0 is SignatureShape
            && res->Err_0->field@ == "ml_dsa_65_sig"@ && res->Err_0->actual == second->Ok_0@.len()
            && res->Err_0->expected == 3309,
{
}

/// What is said of a batch that was not signed has its cause in it, whole, and of
/// a signature that is none its name and both lengths.
pub proof fn law_sign_errors_say_their_cause(
    cause: String,
    field: &'static str,
    actual: usize,
    expected: usize,
)
    ensures
        sign_error_text(SignError::Canonicalize(cause)) == "canonicalize: "@ + cause@,
        sign_error_text(SignError::Signer(cause)) == "signer: "@ + cause@,
        sign_error_text(SignError::SignatureShape { field, actual, expected })
            == "signature shape: "@ + field@ + " length is "@ + text::decimal_text(actual as nat)
            + ", expected "@ + text::decimal_text(expected as nat),
{
}

/// Whether a signer answers the same bytes alike: with the same signature, or
/// with none each time.
pub open spec fn signs_alike<S: Fn(&Vec<u8>) -> Result<Vec<u8>, String>>(sign: S) -> bool {
    forall|
        left: &Vec<u8>,
        right: &Vec<u8>,
        ours: Result<Vec<u8>, String>,
        theirs: Result<Vec<u8>, String>,
    |
        left@ == right@ && #[trigger] call_ensures(sign, (left,), ours) && #[trigger] call_ensures(
            sign,
            (right,),
            theirs,
        ) ==> match ours {
            Ok(sig) => theirs is Ok && sig@ == theirs->Ok_0@,
            Err(_) => theirs is Err,
        }
}

/// A hybrid signature begins as one with Ed25519 alone: for a signer that answers
/// the same bytes alike, the two hold the same canonical bytes and the same first
/// signature, of its length and under the same name, and only the hybrid one
/// holds a second.
pub proof fn law_hybrid_begins_as_ed25519<S: Fn(&Vec<u8>) -> Result<Vec<u8>, String>>(
    key_id: Seq<char>,
    left_bytes: Vec<u8>,
    right_bytes: Vec<u8>,
    sign: S,
    alone: SignedEnvelope,
    pending: PendingHybrid,
    answer: Result<Vec<u8>, String>,
    hybrid: SignedEnvelope,
)
    requires
        signs_alike(sign),
        left_bytes@ == right_bytes@,
        signed_alone(key_id, Ok(left_bytes), sign, Ok(alone)),
        half_signed(Ok(right_bytes), sign, Ok(pending)),
        both_signed(key_id, pending, answer, Ok(hybrid)),
    ensures
        alone.canonical_bytes@ == hybrid.canonical_bytes@,
        alone.canonical_bytes@ == left_bytes@,
        alone.ed25519_sig@ == hybrid.ed25519_sig@,
        alone.ed25519_sig@.len() == ED25519_SIGNATURE_LEN,
        alone.signing_key_id@ == key_id,
        hybrid.signing_key_id@ == key_id,
        alone.ml_dsa_65_sig is None,
        hybrid.ml_dsa_65_sig matches Some(sig) && sig@.len() == ML_DSA_65_SIGNATURE_LEN,
        pending.bound@ == left_bytes@ + alone.ed25519_sig@,
{
}

/// An envelope is well shaped where its first signature has 64 bytes, and its
/// second, where it has one, 3309.
pub proof fn law_well_shaped_is_by_length(envelope: SignedEnvelope)
    ensures
        envelope.well_shaped() <==> (envelope.ed25519_sig@.len() == 64 && (envelope.ml_dsa_65_sig
            is None || envelope.ml_dsa_65_sig->Some_0@.len() == 3309)),
{
}

/// What a signer signs alone is under the name that it was made with: it holds the
/// canonical bytes, what its key answered for them, and no second signature.
pub proof fn law_signer_signs_under_its_name<S: Fn(&Vec<u8>) -> Result<Vec<u8>, String>>(
    key_id: String,
    signer: Ed25519TraceSigner,
    canonical: Result<Vec<u8>, String>,
    sign: S,
    envelope: SignedEnvelope,
)
    requires
        call_ensures(Ed25519TraceSigner::new, (key_id,), signer),
        call_ensures(
            Ed25519TraceSigner::sign_ed25519::<S>,
            (&signer, canonical, sign),
            Ok(envelope),
        ),
    ensures
        canonical is Ok,
        envelope.canonical_bytes@ == canonical->Ok_0@,
        call_ensures(sign, (&canonical->Ok_0,), Ok(envelope.ed25519_sig)),
        envelope.ed25519_sig@.len() == 64,
        envelope.ml_dsa_65_sig is None,
        envelope.signing_key_id@ == key_id@,
{
    law_signature_is_the_answer(key_id@, canonical->Ok_0, sign, envelope);
}

/// What a signer signs twice is under the name that it was made with: it holds the
/// canonical bytes, what its first key answered for them, and what its second key
/// answered for the canonical bytes with the first signature behind them.
pub proof fn law_hybrid_is_under_its_name<S: Fn(&Vec<u8>) -> Result<Vec<u8>, String>>(
    key_id: String,
    signer: Ed25519TraceSigner,
    canonical: Result<Vec<u8>, String>,
    sign: S,
    pending: PendingHybrid,
    answer: Result<Vec<u8>, String>,
    envelope: SignedEnvelope,
)
    requires
        call_ensures(Ed25519TraceSigner::new, (key_id,), signer),
        call_ensures(
            Ed25519TraceSigner::sign_hybrid::<S>,
            (&signer, canonical, sign),
            Ok(pending),
        ),
        call_ensures(
            Ed25519TraceSigner::finish_hybrid,
            (&signer, pending, answer),
            Ok(envelope),
        ),
    ensures
        canonical is Ok,
        envelope.canonical_bytes@ == canonical->Ok_0@,
        call_ensures(sign, (&canonical->Ok_0,), Ok(envelope.ed25519_sig)),
        envelope.ed25519_sig@.len() == 64,
        pending.bound@ == canonical->Ok_0@ + envelope.ed25519_sig@,
        answer is Ok,
        envelope.ml_dsa_65_sig is Some,
        envelope.ml_dsa_65_sig->Some_0@ == answer->Ok_0@,
        answer->Ok_0@.len() == 3309,
        envelope.signing_key_id@ == key_id@,
{
}

} // verus!
