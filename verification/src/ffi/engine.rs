//! What the host's engine answers, and what each answer is worth.
use vstd::prelude::*;

use crate::ffi::value;
use crate::ffi::value::HostError;

verus! {

/// What came of a call of the engine.
#[derive(Debug)]
pub enum EngineAnswer<T> {
    Given(T),
    /// The call raised; the text is what the host says of it.
    Failed(String),
    /// The call gave something else than it should; the text is what the host
    /// says of it.
    Mistyped(String),
}

/// Whether a call's result is what its answer is worth: a failure is an error
/// that names the call, and something else than it should be is the host's own
/// error.
pub open spec fn engine_result<T>(
    call: Seq<char>,
    answer: EngineAnswer<T>,
    res: Result<T, HostError>,
) -> bool {
    match answer {
        EngineAnswer::Given(given) => res == Ok::<T, HostError>(given),
        EngineAnswer::Failed(cause) => res matches Err(error) && value::is_runtime_error(
            error,
            call + cause@,
        ),
        EngineAnswer::Mistyped(raised) => res == Err::<T, HostError>(HostError::Raised(raised)),
    }
}

/// What a call's answer is worth.
pub fn engine_given<T>(call: &str, answer: EngineAnswer<T>) -> (res: Result<T, HostError>)
    ensures
        engine_result(call@, answer, res),
{
    match answer {
        EngineAnswer::Given(given) => Ok(given),
        EngineAnswer::Failed(cause) => Err(HostError::runtime(call, cause.as_str())),
        EngineAnswer::Mistyped(raised) => Err(HostError::Raised(raised)),
    }
}

/// The name of the engine's key.
pub fn local_key_id(answer: EngineAnswer<String>) -> (res: Result<String, HostError>)
    ensures
        engine_result("engine.local_key_id(): "@, answer, res),
{
    engine_given("engine.local_key_id(): ", answer)
}

} // verus!
