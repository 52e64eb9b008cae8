//! Putting the relay's handler onto an edge that the host already has.
use vstd::prelude::*;

use crate::ffi::value;
use crate::ffi::value::HostError;

verus! {

/// What is said where the host has no runtime for the substrate.
pub const NO_RUNTIME_HANDLE: &'static str = "persist runtime handle not available";

/// What is said where the host has no engine to put the relay on.
pub const NO_ENGINE_FOR_RELAY: &'static str =
    "persist Engine not initialized — construct ciris_persist.Engine first";

/// Whether the substrate's runtime is there.
pub fn require_runtime(handle_present: bool) -> (res: Result<(), HostError>)
    ensures
        handle_present ==> res is Ok,
        !handle_present ==> res is Err && value::is_runtime_error(
            res->Err_0,
            NO_RUNTIME_HANDLE@,
        ),
{
    if handle_present {
        Ok(())
    } else {
        Err(HostError::Runtime(NO_RUNTIME_HANDLE.to_owned()))
    }
}

/// Whether the relay can be put onto the edge: the engine is asked for first,
/// then the runtime.
pub fn install_relay(engine_present: bool, handle_present: bool) -> (res: Result<(), HostError>)
    ensures
        engine_present && handle_present ==> res is Ok,
        !engine_present ==> res is Err && value::is_runtime_error(
            res->Err_0,
            NO_ENGINE_FOR_RELAY@,
        ),
        engine_present && !handle_present ==> res is Err && value::is_runtime_error(
            res->Err_0,
            NO_RUNTIME_HANDLE@,
        ),
{
    if !engine_present {
        return Err(HostError::Runtime(NO_ENGINE_FOR_RELAY.to_owned()));
    }
    require_runtime(handle_present)
}

/// What the host gets of the edge's answer.
pub fn relay_attached(answer: Result<(), String>) -> (res: Result<(), HostError>)
    ensures
        match answer {
            Ok(_) => res is Ok,
            Err(cause) => res is Err && value::is_runtime_error(
                res->Err_0,
                "attach lens-core relay handler: "@ + cause@,
            ),
        },
{
    match answer {
        Ok(_) => Ok(()),
        Err(cause) => Err(HostError::runtime("attach lens-core relay handler: ", cause.as_str())),
    }
}

} // verus!
