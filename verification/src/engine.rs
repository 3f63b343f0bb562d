//! Host-side engine state and the translation of native call outcomes.
//!
//! `EngineInfo` holds the two values that are queried from the native
//! library once at construction and are immutable afterwards.
//! `check_fn_call_status` turns a native status code, together with the
//! diagnostic stack that the foreign-function layer fetched on failure,
//! into the structured error; `check_pcm_frame` rejects audio input that
//! must never reach a native entry point.

use vstd::prelude::*;

use crate::error::LeopardError;
use crate::error::LeopardErrorStatus;
use crate::status::PvStatus;

verus! {

/// The sample rate and version string of one built engine, read from the
/// native library exactly once at construction and fixed from then on.
pub struct EngineInfo {
    pub sample_rate: u32,
    pub version: String,
}

impl EngineInfo {
    /// Records the two values the native library advertised at
    /// construction.
    pub fn new(sample_rate: u32, version: String) -> (r: Self)
        ensures
            r.sample_rate == sample_rate,
            r.version == version,
    {
        Self { sample_rate, version }
    }

    /// The sample rate, in hertz, that audio handed to the engine must
    /// have.
    pub fn sample_rate(&self) -> (r: u32)
        ensures
            r == self.sample_rate,
    {
        self.sample_rate
    }

    /// The version string of the loaded native library.
    pub fn version(&self) -> (r: &str)
        ensures
            r@ == self.version@,
    {
        self.version.as_str()
    }
}

/// `sample_rate` and `version` return the same value on every call: both
/// only read fields that nothing mutates after construction, so any two
/// results of either query on one engine are equal.
pub proof fn lemma_engine_info_queries_stable(
    info: EngineInfo,
    rate_a: u32,
    rate_b: u32,
    version_a: Seq<char>,
    version_b: Seq<char>,
)
    requires
        rate_a == info.sample_rate,
        rate_b == info.sample_rate,
        version_a == info.version@,
        version_b == info.version@,
    ensures
        rate_a == rate_b,
        version_a == version_b,
{
}

/// Rejects audio input that must not reach the native library.  The native
/// behaviour on an empty buffer is undefined, so emptiness is checked
/// here, before any native entry point is involved.
pub fn check_pcm_frame(pcm: &[i16]) -> (r: Result<(), LeopardError>)
    ensures
        r is Ok <==> pcm@.len() > 0,
        pcm@.len() == 0 ==> (r matches Err(e) && e.status == LeopardErrorStatus::FrameLengthError
            && e.message@ == "Audio data must not be empty"@ && e.message_stack@.len() == 0),
{
    if pcm.len() == 0 {
        Err(LeopardError::new(LeopardErrorStatus::FrameLengthError, "Audio data must not be empty"))
    } else {
        Ok(())
    }
}

/// What the error for a failed native call looks like.  `stack_fetch` is
/// the outcome of the error-stack retrieval that the foreign-function
/// layer performed after seeing the non-success `status`: either the
/// diagnostic strings, copied in the engine's own order, or the status
/// with which the retrieval call itself failed.  A failed retrieval is
/// reported in place of the original cause.
pub open spec fn failed_call_error(
    e: LeopardError,
    status: PvStatus,
    function_name: Seq<char>,
    stack_fetch: Result<Vec<String>, PvStatus>,
) -> bool {
    match stack_fetch {
        Ok(stack) => {
            &&& e.status == LeopardErrorStatus::LibraryError(status)
            &&& e.message@ == "'"@ + function_name + "' failed"@
            &&& e.message_stack.deep_view() == stack.deep_view()
        },
        Err(fetch_status) => {
            &&& e.status == LeopardErrorStatus::LibraryError(fetch_status)
            &&& e.message@ == "Unable to get Leopard error state."@
            &&& e.message_stack@.len() == 0
        },
    }
}

/// Translates the outcome of one native call.  On `SUCCESS` nothing
/// happens; on any other status the result is the structured error built
/// from the status, the name of the entry point, and the fetched
/// diagnostic stack.
pub fn check_fn_call_status(
    status: PvStatus,
    function_name: &str,
    stack_fetch: Result<Vec<String>, PvStatus>,
) -> (r: Result<(), LeopardError>)
    ensures
        r is Ok <==> status == PvStatus::SUCCESS,
        status != PvStatus::SUCCESS ==> (r matches Err(e) && failed_call_error(
            e,
            status,
            function_name@,
            stack_fetch,
        )),
{
    match status {
        PvStatus::SUCCESS => Ok(()),
        _ => match stack_fetch {
            Err(fetch_status) => Err(
                LeopardError::new(
                    LeopardErrorStatus::LibraryError(fetch_status),
                    "Unable to get Leopard error state.",
                ),
            ),
            Ok(stack) => {
                let mut message = String::from_str("'");
                message.append(function_name);
                message.append("' failed");
                Err(
                    LeopardError::new_with_stack(
                        LeopardErrorStatus::LibraryError(status),
                        message.as_str(),
                        stack,
                    ),
                )
            },
        },
    }
}

/// The error for a transcript string that could not be copied into valid
/// host text.  It is a runtime error, distinct from any native status
/// failure.
pub fn transcript_decode_error() -> (e: LeopardError)
    ensures
        e.status == LeopardErrorStatus::LibraryError(PvStatus::RUNTIME_ERROR),
        e.message@ == "Failed to convert transcript string"@,
        e.message_stack@.len() == 0,
{
    LeopardError::new(
        LeopardErrorStatus::LibraryError(PvStatus::RUNTIME_ERROR),
        "Failed to convert transcript string",
    )
}

/// The error for a word-metadata string that could not be copied into
/// valid host text.
pub fn word_decode_error() -> (e: LeopardError)
    ensures
        e.status == LeopardErrorStatus::LibraryError(PvStatus::RUNTIME_ERROR),
        e.message@ == "Failed to convert metadata word string"@,
        e.message_stack@.len() == 0,
{
    LeopardError::new(
        LeopardErrorStatus::LibraryError(PvStatus::RUNTIME_ERROR),
        "Failed to convert metadata word string",
    )
}

/// The error for a shared library that exists but could not be opened by
/// the dynamic loader; `detail` is the loader's own description.
pub fn library_load_error(detail: &str) -> (e: LeopardError)
    ensures
        e.status == LeopardErrorStatus::LibraryLoadError,
        e.message@ == "Failed to load leopard dynamic library: "@ + detail@,
        e.message_stack@.len() == 0,
{
    let mut message = String::from_str("Failed to load leopard dynamic library: ");
    message.append(detail);
    LeopardError::new_with_stack(LeopardErrorStatus::LibraryLoadError, message.as_str(), Vec::new())
}

/// The error for a required entry point that could not be resolved from
/// the loaded library; `detail` is the loader's own description.  One
/// missing symbol fails the whole resolution.
pub fn symbol_load_error(detail: &str) -> (e: LeopardError)
    ensures
        e.status == LeopardErrorStatus::LibraryLoadError,
        e.message@ == "Failed to load function symbol from leopard library: "@ + detail@,
        e.message_stack@.len() == 0,
{
    let mut message = String::from_str("Failed to load function symbol from leopard library: ");
    message.append(detail);
    LeopardError::new_with_stack(LeopardErrorStatus::LibraryLoadError, message.as_str(), Vec::new())
}

/// Error translation is deterministic: two failed calls of the same entry
/// point that saw the same status and the same native diagnostics yield
/// errors of the same kind, the same message, and diagnostic stacks of
/// equal length with identical content, element by element.
pub proof fn lemma_error_translation_deterministic(
    e1: LeopardError,
    e2: LeopardError,
    status: PvStatus,
    function_name: Seq<char>,
    fetch1: Result<Vec<String>, PvStatus>,
    fetch2: Result<Vec<String>, PvStatus>,
)
    requires
        failed_call_error(e1, status, function_name, fetch1),
        failed_call_error(e2, status, function_name, fetch2),
        match (fetch1, fetch2) {
            (Ok(s1), Ok(s2)) => s1.deep_view() == s2.deep_view(),
            (Err(a), Err(b)) => a == b,
            _ => false,
        },
    ensures
        e1.status == e2.status,
        e1.message@ == e2.message@,
        e1.message_stack@.len() == e2.message_stack@.len(),
        forall|i: int|
            0 <= i < e1.message_stack@.len() ==> e1.message_stack@[i]@ == e2.message_stack@[i]@,
{
    assert(e1.message_stack.deep_view().len() == e1.message_stack@.len());
    assert(e2.message_stack.deep_view().len() == e2.message_stack@.len());
    assert forall|i: int| 0 <= i < e1.message_stack@.len() implies e1.message_stack@[i]@
        == e2.message_stack@[i]@ by {
        assert(e1.message_stack.deep_view()[i] == e1.message_stack@[i]@);
        assert(e2.message_stack.deep_view()[i] == e2.message_stack@[i]@);
    }
}

} // verus!
