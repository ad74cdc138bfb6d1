//! Settling a stackwalk request from the engine's outcome.
//!
//! The stack-walking and symbolication engine itself is an outside
//! service driven by the caller side (it works asynchronously and may
//! fetch symbols over the network).  Once it has finished, the outcome —
//! an analysis or an engine error — is turned into the request's single
//! result here: the analysis rendered to text, or one composed
//! processing-error message.

use vstd::prelude::*;

use crate::errors::{
    compose_dump_error, compose_stackwalk_error, contains_seq, lemma_processing_error_has_marker,
    processing_error_marker,
};

verus! {

#[verifier::external_type_specification]
#[verifier::external_body]
pub struct ExProcessState(minidump_processor::ProcessState);

#[verifier::external_type_specification]
#[verifier::external_body]
pub struct ExProcessError(minidump_processor::ProcessError);

/// Relies on minidump_processor::ProcessState::print: the finished
/// analysis rendered to text.  The printer fails only through its
/// writer, and the writer here is an in-memory buffer that accepts
/// every write, so the text is always produced.
#[verifier::external_body]
fn print_process_state(s: &minidump_processor::ProcessState) -> (r: Result<String, String>)
    ensures
        r is Ok,
{
    let mut out: Vec<u8> = Vec::new();
    match s.print(&mut out) {
        Ok(()) => Ok(String::from_utf8_lossy(&out).into_owned()),
        Err(e) => Err(format!("{}", e)),
    }
}

/// Relies on minidump_processor::ProcessError::name: the error's
/// categorical name.
#[verifier::external_body]
fn process_error_name(e: &minidump_processor::ProcessError) -> String {
    e.name().to_owned()
}

/// Relies on minidump_processor::ProcessError's Display impl: the
/// error's message text.
#[verifier::external_body]
fn process_error_text(e: &minidump_processor::ProcessError) -> String {
    format!("{}", e)
}

/// Turns the stackwalk engine's outcome into the request's result: the
/// request succeeds exactly when the engine did, resolving with the
/// analysis rendered to text; an engine failure is rejected with one
/// composed processing-error message carrying the engine's categorical
/// name.
pub fn settle_stackwalk(
    outcome: Result<minidump_processor::ProcessState, minidump_processor::ProcessError>,
) -> (r: Result<String, String>)
    ensures
        r is Ok <==> outcome is Ok,
        r matches Err(msg) ==> contains_seq(msg@, processing_error_marker()),
{
    match outcome {
        Ok(state) => {
            match print_process_state(&state) {
                Ok(t) => Ok(t),
                Err(e) => {
                    let msg = compose_dump_error(e.as_str());
                    proof {
                        lemma_processing_error_has_marker(Seq::empty(), e@);
                    }
                    Err(msg)
                },
            }
        },
        Err(e) => {
            let name = process_error_name(&e);
            let text = process_error_text(&e);
            let msg = compose_stackwalk_error(name.as_str(), text.as_str());
            proof {
                lemma_processing_error_has_marker(name@, text@);
            }
            Err(msg)
        },
    }
}

} // verus!
