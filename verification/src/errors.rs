//! Composition of the caller-visible failure messages.
//!
//! A request fails in one of three ways: the dump file could not be read,
//! the stackwalk engine failed while processing, or the raw-dump printer
//! failed while processing.  Each failure surfaces as a single composed
//! message; the composition rules live here.

use vstd::prelude::*;

verus! {

/// Marker text that every dump-read failure message carries.
pub open spec fn read_error_marker() -> Seq<char> {
    " - Error reading dump: "@
}

/// Marker text that every processing failure message carries.
pub open spec fn processing_error_marker() -> Seq<char> {
    "Error processing dump: "@
}

/// `sub` occurs somewhere inside `s`.
pub open spec fn contains_seq(s: Seq<char>, sub: Seq<char>) -> bool {
    exists|i: int| 0 <= i && i + sub.len() <= s.len() && #[trigger] s.subrange(i, i + sub.len()) == sub
}

/// Message reported when the dump file cannot be read: the engine's
/// categorical error name, the read marker, then the error text.
pub fn compose_read_error(name: &str, detail: &str) -> (msg: String)
    ensures
        msg@ == name@ + read_error_marker() + detail@,
{
    let mut msg = String::new();
    msg.append(name);
    msg.append(" - Error reading dump: ");
    msg.append(detail);
    msg
}

/// Message reported when the stackwalk engine fails: the engine's
/// categorical error name, then the processing marker, then the error text.
pub fn compose_stackwalk_error(name: &str, detail: &str) -> (msg: String)
    ensures
        msg@ == name@ + " - "@ + processing_error_marker() + detail@,
{
    let mut msg = String::new();
    msg.append(name);
    msg.append(" - ");
    msg.append("Error processing dump: ");
    msg.append(detail);
    msg
}

/// Message reported when the raw-dump printer fails: the processing
/// marker, then the error text.  The printer has no categorical name.
pub fn compose_dump_error(detail: &str) -> (msg: String)
    ensures
        msg@ == processing_error_marker() + detail@,
{
    let mut msg = String::new();
    msg.append("Error processing dump: ");
    msg.append(detail);
    msg
}

/// Every read failure message contains the read marker, whatever the
/// engine's error name and text turn out to be.
pub proof fn lemma_read_error_has_marker(name: Seq<char>, detail: Seq<char>)
    ensures
        contains_seq(name + read_error_marker() + detail, read_error_marker()),
{
    let s = name + read_error_marker() + detail;
    let i = name.len() as int;
    let m = read_error_marker();
    assert(s.subrange(i, i + m.len() as int) =~= m);
}

/// Every processing failure message of either operation contains the
/// processing marker, whatever the engine's error name and text turn out
/// to be.
pub proof fn lemma_processing_error_has_marker(name: Seq<char>, detail: Seq<char>)
    ensures
        contains_seq(name + " - "@ + processing_error_marker() + detail, processing_error_marker()),
        contains_seq(processing_error_marker() + detail, processing_error_marker()),
{
    let m = processing_error_marker();
    let s1 = name + " - "@ + processing_error_marker() + detail;
    let i1 = name.len() + " - "@.len();
    assert(s1.subrange(i1 as int, i1 + m.len() as int) =~= m);
    let s2 = processing_error_marker() + detail;
    assert(s2.subrange(0, 0 + m.len() as int) =~= m);
}

} // verus!
