use vstd::prelude::*;
use crate::text::str_eq;

verus! {

/// Whether a teambuilder notification triggers the auto-accept: only
/// the AFK_CHECK phase does, and never in the practice-tool queue
/// (3140).
pub open spec fn spec_should_accept(phase_name: Seq<char>, queue_id: i64) -> bool {
    phase_name == "AFK_CHECK"@ && queue_id != 3140
}

/// The match-ready decision: accept on AFK_CHECK, except in the
/// practice-tool queue. The caller performs the accept call after the
/// configured delay.
pub fn should_accept(phase_name: &str, queue_id: i64) -> (r: bool)
    ensures
        r == spec_should_accept(phase_name@, queue_id),
{
    str_eq(phase_name, "AFK_CHECK") && queue_id != 3140
}

} // verus!
