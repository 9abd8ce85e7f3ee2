//! Which events are handed on to the tracing service.

use crate::text::{has_prefix, starts_with};
use vstd::prelude::*;

verus! {

/// Where the traces are sent.
pub const HONEYCOMB_API_ENDPOINT: &'static str = "https://api.honeycomb.io/v1/traces";

/// The name under which the service reports itself.
pub const SERVICE_NAME: &'static str = "rinha";

/// The targets whose events are kept back: every target that begins with
/// one of these.
pub fn excluded_targets() -> (targets: Vec<&'static str>)
    ensures
        targets@.len() == 1,
        targets@[0]@ == "hyper"@,
{
    let mut targets: Vec<&'static str> = Vec::new();
    targets.push("hyper");
    targets
}

/// Whether `target` begins with none of `excluded`.
pub open spec fn passes(target: Seq<char>, excluded: Seq<&'static str>) -> bool {
    forall|k: int| 0 <= k < excluded.len() ==> !has_prefix(target, #[trigger] excluded[k]@)
}

/// Whether an event of `target` is handed on, given the targets that are
/// kept back.
pub fn passes_filter(target: &str, excluded: &Vec<&'static str>) -> (handed_on: bool)
    ensures
        handed_on == passes(target@, excluded@),
{
    let mut i: usize = 0;
    while i < excluded.len()
        invariant
            i <= excluded.len(),
            forall|k: int| 0 <= k < i ==> !has_prefix(target@, #[trigger] excluded[k]@),
        decreases excluded.len() - i,
    {
        if starts_with(target, excluded[i]) {
            return false;
        }
        i = i + 1;
    }
    true
}

/// Whether an event of `target` is handed on to the tracing service: every
/// one is but those whose target begins with `hyper`.
pub fn is_traced(target: &str) -> (handed_on: bool)
    ensures
        handed_on == !has_prefix(target@, "hyper"@),
{
    let excluded = excluded_targets();
    let handed_on = passes_filter(target, &excluded);
    assert(passes(target@, excluded@) == !has_prefix(target@, excluded@[0]@));
    handed_on
}

} // verus!
