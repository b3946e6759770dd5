//! The properties the declaration protocol guarantees, stated on their own.

use vstd::prelude::*;
use crate::Clay;
use crate::arena::spec_min_memory_size;
use crate::protocol::well_nested;
use crate::resolve::spec_resolve;

verus! {

/// Stack discipline: whenever no scope is open — in particular at every
/// `end` — the pass's trace is one well-nested bracket sequence: it opened
/// exactly as many scopes as it closed, no prefix closed a scope it had not
/// opened, and so every close matched the most recently opened scope still
/// open, in exact reverse order of the opens.
pub proof fn lemma_stack_discipline(s: Clay)
    requires
        s.inv(),
        s.depth() == 0,
    ensures
        well_nested(s.trace()),
{
}

/// Attachment before recursion: a scope that has not finished its
/// configuration has no children, so every configuration attachment of a
/// node completes before any of its children is declared.
pub proof fn lemma_attachment_before_recursion(s: Clay, i: int)
    requires
        s.inv(),
        0 <= i < s.depth(),
        !s.frames()[i].finalized,
    ensures
        s.frames()[i].children@.len() == 0,
{
}

/// Round-trip sizing: the arena allocated from the sizing query is always
/// sufficient — however deep or wide the declared tree, as long as the pass
/// stays within the element budget (which every `open_element` requires),
/// the arena never overflows its block.
pub proof fn lemma_round_trip_sizing(s: Clay)
    requires
        s.inv(),
    ensures
        s.arena_used() <= s.arena_capacity(),
        s.arena_capacity() == spec_min_memory_size(),
{
}

/// Idempotent re-pass: resolution is a function of the declared tree and
/// the declared dimensions alone, so two passes — for instance one before
/// and one after an `end`/`begin` round trip — that declare structurally
/// identical trees resolve to identical command sequences.
pub proof fn lemma_idempotent_repass(a: Clay, b: Clay)
    requires
        a.declared_roots() == b.declared_roots(),
        a.dimensions() == b.dimensions(),
    ensures
        spec_resolve(a.declared_roots(), a.dimensions().0, a.dimensions().1) == spec_resolve(
            b.declared_roots(),
            b.dimensions().0,
            b.dimensions().1,
        ),
{
}

} // verus!
