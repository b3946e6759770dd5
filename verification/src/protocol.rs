//! The open/close protocol trace of one declaration pass.
//!
//! Each element scope appends an open event when it starts and a close event
//! when it finishes.  The session maintains that the trace is always a
//! prefix of a well-nested bracket sequence; a finished pass therefore has
//! as many closes as opens, closed in exact reverse order of the opens.

use vstd::prelude::*;

verus! {

/// One bracket of the declaration protocol.
#[derive(Clone, Copy, Debug, PartialEq, Eq, Structural)]
pub enum DeclEvent {
    /// An element scope opened.
    Open,
    /// The most recently opened, still-open element scope closed.
    Close,
}

/// How many opens the first `i` events of a trace hold.
pub open spec fn opens(t: Seq<DeclEvent>, i: int) -> nat
    decreases i,
{
    if i <= 0 {
        0
    } else {
        opens(t, i - 1) + (if t[i - 1] is Open {
            1nat
        } else {
            0nat
        })
    }
}

/// How many closes the first `i` events of a trace hold.
pub open spec fn closes(t: Seq<DeclEvent>, i: int) -> nat
    decreases i,
{
    if i <= 0 {
        0
    } else {
        closes(t, i - 1) + (if t[i - 1] is Close {
            1nat
        } else {
            0nat
        })
    }
}

/// Whether no prefix of a trace closes a scope it never opened: every close
/// matches the most recent still-open open, the stack discipline.
pub open spec fn nesting_sound(t: Seq<DeclEvent>) -> bool {
    forall|i: int| 0 <= i <= t.len() ==> closes(t, i) <= opens(t, i)
}

/// Whether a trace is one finished, well-nested bracket sequence: the stack
/// discipline held throughout and every open was closed again.
pub open spec fn well_nested(t: Seq<DeclEvent>) -> bool {
    nesting_sound(t) && opens(t, t.len() as int) == closes(t, t.len() as int)
}

/// Appending an event does not change the counts of the prefixes already
/// there.
pub proof fn lemma_counts_push(t: Seq<DeclEvent>, e: DeclEvent, i: int)
    requires
        0 <= i <= t.len(),
    ensures
        opens(t.push(e), i) == opens(t, i),
        closes(t.push(e), i) == closes(t, i),
    decreases i,
{
    if i > 0 {
        assert(t.push(e)[i - 1] == t[i - 1]);
        lemma_counts_push(t, e, i - 1);
    }
}

/// A trace that kept the stack discipline still keeps it after an open, and
/// after a close as long as some scope is open.
pub proof fn lemma_nesting_sound_push(t: Seq<DeclEvent>, e: DeclEvent)
    requires
        nesting_sound(t),
        e is Close ==> closes(t, t.len() as int) < opens(t, t.len() as int),
    ensures
        nesting_sound(t.push(e)),
        opens(t.push(e), t.push(e).len() as int) == opens(t, t.len() as int) + (
        if e is Open {
            1nat
        } else {
            0nat
        }),
        closes(t.push(e), t.push(e).len() as int) == closes(t, t.len() as int) + (
        if e is Close {
            1nat
        } else {
            0nat
        }),
{
    let u = t.push(e);
    assert(u[u.len() - 1] == e);
    lemma_counts_push(t, e, t.len() as int);
    assert(opens(u, u.len() as int) == opens(u, u.len() as int - 1) + (if e is Open {
        1nat
    } else {
        0nat
    }));
    assert(closes(u, u.len() as int) == closes(u, u.len() as int - 1) + (if e is Close {
        1nat
    } else {
        0nat
    }));
    assert forall|i: int| 0 <= i <= u.len() implies closes(u, i) <= opens(u, i) by {
        if i <= t.len() {
            lemma_counts_push(t, e, i);
        } else {
            lemma_counts_push(t, e, t.len() as int);
        }
    }
}

} // verus!
