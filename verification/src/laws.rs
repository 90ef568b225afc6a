//! The library-wide laws of the state machine, proved once and for all
//! event sequences.

use vstd::prelude::*;

use crate::draw::ResourcesV;
use crate::draw::TsuikaEvent;
use crate::draw::step_spec;
use crate::text::clamp_spec;
use crate::text::render_spec;

verus! {

/// The state after a whole sequence of events, ignoring termination.
pub open spec fn steps_spec(s: ResourcesV, events: Seq<TsuikaEvent>) -> ResourcesV
    decreases events.len(),
{
    if events.len() == 0 {
        s
    } else {
        step_spec(steps_spec(s, events.drop_last()), events.last()).0
    }
}

/// No event ever changes the registry contents.
pub proof fn lemma_steps_preserve_items(s: ResourcesV, events: Seq<TsuikaEvent>)
    ensures
        steps_spec(s, events).items == s.items,
    decreases events.len(),
{
    if events.len() > 0 {
        lemma_steps_preserve_items(s, events.drop_last());
    }
}

/// Cursor bounds: starting from a valid cursor over a non-empty registry,
/// every sequence of events — `Up` and `Down` included — keeps the cursor
/// within `[0, registry.length - 1]`.
pub proof fn lemma_cursor_bounds(s: ResourcesV, events: Seq<TsuikaEvent>)
    requires
        s.items.len() > 0,
        s.cursor < s.items.len(),
    ensures
        0 <= steps_spec(s, events).cursor < s.items.len(),
    decreases events.len(),
{
    if events.len() > 0 {
        lemma_cursor_bounds(s, events.drop_last());
        lemma_steps_preserve_items(s, events.drop_last());
    }
}

/// Page floor: no sequence of events — `RollUp` included — can take the
/// page index below zero.
pub proof fn lemma_page_floor(s: ResourcesV, events: Seq<TsuikaEvent>)
    ensures
        steps_spec(s, events).page >= 0,
{
}

/// Clamp idempotence: a page already within `[0, line_count - 1]` is left
/// unchanged by the render-time clamp.
pub proof fn lemma_clamp_idempotent(page: nat, line_count: nat)
    requires
        page < line_count,
    ensures
        clamp_spec(page, line_count) == page,
{
}

/// Mode round-trip: from `Normal`, `Enter` followed by `Quit` restores the
/// starting state without terminating the loop, while `Quit` alone from
/// `Normal` terminates it and changes nothing.
pub proof fn lemma_mode_round_trip(s: ResourcesV)
    requires
        s.mode is Normal,
    ensures
        step_spec(s, TsuikaEvent::Enter).0.mode is Edit,
        !step_spec(s, TsuikaEvent::Enter).1,
        step_spec(step_spec(s, TsuikaEvent::Enter).0, TsuikaEvent::Quit).0 == s,
        !step_spec(step_spec(s, TsuikaEvent::Enter).0, TsuikaEvent::Quit).1,
        step_spec(s, TsuikaEvent::Quit).0 == s,
        step_spec(s, TsuikaEvent::Quit).1,
{
}

/// Render determinism: the rendered text is a function of the registry
/// contents alone, so two renders of equal contents are identical.
pub proof fn lemma_render_deterministic(a: Seq<Seq<char>>, b: Seq<Seq<char>>)
    requires
        a == b,
    ensures
        render_spec(a) == render_spec(b),
{
}

} // verus!
