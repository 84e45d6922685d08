//! The lifecycle laws of a match, stated over the abstract state.
//!
//! [`spec_step`] is the transition relation every operation of the library
//! refines: seating a player, handing out the start broadcast, applying one
//! fan-in event, observing the empty match, or doing nothing observable (a
//! query, a rejected handshake, a drain).  The lemmas here prove, over any
//! sequence of such steps, that the population always counts the seated
//! players and never leaves its bounds, that a close event removes exactly
//! its one slot and is a no-op when repeated, and that the start broadcast
//! happens exactly once per match: never before the population first
//! reaches the target, and never a second time.

use vstd::prelude::*;

use crate::game::GameView;
use crate::game::Phase;
use crate::game::lemma_admit_preserves_wf;
use crate::game::lemma_occ_bounds;
use crate::game::lemma_process_preserves_wf;
use crate::game::spec_admit;
use crate::game::spec_process;
use crate::game::spec_start;
use crate::msg::ConnectionMessage;

verus! {

/// The population never leaves `0 ..= capacity`: it counts the occupied
/// slots of a table of that capacity.
pub proof fn lemma_population_in_range(v: GameView)
    requires
        v.wf(),
    ensures
        0 <= v.player_count <= v.slots.len(),
{
    lemma_occ_bounds(v.slots);
}

/// A close event for a seated player removes exactly that player's slot and
/// lowers the population by exactly one; every other slot is untouched.
pub proof fn lemma_close_removes_exactly_one(v: GameView, id: u8)
    requires
        v.wf(),
        id < v.slots.len(),
        v.slots[id as int] is Some,
    ensures
        spec_process(v, ConnectionMessage::Close(id)).player_count == v.player_count - 1,
        spec_process(v, ConnectionMessage::Close(id)).slots[id as int] is None,
        forall|i: int|
            0 <= i < v.slots.len() && i != id as int ==> spec_process(
                v,
                ConnectionMessage::Close(id),
            ).slots[i] == v.slots[i],
{
}

/// A repeated close event for the same id is a no-op: the slot is already
/// empty, so neither the table nor the population moves again.
pub proof fn lemma_close_idempotent(v: GameView, id: u8)
    ensures
        spec_process(spec_process(v, ConnectionMessage::Close(id)), ConnectionMessage::Close(id))
            == spec_process(v, ConnectionMessage::Close(id)),
{
    let v2 = spec_process(v, ConnectionMessage::Close(id));
    if id < v.slots.len() && v.slots[id as int] is Some {
        assert(v2.slots[id as int] is None);
    }
}

/// Where a match stands in its life, as a rank that steps never lower.
pub open spec fn phase_index(p: Phase) -> int {
    match p {
        Phase::Admitting => 0,
        Phase::Starting => 1,
        Phase::Running => 2,
        Phase::Finished => 3,
    }
}

/// The start broadcast step: it is enabled only in the starting phase and
/// moves the match to its running phase.
pub open spec fn is_start_step(pre: GameView, post: GameView) -> bool {
    &&& pre.phase is Starting
    &&& post == spec_start(pre)
}

/// One step of a match's life: nothing observable (a query, a rejected
/// handshake, an empty drain), seating a player during admission, the start
/// broadcast, one fan-in event during the running phase, or observing the
/// empty match and finishing.
pub open spec fn spec_step(pre: GameView, post: GameView) -> bool {
    ||| post == pre
    ||| (pre.phase is Admitting && exists|c: i64| post == spec_admit(pre, c))
    ||| is_start_step(pre, post)
    ||| (pre.phase is Running && exists|m: ConnectionMessage| post == spec_process(pre, m))
    ||| (pre.phase is Running && pre.player_count == 0 && post == (GameView {
        phase: Phase::Finished,
        ..pre
    }))
}

/// Seating a player during admission — the effect `Game::add_player`
/// ensures — is a lifecycle step.
pub proof fn lemma_admit_is_step(v: GameView, clock_diff: i64)
    requires
        v.phase is Admitting,
    ensures
        spec_step(v, spec_admit(v, clock_diff)),
{
    assert(spec_admit(v, clock_diff) == spec_admit(v, clock_diff));
}

/// Handing out the start broadcast — the effect `Game::start_game` ensures
/// — is a lifecycle step.
pub proof fn lemma_start_is_step(v: GameView)
    requires
        v.phase is Starting,
    ensures
        spec_step(v, spec_start(v)),
{
}

/// Applying one fan-in event — the effect `Game::process_message` ensures —
/// is a lifecycle step.
pub proof fn lemma_process_is_step(v: GameView, m: ConnectionMessage)
    requires
        v.phase is Running,
    ensures
        spec_step(v, spec_process(v, m)),
{
    assert(spec_process(v, m) == spec_process(v, m));
}

/// Observing the empty match and finishing — what `Game::tick` ensures when
/// it reports the match done — is a lifecycle step.
pub proof fn lemma_finish_is_step(v: GameView)
    requires
        v.phase is Running,
        v.player_count == 0,
    ensures
        spec_step(v, (GameView { phase: Phase::Finished, ..v })),
{
}

/// Every step preserves well-formedness.
pub proof fn lemma_step_preserves_wf(pre: GameView, post: GameView)
    requires
        pre.wf(),
        spec_step(pre, post),
    ensures
        post.wf(),
{
    if pre.phase is Admitting && exists|c: i64| post == spec_admit(pre, c) {
        let c = choose|c: i64| post == spec_admit(pre, c);
        lemma_admit_preserves_wf(pre, c);
    } else if pre.phase is Running && exists|m: ConnectionMessage| post == spec_process(pre, m) {
        let m = choose|m: ConnectionMessage| post == spec_process(pre, m);
        lemma_process_preserves_wf(pre, m);
    }
}

/// Steps never move the phase backwards.
pub proof fn lemma_step_phase_monotone(pre: GameView, post: GameView)
    requires
        spec_step(pre, post),
    ensures
        phase_index(pre.phase) <= phase_index(post.phase),
{
    if pre.phase is Admitting && exists|c: i64| post == spec_admit(pre, c) {
        let c = choose|c: i64| post == spec_admit(pre, c);
        assert(post == spec_admit(pre, c));
    } else if pre.phase is Running && exists|m: ConnectionMessage| post == spec_process(pre, m) {
        let m = choose|m: ConnectionMessage| post == spec_process(pre, m);
        assert(post == spec_process(pre, m));
    }
}

/// A sequence of states in which each neighbour pair is one step.
pub open spec fn steps_ok(tr: Seq<GameView>) -> bool {
    forall|k: int| 0 <= k < tr.len() - 1 ==> #[trigger] spec_step(tr[k], tr[k + 1])
}

/// Along any run, well-formedness carries from the first state to every
/// later one.
pub proof fn lemma_wf_trace(tr: Seq<GameView>, i: int)
    requires
        steps_ok(tr),
        0 <= i < tr.len(),
        tr[0].wf(),
    ensures
        tr[i].wf(),
    decreases i,
{
    if i > 0 {
        lemma_wf_trace(tr, i - 1);
        assert(spec_step(tr[i - 1], tr[(i - 1) + 1]));
        lemma_step_preserves_wf(tr[i - 1], tr[i]);
    }
}

/// Along any run, the phase never moves backwards.
pub proof fn lemma_phase_monotone_trace(tr: Seq<GameView>, i: int, j: int)
    requires
        steps_ok(tr),
        0 <= i <= j < tr.len(),
    ensures
        phase_index(tr[i].phase) <= phase_index(tr[j].phase),
    decreases j - i,
{
    if i < j {
        lemma_phase_monotone_trace(tr, i, j - 1);
        assert(spec_step(tr[j - 1], tr[(j - 1) + 1]));
        lemma_step_phase_monotone(tr[j - 1], tr[j]);
    }
}

/// The start broadcast is issued only when the population stands exactly at
/// the configured target — readiness, and never before it.
pub proof fn lemma_start_broadcast_at_target(pre: GameView, post: GameView)
    requires
        pre.wf(),
        is_start_step(pre, post),
    ensures
        pre.player_count == pre.target,
{
}

/// At most once: after the start broadcast has been issued, no later step of
/// the run is a start broadcast again.
pub proof fn lemma_start_broadcast_at_most_once(tr: Seq<GameView>, i: int, j: int)
    requires
        steps_ok(tr),
        0 <= i < j,
        j + 1 < tr.len(),
        is_start_step(tr[i], tr[i + 1]),
    ensures
        !is_start_step(tr[j], tr[j + 1]),
{
    lemma_phase_monotone_trace(tr, i + 1, j);
    assert(phase_index(tr[i + 1].phase) == 2);
}

/// At least once: a match that began admitting and is later seen running
/// (or finished) issued the start broadcast at some step in between.
pub proof fn lemma_start_broadcast_reached(tr: Seq<GameView>, j: int)
    requires
        steps_ok(tr),
        0 <= j < tr.len(),
        phase_index(tr[0].phase) <= 1,
        phase_index(tr[j].phase) >= 2,
    ensures
        exists|i: int| 0 <= i < j && #[trigger] is_start_step(tr[i], tr[i + 1]),
    decreases j,
{
    assert(j > 0);
    assert(spec_step(tr[j - 1], tr[(j - 1) + 1]));
    if phase_index(tr[j - 1].phase) >= 2 {
        lemma_start_broadcast_reached(tr, j - 1);
        let i = choose|i: int| 0 <= i < j - 1 && #[trigger] is_start_step(tr[i], tr[i + 1]);
        assert(0 <= i < j && is_start_step(tr[i], tr[i + 1]));
    } else {
        lemma_step_phase_monotone(tr[j - 1], tr[j]);
        if !is_start_step(tr[j - 1], tr[j]) {
            if tr[j - 1].phase is Admitting && exists|c: i64|
                tr[j] == #[trigger] spec_admit(tr[j - 1], c) {
                let c = choose|c: i64| tr[j] == #[trigger] spec_admit(tr[j - 1], c);
                assert(phase_index(tr[j].phase) <= 1);
            }
            assert(false);
        }
        assert(is_start_step(tr[j - 1], tr[(j - 1) + 1]));
    }
}

} // verus!
