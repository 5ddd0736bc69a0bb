//! The engine's laws: what holds of every tick, proved once and for all
//! over the tick model of `engine`.

use vstd::prelude::*;
use crate::engine::{next_state, plan_of, tick_calls, CallModel, OpModel};
use crate::payload::payload_of;
use crate::snapshot::{spec_paused, InputModel};
use crate::state::StateModel;

verus! {

/// How many of the calls satisfy the given predicate.
pub open spec fn count_matching(calls: Seq<CallModel>, pred: spec_fn(CallModel) -> bool) -> int
    decreases calls.len(),
{
    if calls.len() == 0 {
        0
    } else {
        count_matching(calls.drop_last(), pred) + if pred(calls.last()) {
            1int
        } else {
            0int
        }
    }
}

pub open spec fn publish_calls(calls: Seq<CallModel>) -> int {
    count_matching(calls, |c: CallModel| c is Publish)
}

pub open spec fn clear_calls(calls: Seq<CallModel>) -> int {
    count_matching(calls, |c: CallModel| c is Clear)
}

pub open spec fn close_calls(calls: Seq<CallModel>) -> int {
    count_matching(calls, |c: CallModel| c is Close)
}

proof fn lemma_count_push(calls: Seq<CallModel>, pred: spec_fn(CallModel) -> bool, c: CallModel)
    ensures
        count_matching(calls.push(c), pred) == count_matching(calls, pred) + if pred(c) {
            1int
        } else {
            0int
        },
{
    assert(calls.push(c).drop_last() =~= calls);
    assert(calls.push(c).last() == c);
}

proof fn lemma_count_singleton(pred: spec_fn(CallModel) -> bool, c: CallModel)
    ensures
        count_matching(seq![c], pred) == if pred(c) {
            1int
        } else {
            0int
        },
{
    assert(seq![c].drop_last() =~= Seq::<CallModel>::empty());
    assert(count_matching(Seq::<CallModel>::empty(), pred) == 0);
    assert(seq![c].last() == c);
}

/// The counts of the calls a tick makes, for every shape `tick_calls` can
/// take: a tick publishes exactly once when it planned a publish and
/// reached it, clears exactly once when it planned a clear and reached it,
/// closes exactly once when it planned a close — and otherwise not at all.
pub proof fn lemma_tick_call_counts(state: StateModel, input: InputModel, connect_ok: bool)
    ensures
        publish_calls(tick_calls(state, input, connect_ok)) == (if !plan_of(state, input).close
            && (plan_of(state, input).connect ==> connect_ok) && plan_of(
            state,
            input,
        ).op is Publish {
            1int
        } else {
            0int
        }),
        clear_calls(tick_calls(state, input, connect_ok)) == (if !plan_of(state, input).close && (
        plan_of(state, input).connect ==> connect_ok) && plan_of(state, input).op is Clear {
            1int
        } else {
            0int
        }),
        close_calls(tick_calls(state, input, connect_ok)) == (if plan_of(state, input).close {
            1int
        } else {
            0int
        }),
{
    let plan = plan_of(state, input);
    let is_publish = |c: CallModel| c is Publish;
    let is_clear = |c: CallModel| c is Clear;
    let is_close = |c: CallModel| c is Close;
    if plan.close {
        lemma_count_singleton(is_publish, CallModel::Close);
        lemma_count_singleton(is_clear, CallModel::Close);
        lemma_count_singleton(is_close, CallModel::Close);
    } else if plan.connect && !connect_ok {
        lemma_count_singleton(is_publish, CallModel::Connect);
        lemma_count_singleton(is_clear, CallModel::Connect);
        lemma_count_singleton(is_close, CallModel::Connect);
    } else {
        let before: Seq<CallModel> = if plan.connect {
            seq![CallModel::Connect]
        } else {
            Seq::empty()
        };
        lemma_count_singleton(is_publish, CallModel::Connect);
        lemma_count_singleton(is_clear, CallModel::Connect);
        lemma_count_singleton(is_close, CallModel::Connect);
        match plan.op {
            OpModel::Publish(p) => {
                lemma_count_push(before, is_publish, CallModel::Publish(p));
                lemma_count_push(before, is_clear, CallModel::Publish(p));
                lemma_count_push(before, is_close, CallModel::Publish(p));
            },
            OpModel::Clear => {
                lemma_count_push(before, is_publish, CallModel::Clear);
                lemma_count_push(before, is_clear, CallModel::Clear);
                lemma_count_push(before, is_close, CallModel::Clear);
            },
            _ => {},
        }
    }
}

/// A tick with the media player absent leaves no connection open, whatever
/// stood before and however the tick's calls came out.
pub proof fn lemma_player_absent_closes(
    state: StateModel,
    input: InputModel,
    connect_ok: bool,
    send_ok: bool,
)
    requires
        !input.player_present,
    ensures
        !next_state(state, input, connect_ok, send_ok).connection_open,
{
}

/// A connection is open after a tick only if both processes were observed
/// running on that tick.
pub proof fn lemma_connection_needs_both_present(
    state: StateModel,
    input: InputModel,
    connect_ok: bool,
    send_ok: bool,
)
    requires
        state.inv(),
    ensures
        next_state(state, input, connect_ok, send_ok).connection_open ==> input.remote_present
            && input.player_present,
{
}

/// Every tick preserves the state invariant: published-state memory only
/// exists while a connection is open.
pub proof fn lemma_next_state_preserves_inv(
    state: StateModel,
    input: InputModel,
    connect_ok: bool,
    send_ok: bool,
)
    requires
        state.inv(),
    ensures
        next_state(state, input, connect_ok, send_ok).inv(),
{
}

/// Idempotence of publishing: a tick that publishes successfully makes
/// exactly one publish call, and a following tick that observes the same
/// track identity and the same pause flag plans no publish step at all —
/// so the pair makes exactly one publish call in total.
pub proof fn lemma_unchanged_tick_publishes_nothing(
    state: StateModel,
    first: InputModel,
    second: InputModel,
    connect_ok: bool,
    connect_ok_second: bool,
)
    requires
        plan_of(state, first).op is Publish,
        plan_of(state, first).connect ==> connect_ok,
        second.remote_present && second.player_present,
        first.track is Some && second.track is Some,
        second.track->Some_0.id == first.track->Some_0.id,
        spec_paused(second.app_data) == spec_paused(first.app_data),
    ensures
        plan_of(next_state(state, first, connect_ok, true), second).op is Noop,
        publish_calls(tick_calls(state, first, connect_ok)) == 1,
        publish_calls(
            tick_calls(next_state(state, first, connect_ok, true), second, connect_ok_second),
        ) == 0,
{
    lemma_tick_call_counts(state, first, connect_ok);
    lemma_tick_call_counts(
        next_state(state, first, connect_ok, true),
        second,
        connect_ok_second,
    );
}

/// When the track becomes absent after one was published, the tick issues
/// exactly one clear call and no publish, and a successful clear empties
/// the remembered track identity.
pub proof fn lemma_track_absent_clears(state: StateModel, input: InputModel, connect_ok: bool)
    requires
        state.inv(),
        input.remote_present && input.player_present,
        input.track is None,
        state.last_track_id is Some,
    ensures
        plan_of(state, input).op is Clear,
        clear_calls(tick_calls(state, input, connect_ok)) == 1,
        publish_calls(tick_calls(state, input, connect_ok)) == 0,
        next_state(state, input, connect_ok, true).last_track_id is None,
{
    lemma_tick_call_counts(state, input, connect_ok);
}

/// Pause, then resume: a publish made while paused carries no end
/// timestamp, and the publish the resumption causes carries one computed
/// from the resuming tick's own clock and position.
pub proof fn lemma_pause_resume_timestamps(
    state: StateModel,
    paused_tick: InputModel,
    resumed_tick: InputModel,
    connect_ok: bool,
)
    requires
        plan_of(state, paused_tick).op is Publish,
        plan_of(state, paused_tick).connect ==> connect_ok,
        spec_paused(paused_tick.app_data),
        paused_tick.track is Some,
        resumed_tick.remote_present && resumed_tick.player_present,
        resumed_tick.track matches Some(t) && t.id == paused_tick.track->Some_0.id
            && t.artwork_url is Some,
        !spec_paused(resumed_tick.app_data),
        resumed_tick.remaining_seconds is Some,
    ensures
        plan_of(state, paused_tick).op->Publish_0.end_timestamp_seconds is None,
        ({
            let after_pause = next_state(state, paused_tick, connect_ok, true);
            &&& plan_of(after_pause, resumed_tick).op matches OpModel::Publish(p)
            &&& p.end_timestamp_seconds == Some(
                resumed_tick.now_seconds + resumed_tick.remaining_seconds->Some_0,
            )
        }),
{
}

/// A publish step skipped for want of artwork, or failed for want of a
/// playback position, makes no publish call and leaves the published-state
/// memory exactly as it was, so the same publish is owed again next tick.
pub proof fn lemma_withheld_publish_keeps_memory(
    state: StateModel,
    input: InputModel,
    connect_ok: bool,
    send_ok: bool,
)
    requires
        plan_of(state, input).op is SkipNoArtwork || plan_of(state, input).op is FailNoPosition,
    ensures
        publish_calls(tick_calls(state, input, connect_ok)) == 0,
        next_state(state, input, connect_ok, send_ok).last_track_id == state.last_track_id,
        next_state(state, input, connect_ok, send_ok).last_paused == state.last_paused,
{
    lemma_tick_call_counts(state, input, connect_ok);
}

/// When the remote process goes away while a connection is open, the tick
/// makes exactly one call — the close — and the handle is gone afterwards.
pub proof fn lemma_remote_absent_closes(
    state: StateModel,
    input: InputModel,
    connect_ok: bool,
    send_ok: bool,
)
    requires
        !input.remote_present,
        state.connection_open,
    ensures
        tick_calls(state, input, connect_ok) =~= seq![CallModel::Close],
        close_calls(tick_calls(state, input, connect_ok)) == 1,
        publish_calls(tick_calls(state, input, connect_ok)) == 0,
        clear_calls(tick_calls(state, input, connect_ok)) == 0,
        !next_state(state, input, connect_ok, send_ok).connection_open,
{
    lemma_tick_call_counts(state, input, connect_ok);
}

/// A tick that observes a track with a new identity under an unchanged
/// pause flag makes exactly one publish call, with that track's payload,
/// and a successful publish updates the remembered identity to the new
/// track's.
pub proof fn lemma_track_change_republishes(
    state: StateModel,
    input: InputModel,
    connect_ok: bool,
)
    requires
        state.inv(),
        state.last_track_id is Some,
        input.remote_present && input.player_present,
        input.track matches Some(t) && t.artwork_url is Some,
        state.last_track_id != Some(input.track->Some_0.id),
        spec_paused(input.app_data) == state.last_paused,
        !spec_paused(input.app_data) ==> input.remaining_seconds is Some,
    ensures
        plan_of(state, input).op == OpModel::Publish(
            payload_of(
                input.track->Some_0,
                spec_paused(input.app_data),
                input.now_seconds,
                input.remaining_seconds,
            ),
        ),
        publish_calls(tick_calls(state, input, connect_ok)) == 1,
        next_state(state, input, connect_ok, true).last_track_id == Some(
            input.track->Some_0.id,
        ),
        next_state(state, input, connect_ok, true).last_paused == state.last_paused,
{
    lemma_tick_call_counts(state, input, connect_ok);
}

} // verus!
