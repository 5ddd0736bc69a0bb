//! The reconciliation engine: from the engine state and one tick's
//! observations to the plan of outbound calls for that tick, and the state
//! transition that the tick's outcomes cause.

use vstd::prelude::*;
use crate::payload::{build_payload, payload_of, Payload, PayloadModel};
use crate::snapshot::{derive_paused, spec_paused, InputModel, TickInput};
use crate::state::{EngineState, StateModel};

verus! {

/// What the publish step of one tick does, once the connection stands.
///
/// `SkipNoArtwork`: a publish is due but the track has no artwork, so the
/// payload cannot be built; the tick logs and skips, leaving the memory
/// unchanged so the publish is retried. `FailNoPosition`: a publish is due
/// while playing but the player reported no position, so no end timestamp
/// can be computed; the tick fails, likewise leaving memory unchanged.
#[derive(Debug, PartialEq, Eq)]
pub enum PublishOp {
    Noop,
    Publish(Payload),
    Clear,
    SkipNoArtwork,
    FailNoPosition,
}

/// Mathematical model of a publish step.
pub enum OpModel {
    Noop,
    Publish(PayloadModel),
    Clear,
    SkipNoArtwork,
    FailNoPosition,
}

impl View for PublishOp {
    type V = OpModel;

    open spec fn view(&self) -> OpModel {
        match self {
            PublishOp::Noop => OpModel::Noop,
            PublishOp::Publish(p) => OpModel::Publish(p@),
            PublishOp::Clear => OpModel::Clear,
            PublishOp::SkipNoArtwork => OpModel::SkipNoArtwork,
            PublishOp::FailNoPosition => OpModel::FailNoPosition,
        }
    }
}

/// The engine's decision for one tick.
///
/// At most one of `close` and `connect` is set. When `close` is set the
/// tick only closes the connection and drops the handle; `op` is `Noop`.
/// When `connect` is set the host must open a connection first and attempt
/// `op` only if that succeeded.
#[derive(Debug, PartialEq, Eq)]
pub struct TickPlan {
    pub close: bool,
    pub connect: bool,
    pub op: PublishOp,
}

/// Mathematical model of a tick plan.
pub struct PlanModel {
    pub close: bool,
    pub connect: bool,
    pub op: OpModel,
}

impl View for TickPlan {
    type V = PlanModel;

    open spec fn view(&self) -> PlanModel {
        PlanModel { close: self.close, connect: self.connect, op: self.op@ }
    }
}

/// Whether the remembered publish differs from the track identity and
/// pause flag in front of the engine — exactly then is a publish due.
pub open spec fn publish_due(state: StateModel, paused: bool, id: Seq<char>) -> bool {
    state.last_track_id != Some(id) || paused != state.last_paused
}

/// Whether the coming tick's publish step will want a payload for this
/// track identity and pause flag. A host may ask this before it spends
/// work on assembling payload material (such as fetching an artwork URL)
/// that a no-op tick would never look at.
pub fn change_pending(state: &EngineState, track_id: &String, paused: bool) -> (due: bool)
    ensures
        due == publish_due(state@, paused, track_id@),
{
    (match &state.last_track_id {
        Some(last_id) => *last_id != *track_id,
        None => true,
    }) || paused != state.last_paused
}

/// The publish step of the transition table, reached when both processes
/// are present (and a connection stands or is being opened this tick).
pub open spec fn op_of(state: StateModel, input: InputModel) -> OpModel {
    let paused = spec_paused(input.app_data);
    match input.track {
        None => if state.last_track_id is Some {
            OpModel::Clear
        } else {
            OpModel::Noop
        },
        Some(track) => if !publish_due(state, paused, track.id) {
            OpModel::Noop
        } else if track.artwork_url is None {
            OpModel::SkipNoArtwork
        } else if !paused && input.remaining_seconds is None {
            OpModel::FailNoPosition
        } else {
            OpModel::Publish(
                payload_of(track, paused, input.now_seconds, input.remaining_seconds),
            )
        },
    }
}

/// The whole transition table: with either process absent the tick at most
/// closes the connection; with both present it opens one if none stands
/// and carries out the publish step.
pub open spec fn plan_of(state: StateModel, input: InputModel) -> PlanModel {
    if !(input.remote_present && input.player_present) {
        PlanModel { close: state.connection_open, connect: false, op: OpModel::Noop }
    } else {
        PlanModel { close: false, connect: !state.connection_open, op: op_of(state, input) }
    }
}

/// Plans one tick. The host performs the planned calls in order — close,
/// or connect and then the publish step — and records their outcomes on
/// the state through the `EngineState` methods.
pub fn plan_tick(state: &EngineState, input: &TickInput) -> (plan: TickPlan)
    requires
        input@.wf(),
    ensures
        plan@ == plan_of(state@, input@),
{
    if !(input.remote_present && input.player_present) {
        TickPlan { close: state.connection_open, connect: false, op: PublishOp::Noop }
    } else {
        let paused = derive_paused(&input.app_data);
        let op = match &input.track {
            None => {
                if state.last_track_id.is_some() {
                    PublishOp::Clear
                } else {
                    PublishOp::Noop
                }
            },
            Some(track) => {
                if !change_pending(state, &track.id, paused) {
                    PublishOp::Noop
                } else if track.artwork_url.is_none() {
                    PublishOp::SkipNoArtwork
                } else if !paused && input.remaining_seconds.is_none() {
                    PublishOp::FailNoPosition
                } else {
                    PublishOp::Publish(
                        build_payload(track, paused, input.now_seconds, &input.remaining_seconds),
                    )
                }
            },
        };
        TickPlan { close: false, connect: !state.connection_open, op }
    }
}

/// The engine state after one whole tick, given the tick's plan was carried
/// out with the given call outcomes: `connect_ok` whether an attempted
/// connect succeeded, `send_ok` whether an attempted publish or clear
/// succeeded. A failed call leaves the state for the next tick to retry;
/// a close drops the handle and the published-state memory whatever the
/// close call itself returned.
pub open spec fn next_state(
    state: StateModel,
    input: InputModel,
    connect_ok: bool,
    send_ok: bool,
) -> StateModel {
    let plan = plan_of(state, input);
    if plan.close {
        state.closed()
    } else if plan.connect && !connect_ok {
        state
    } else {
        let opened = if plan.connect {
            state.connected()
        } else {
            state
        };
        match plan.op {
            OpModel::Publish(_) => if send_ok {
                opened.published(input.track->Some_0.id, spec_paused(input.app_data))
            } else {
                opened
            },
            OpModel::Clear => if send_ok {
                opened.cleared()
            } else {
                opened
            },
            _ => opened,
        }
    }
}

/// Records a whole tick's outcomes on the engine state, once the host has
/// performed the planned calls: `connect_ok` whether an attempted connect
/// succeeded, `send_ok` whether an attempted publish or clear succeeded
/// (both immaterial when nothing of the kind was attempted). The state
/// afterwards is exactly the tick model's `next_state`, so every law
/// proved of the model holds of the state a host carries this way.
pub fn apply_tick(state: &mut EngineState, input: &TickInput, connect_ok: bool, send_ok: bool)
    requires
        input@.wf(),
    ensures
        final(state)@ == next_state(old(state)@, input@, connect_ok, send_ok),
{
    let plan = plan_tick(state, input);
    if plan.close {
        state.note_closed();
        return;
    }
    if plan.connect && !connect_ok {
        return;
    }
    if plan.connect {
        state.note_connected();
    }
    match plan.op {
        PublishOp::Publish(payload) => {
            if send_ok {
                let track_id = match &input.track {
                    Some(track) => track.id.clone(),
                    None => String::new(),
                };
                state.note_published(track_id, payload.paused_overlay);
            }
        },
        PublishOp::Clear => {
            if send_ok {
                state.note_cleared();
            }
        },
        _ => {},
    }
}

/// One outbound call on the presence channel.
pub enum CallModel {
    Connect,
    Publish(PayloadModel),
    Clear,
    Close,
}

/// The outbound calls one tick makes, in order: the planned close, or the
/// planned connect followed — only if the connect succeeded — by the
/// planned publish or clear. Skipped and failed publish steps, like no-op
/// ticks, make no call beyond these.
pub open spec fn tick_calls(state: StateModel, input: InputModel, connect_ok: bool) -> Seq<
    CallModel,
> {
    let plan = plan_of(state, input);
    if plan.close {
        seq![CallModel::Close]
    } else if plan.connect && !connect_ok {
        seq![CallModel::Connect]
    } else {
        let before: Seq<CallModel> = if plan.connect {
            seq![CallModel::Connect]
        } else {
            Seq::empty()
        };
        match plan.op {
            OpModel::Publish(p) => before.push(CallModel::Publish(p)),
            OpModel::Clear => before.push(CallModel::Clear),
            _ => before,
        }
    }
}

} // verus!
