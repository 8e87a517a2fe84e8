//! The abstract machine behind the bridge's contracts.
//!
//! Each bridge operation's effect on one shared cell (the session state, the
//! configuration, a snapshot) is a step function here; folding the steps over
//! a call sequence gives the cell's value after that sequence. The proof
//! functions state the bridge's cross-call guarantees over those folds.

use vstd::prelude::*;

use crate::types::SessionState;
use crate::types::TradeConfig;

verus! {

/// A lifecycle command as the session-state machine sees it. The session
/// state after a call depends only on which command ran, never on how the
/// engine behaved.
#[derive(Clone, Copy, Debug, PartialEq, Eq, Structural)]
pub enum LifecycleOp {
    Start,
    Stop,
}

/// One lifecycle call's effect on the session state. A `start` call leaves
/// the session running whether it newly started a worker or was refused as
/// already running; a `stop` call leaves it stopped whether or not a worker
/// was active.
pub open spec fn lifecycle_step(state: SessionState, op: LifecycleOp) -> SessionState {
    match op {
        LifecycleOp::Start => SessionState::Running,
        LifecycleOp::Stop => SessionState::Stopped,
    }
}

/// The session state after a whole sequence of lifecycle calls.
pub open spec fn lifecycle_run(init: SessionState, ops: Seq<LifecycleOp>) -> SessionState
    decreases ops.len(),
{
    if ops.len() == 0 {
        init
    } else {
        lifecycle_step(lifecycle_run(init, ops.drop_last()), ops.last())
    }
}

/// The session reports `Running` exactly when a `start` has been called and
/// no `stop` was called after it.
pub proof fn lemma_running_iff_started_unstopped(ops: Seq<LifecycleOp>)
    ensures
        (lifecycle_run(SessionState::Stopped, ops) is Running) <==> (exists|i: int|
            0 <= i < ops.len() && (#[trigger] ops[i]) is Start && (forall|j: int|
                i < j < ops.len() ==> !((#[trigger] ops[j]) is Stop))),
{
    if ops.len() == 0 {
    } else if ops.last() is Start {
        let w = ops.len() - 1;
        assert(ops[w] is Start);
        assert(forall|j: int| w < j < ops.len() ==> !((#[trigger] ops[j]) is Stop));
        assert(lifecycle_run(SessionState::Stopped, ops) is Running);
    } else {
        assert(lifecycle_run(SessionState::Stopped, ops) is Stopped);
        assert forall|i: int|
            0 <= i < ops.len() && (#[trigger] ops[i]) is Start implies !(forall|j: int|
            i < j < ops.len() ==> !((#[trigger] ops[j]) is Stop)) by {
            assert(ops[ops.len() - 1] is Stop);
            assert(i < ops.len() - 1);
        };
    }
}

/// One poll cycle's effect on a snapshot cell: a delivered reading replaces
/// the whole snapshot; "no data this cycle" retains the last-known-good
/// value.
pub open spec fn snapshot_step<T>(current: Option<T>, reading: Option<T>) -> Option<T> {
    if reading is Some {
        reading
    } else {
        current
    }
}

/// The snapshot after a whole sequence of poll cycles.
pub open spec fn snapshot_run<T>(init: Option<T>, readings: Seq<Option<T>>) -> Option<T>
    decreases readings.len(),
{
    if readings.len() == 0 {
        init
    } else {
        snapshot_step(snapshot_run(init, readings.drop_last()), readings.last())
    }
}

/// Before the first cycle that delivers data, a snapshot that started empty
/// reads as `None` — never as a made-up zero value.
pub proof fn lemma_snapshot_none_iff_nothing_delivered<T>(readings: Seq<Option<T>>)
    ensures
        (snapshot_run(None::<T>, readings) is None) <==> (forall|i: int|
            0 <= i < readings.len() ==> (#[trigger] readings[i]) is None),
    decreases readings.len(),
{
    if readings.len() == 0 {
    } else {
        lemma_snapshot_none_iff_nothing_delivered(readings.drop_last());
        if readings.last() is Some {
            assert(readings[readings.len() - 1] is Some);
        } else {
            assert forall|i: int|
                0 <= i < readings.drop_last().len() implies readings.drop_last()[i]
                == readings[i] by {
                assert(readings.drop_last() =~= readings.subrange(0, readings.len() - 1));
            };
        }
    }
}

/// Whatever a snapshot that started empty holds was delivered, exactly as
/// it stands, by some earlier poll cycle.
pub proof fn lemma_snapshot_holds_delivered_value<T>(readings: Seq<Option<T>>)
    ensures
        (snapshot_run(None::<T>, readings) is Some) ==> (exists|i: int|
            0 <= i < readings.len() && #[trigger] readings[i] == snapshot_run(
                None::<T>,
                readings,
            )),
    decreases readings.len(),
{
    if readings.len() == 0 {
    } else if readings.last() is Some {
        assert(readings[readings.len() - 1] == snapshot_run(None::<T>, readings));
    } else {
        lemma_snapshot_holds_delivered_value(readings.drop_last());
        if snapshot_run(None::<T>, readings) is Some {
            let i = choose|i: int|
                0 <= i < readings.drop_last().len() && #[trigger] readings.drop_last()[i]
                    == snapshot_run(None::<T>, readings.drop_last());
            assert(readings[i] == snapshot_run(None::<T>, readings));
        }
    }
}

/// One `update_config` call's effect: the stored configuration is replaced
/// as a whole by the caller's value.
pub open spec fn config_step(current: TradeConfig, update: TradeConfig) -> TradeConfig {
    update
}

/// The stored configuration after a whole sequence of updates.
pub open spec fn config_run(init: TradeConfig, updates: Seq<TradeConfig>) -> TradeConfig
    decreases updates.len(),
{
    if updates.len() == 0 {
        init
    } else {
        config_step(config_run(init, updates.drop_last()), updates.last())
    }
}

/// However updates from several callers interleave, the stored configuration
/// is the last caller's value whole — symbol, timeframe and poll interval
/// from one call, never a mixture of two.
pub proof fn lemma_config_last_update_wins(init: TradeConfig, updates: Seq<TradeConfig>)
    ensures
        updates.len() > 0 ==> config_run(init, updates) == updates.last(),
        updates.len() == 0 ==> config_run(init, updates) == init,
{
}

} // verus!
