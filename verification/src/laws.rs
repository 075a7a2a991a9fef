//! Laws that hold across whole sequences of operations on a flow control
//! state: counters sum their deltas, and the window and limit only grow.

use vstd::prelude::*;

use crate::state::FlowControl;

verus! {

/// One mutating operation on a flow control state, together with its inputs.
pub enum FlowOp {
    /// `increase_recv_off(delta)`
    IncreaseRecvOff(u64),
    /// `increase_read_off(delta)`
    IncreaseReadOff(u64),
    /// `update_max_data(now)`
    UpdateMaxData(u64),
    /// `autotune_window(now, srtt)`
    AutotuneWindow(u64, u64),
    /// `ensure_window_lower_bound(min_window)`
    EnsureWindowLowerBound(u64),
}

/// The state after one operation, as the operations' own contracts describe
/// it.
pub open spec fn flow_step(s: FlowControl, op: FlowOp) -> FlowControl {
    match op {
        FlowOp::IncreaseRecvOff(delta) => s.spec_increase_recv_off(delta),
        FlowOp::IncreaseReadOff(delta) => s.spec_increase_read_off(delta),
        FlowOp::UpdateMaxData(now) => s.spec_update_max_data(now),
        FlowOp::AutotuneWindow(now, srtt) => s.spec_autotune_window(now, srtt),
        FlowOp::EnsureWindowLowerBound(min_window) => s.spec_ensure_window_lower_bound(min_window),
    }
}

/// The state after a sequence of operations, applied in order.
pub open spec fn apply_ops(s: FlowControl, ops: Seq<FlowOp>) -> FlowControl
    decreases ops.len(),
{
    if ops.len() == 0 {
        s
    } else {
        flow_step(apply_ops(s, ops.drop_last()), ops.last())
    }
}

/// Whether an operation's inputs respect the configured maximum window: a
/// requested window lower bound must not exceed it. Every other operation
/// is unconstrained.
pub open spec fn op_bounded(op: FlowOp, max_window: u64) -> bool {
    match op {
        FlowOp::EnsureWindowLowerBound(min_window) => min_window <= max_window,
        _ => true,
    }
}

/// `op_bounded` for every operation of a sequence.
pub open spec fn ops_bounded(ops: Seq<FlowOp>, max_window: u64) -> bool {
    forall|i: int| 0 <= i < ops.len() ==> op_bounded(ops[i], max_window)
}

/// One bounded operation on a well-formed state preserves well-formedness,
/// never decreases the window or the advertised limit, keeps the window at
/// or below `max_window`, and leaves `max_window` itself unchanged.
pub proof fn lemma_step_monotone(s: FlowControl, op: FlowOp)
    requires
        s.wf(),
        op_bounded(op, s.max_window),
    ensures
        flow_step(s, op).wf(),
        flow_step(s, op).window >= s.window,
        flow_step(s, op).max_data >= s.max_data,
        flow_step(s, op).window <= s.max_window,
        flow_step(s, op).max_window == s.max_window,
{
}

/// The window and the advertised limit are non-decreasing across any
/// sequence of operations, and the window never exceeds `max_window`,
/// starting from any well-formed state — provided each requested window
/// lower bound stays within `max_window`, since `ensure_window_lower_bound`
/// alone may push the window past it.
pub proof fn lemma_monotone_over_ops(s: FlowControl, ops: Seq<FlowOp>)
    requires
        s.wf(),
        ops_bounded(ops, s.max_window),
    ensures
        apply_ops(s, ops).wf(),
        apply_ops(s, ops).window >= s.window,
        apply_ops(s, ops).max_data >= s.max_data,
        apply_ops(s, ops).window <= s.max_window,
        apply_ops(s, ops).max_window == s.max_window,
    decreases ops.len(),
{
    if ops.len() > 0 {
        assert forall|i: int| 0 <= i < ops.drop_last().len() implies op_bounded(
            ops.drop_last()[i],
            s.max_window,
        ) by {
            assert(ops.drop_last()[i] == ops[i]);
        }
        lemma_monotone_over_ops(s, ops.drop_last());
        assert(op_bounded(ops.last(), s.max_window));
        lemma_step_monotone(apply_ops(s, ops.drop_last()), ops.last());
    }
}

/// Whether an operation is one of the two counter increments.
pub open spec fn is_increase_op(op: FlowOp) -> bool {
    match op {
        FlowOp::IncreaseRecvOff(_) => true,
        FlowOp::IncreaseReadOff(_) => true,
        _ => false,
    }
}

/// The consumption delta an operation carries: `delta` for
/// `increase_read_off`, zero for everything else.
pub open spec fn read_delta_of(op: FlowOp) -> u64 {
    match op {
        FlowOp::IncreaseReadOff(delta) => delta,
        _ => 0,
    }
}

/// The arrival delta an operation carries: `delta` for
/// `increase_recv_off`, zero for everything else.
pub open spec fn recv_delta_of(op: FlowOp) -> u64 {
    match op {
        FlowOp::IncreaseRecvOff(delta) => delta,
        _ => 0,
    }
}

/// The sum of the consumption deltas of a sequence of operations.
pub open spec fn read_delta_sum(ops: Seq<FlowOp>) -> int
    decreases ops.len(),
{
    if ops.len() == 0 {
        0
    } else {
        read_delta_sum(ops.drop_last()) + read_delta_of(ops.last())
    }
}

/// The sum of the arrival deltas of a sequence of operations.
pub open spec fn recv_delta_sum(ops: Seq<FlowOp>) -> int
    decreases ops.len(),
{
    if ops.len() == 0 {
        0
    } else {
        recv_delta_sum(ops.drop_last()) + recv_delta_of(ops.last())
    }
}

/// Delta sums are never negative.
pub proof fn lemma_delta_sums_nonneg(ops: Seq<FlowOp>)
    ensures
        read_delta_sum(ops) >= 0,
        recv_delta_sum(ops) >= 0,
    decreases ops.len(),
{
    if ops.len() > 0 {
        lemma_delta_sums_nonneg(ops.drop_last());
    }
}

/// Across any interleaving of the two counter increments whose totals fit
/// in the counters, `read_off` and `recv_off` end up equal to the running
/// sums of the deltas applied, and nothing else changes.
pub proof fn lemma_counters_sum_deltas(s: FlowControl, ops: Seq<FlowOp>)
    requires
        forall|i: int| 0 <= i < ops.len() ==> is_increase_op(ops[i]),
        s.read_off + read_delta_sum(ops) <= u64::MAX,
        s.recv_off + recv_delta_sum(ops) <= u64::MAX,
    ensures
        apply_ops(s, ops).read_off == s.read_off + read_delta_sum(ops),
        apply_ops(s, ops).recv_off == s.recv_off + recv_delta_sum(ops),
        apply_ops(s, ops).max_data == s.max_data,
        apply_ops(s, ops).window == s.window,
        apply_ops(s, ops).max_window == s.max_window,
        apply_ops(s, ops).last_updated == s.last_updated,
    decreases ops.len(),
{
    if ops.len() > 0 {
        assert forall|i: int| 0 <= i < ops.drop_last().len() implies is_increase_op(
            ops.drop_last()[i],
        ) by {
            assert(ops.drop_last()[i] == ops[i]);
        }
        lemma_delta_sums_nonneg(ops.drop_last());
        lemma_counters_sum_deltas(s, ops.drop_last());
        assert(is_increase_op(ops.last()));
    }
}

/// Committing an update twice, with different times and no intervening
/// consumption or tuning, yields the same limit both times; only the
/// recorded update time differs.
pub proof fn lemma_update_twice_same_limit(s: FlowControl, t1: u64, t2: u64)
    ensures
        s.spec_update_max_data(t1).spec_update_max_data(t2).max_data == s.spec_update_max_data(
            t1,
        ).max_data,
        s.spec_update_max_data(t1).last_updated == Some(t1),
        s.spec_update_max_data(t1).spec_update_max_data(t2).last_updated == Some(t2),
{
}

} // verus!
