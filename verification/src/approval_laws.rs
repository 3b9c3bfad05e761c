//! What holds of the approval coordinator over any history of its use.
//!
//! A history is the sequence of operations applied to a fresh coordinator.
//! Identifiers are drawn at random, so two requests could in principle get
//! the same one; the laws below speak of the histories in which they do not.

use vstd::prelude::*;
use vstd::relations::injective_on;
use vstd::set_lib::*;
use crate::approval::{ChannelModel, Published};

verus! {

/// One use of the coordinator.
pub ghost enum ChannelOp {
    /// `request_approval` stored a request under `id`.
    Request { id: u128, command: Seq<char> },
    /// `submit_decision` was called for `id`.
    Decide { id: u128, approved: bool },
    /// The waiter of `id` ran out of time.
    TimeOut { id: u128 },
    /// The waiter of `id` lost its channel.
    Abandon { id: u128 },
}

impl ChannelOp {
    /// The identifier the operation is about.
    pub open spec fn id(self) -> u128 {
        match self {
            ChannelOp::Request { id, .. } => id,
            ChannelOp::Decide { id, .. } => id,
            ChannelOp::TimeOut { id } => id,
            ChannelOp::Abandon { id } => id,
        }
    }

    /// Whether the operation is a request stored under `id`.
    pub open spec fn requests(self, id: u128) -> bool {
        self is Request && self.id() == id
    }

    /// Whether the operation ends the wait for `id`: a decision, a timeout
    /// or the loss of the waiter.
    pub open spec fn ends(self, id: u128) -> bool {
        !(self is Request) && self.id() == id
    }
}

impl ChannelModel {
    /// The coordinator after one more operation.
    pub open spec fn step(self, op: ChannelOp) -> ChannelModel {
        match op {
            ChannelOp::Request { id, command } => self.request(id, command),
            ChannelOp::Decide { id, approved } => self.decide(id, approved),
            ChannelOp::TimeOut { id } => self.time_out(id),
            ChannelOp::Abandon { id } => self.abandon(id),
        }
    }

    /// The coordinator after a whole history, starting fresh.
    pub open spec fn run(ops: Seq<ChannelOp>) -> ChannelModel
        decreases ops.len(),
    {
        if ops.len() == 0 {
            ChannelModel::init()
        } else {
            ChannelModel::run(ops.drop_last()).step(ops.last())
        }
    }
}

/// No identifier is given to two requests of the history.
pub open spec fn distinct_requests(ops: Seq<ChannelOp>) -> bool {
    forall|i: int, j: int|
        0 <= i < j < ops.len() && (#[trigger] ops[i]) is Request && (#[trigger] ops[j]) is Request
            ==> ops[i].id() != ops[j].id()
}

/// Nothing after position `i` of the history ends the wait for `id`.
pub open spec fn no_later_end(ops: Seq<ChannelOp>, i: int, id: u128) -> bool {
    forall|j: int| i < j < ops.len() ==> !(#[trigger] ops[j]).ends(id)
}

/// Position `i` of the history is a request that nothing has ended yet.
pub open spec fn outstanding_call(ops: Seq<ChannelOp>, i: int) -> bool {
    &&& 0 <= i < ops.len()
    &&& ops[i] is Request
    &&& no_later_end(ops, i, ops[i].id())
}

/// The positions of the requests that are still outstanding.
pub open spec fn outstanding_calls(ops: Seq<ChannelOp>) -> Set<int> {
    Set::new(|i: int| outstanding_call(ops, i))
}

/// Some request for `id` is still outstanding.
pub open spec fn outstanding_id(ops: Seq<ChannelOp>, id: u128) -> bool {
    exists|i: int| #[trigger] outstanding_call(ops, i) && ops[i].id() == id
}

/// Some event before position `j` announces the request `id`.
pub open spec fn announced_before(sent: Seq<Published>, id: u128, j: int) -> bool {
    exists|i: int| 0 <= i < j && i < sent.len() && (#[trigger] sent[i]).announces(id)
}

/// Some operation of the history is a request stored under `id`.
pub open spec fn requested_in(ops: Seq<ChannelOp>, id: u128) -> bool {
    exists|i: int| 0 <= i < ops.len() && (#[trigger] ops[i]).requests(id)
}

spec fn announced_were_requested(ops: Seq<ChannelOp>, sent: Seq<Published>) -> bool {
    forall|k: int, id: u128|
        0 <= k < sent.len() && (#[trigger] sent[k].announces(id)) ==> requested_in(ops, id)
}

spec fn settled_after_announced(sent: Seq<Published>) -> bool {
    forall|j: int, id: u128|
        0 <= j < sent.len() && (#[trigger] sent[j].settles(id)) ==> announced_before(sent, id, j)
}

spec fn settled_once(sent: Seq<Published>) -> bool {
    forall|i: int, j: int, id: u128|
        0 <= i < sent.len() && 0 <= j < sent.len() && (#[trigger] sent[i].settles(id)) && (
        #[trigger] sent[j].settles(id)) ==> i == j
}

spec fn announced_once(sent: Seq<Published>) -> bool {
    forall|i: int, j: int, id: u128|
        0 <= i < sent.len() && 0 <= j < sent.len() && (#[trigger] sent[i].announces(id)) && (
        #[trigger] sent[j].announces(id)) ==> i == j
}

spec fn pending_unsettled(m: ChannelModel) -> bool {
    forall|j: int, id: u128|
        m.pending.contains_key(id) && 0 <= j < m.sent.len() ==> !(#[trigger] m.sent[j].settles(id))
}

spec fn pending_announced(m: ChannelModel) -> bool {
    forall|id: u128| #[trigger]
        m.pending.contains_key(id) ==> announced_before(m.sent, id, m.sent.len() as int)
}

spec fn pending_outstanding(ops: Seq<ChannelOp>, m: ChannelModel) -> bool {
    forall|id: u128| #[trigger] m.pending.contains_key(id) <==> outstanding_id(ops, id)
}

/// What ties the state of the coordinator to the history that led to it.
spec fn consistent(ops: Seq<ChannelOp>, m: ChannelModel) -> bool {
    &&& m.pending.dom().finite()
    &&& announced_were_requested(ops, m.sent)
    &&& settled_after_announced(m.sent)
    &&& settled_once(m.sent)
    &&& announced_once(m.sent)
    &&& pending_unsettled(m)
    &&& pending_announced(m)
    &&& pending_outstanding(ops, m)
}

proof fn lemma_outstanding_after_request(ops: Seq<ChannelOp>, id: u128)
    requires
        ops.len() > 0,
        ops.last() is Request,
    ensures
        outstanding_id(ops, id) <==> (ops.last().id() == id || outstanding_id(ops.drop_last(), id)),
{
    let before = ops.drop_last();
    let n = ops.len() - 1;
    if ops.last().id() == id {
        assert(no_later_end(ops, n, id));
        assert(outstanding_call(ops, n));
    }
    if outstanding_id(before, id) {
        let i = choose|i: int| #[trigger] outstanding_call(before, i) && before[i].id() == id;
        assert forall|j: int| i < j < ops.len() implies !(#[trigger] ops[j]).ends(id) by {
            if j < n {
                assert(before[j] == ops[j]);
            }
        }
        assert(outstanding_call(ops, i));
    }
    if outstanding_id(ops, id) && ops.last().id() != id {
        let i = choose|i: int| #[trigger] outstanding_call(ops, i) && ops[i].id() == id;
        assert(i < n);
        assert forall|j: int| i < j < before.len() implies !(#[trigger] before[j]).ends(id) by {
            assert(before[j] == ops[j]);
        }
        assert(outstanding_call(before, i));
    }
}

proof fn lemma_outstanding_after_end(ops: Seq<ChannelOp>, id: u128)
    requires
        ops.len() > 0,
        !(ops.last() is Request),
    ensures
        outstanding_id(ops, id) <==> (ops.last().id() != id && outstanding_id(
            ops.drop_last(),
            id,
        )),
{
    let before = ops.drop_last();
    let n = ops.len() - 1;
    if outstanding_id(ops, id) {
        let i = choose|i: int| #[trigger] outstanding_call(ops, i) && ops[i].id() == id;
        assert(i < n);
        assert(!ops[n].ends(id));
        assert forall|j: int| i < j < before.len() implies !(#[trigger] before[j]).ends(id) by {
            assert(before[j] == ops[j]);
        }
        assert(outstanding_call(before, i));
    }
    if ops.last().id() != id && outstanding_id(before, id) {
        let i = choose|i: int| #[trigger] outstanding_call(before, i) && before[i].id() == id;
        assert forall|j: int| i < j < ops.len() implies !(#[trigger] ops[j]).ends(id) by {
            if j < n {
                assert(before[j] == ops[j]);
            }
        }
        assert(outstanding_call(ops, i));
    }
}

proof fn lemma_step_request(ops: Seq<ChannelOp>)
    requires
        ops.len() > 0,
        ops.last() is Request,
        distinct_requests(ops),
        consistent(ops.drop_last(), ChannelModel::run(ops.drop_last())),
    ensures
        consistent(ops, ChannelModel::run(ops)),
{
    let before = ops.drop_last();
    let n = ops.len() - 1;
    let old_m = ChannelModel::run(before);
    let m = ChannelModel::run(ops);
    let id0 = ops.last().id();
    let event = Published::Requested { id: id0, command: ops.last()->command };
    assert(m.sent == old_m.sent.push(event));
    assert(m.pending == old_m.pending.insert(id0, ops.last()->command));
    let last = old_m.sent.len() as int;
    assert(event.announces(id0));
    // No earlier request carries the new identifier.
    assert(!requested_in(before, id0)) by {
        if requested_in(before, id0) {
            let i = choose|i: int| 0 <= i < before.len() && (#[trigger] before[i]).requests(id0);
            assert(ops[i] == before[i]);
            assert(ops[i] is Request && ops[n] is Request);
        }
    }
    assert forall|k: int| 0 <= k < last implies !(#[trigger] old_m.sent[k].announces(id0)) by {}
    assert forall|k: int| 0 <= k < last implies !(#[trigger] old_m.sent[k].settles(id0)) by {
        if old_m.sent[k].settles(id0) {
            assert(announced_before(old_m.sent, id0, k));
        }
    }
    assert forall|k: int, id: u128|
        0 <= k < m.sent.len() && (#[trigger] m.sent[k].announces(id)) implies requested_in(
        ops,
        id,
    ) by {
        if k < last {
            assert(old_m.sent[k].announces(id));
            let i = choose|i: int| 0 <= i < before.len() && (#[trigger] before[i]).requests(id);
            assert(ops[i] == before[i]);
            assert(ops[i].requests(id));
        } else {
            assert(ops[n].requests(id));
        }
    }
    assert forall|j: int, id: u128|
        0 <= j < m.sent.len() && (#[trigger] m.sent[j].settles(id)) implies announced_before(
        m.sent,
        id,
        j,
    ) by {
        assert(j < last);
        assert(old_m.sent[j].settles(id));
        let i = choose|i: int|
            0 <= i < j && i < old_m.sent.len() && (#[trigger] old_m.sent[i]).announces(id);
        assert(m.sent[i] == old_m.sent[i]);
    }
    assert forall|i: int, j: int, id: u128|
        0 <= i < m.sent.len() && 0 <= j < m.sent.len() && (#[trigger] m.sent[i].settles(id)) && (
        #[trigger] m.sent[j].settles(id)) implies i == j by {
        assert(old_m.sent[i].settles(id) && old_m.sent[j].settles(id));
    }
    assert forall|i: int, j: int, id: u128|
        0 <= i < m.sent.len() && 0 <= j < m.sent.len() && (#[trigger] m.sent[i].announces(id))
            && (#[trigger] m.sent[j].announces(id)) implies i == j by {
        if i < last && j < last {
            assert(old_m.sent[i].announces(id) && old_m.sent[j].announces(id));
        } else if i < last {
            assert(old_m.sent[i].announces(id0));
        } else if j < last {
            assert(old_m.sent[j].announces(id0));
        }
    }
    assert forall|j: int, id: u128|
        m.pending.contains_key(id) && 0 <= j < m.sent.len() implies !(#[trigger] m.sent[j].settles(
        id,
    )) by {
        if j < last {
            if id != id0 {
                assert(old_m.pending.contains_key(id));
            }
            assert(m.sent[j] == old_m.sent[j]);
        }
    }
    assert forall|id: u128| #[trigger] m.pending.contains_key(id) implies announced_before(
        m.sent,
        id,
        m.sent.len() as int,
    ) by {
        if id == id0 {
            assert(m.sent[last].announces(id));
        } else {
            assert(old_m.pending.contains_key(id));
            let i = choose|i: int|
                0 <= i < old_m.sent.len() && i < old_m.sent.len() && (
                #[trigger] old_m.sent[i]).announces(id);
            assert(m.sent[i] == old_m.sent[i]);
        }
    }
    assert forall|id: u128| #[trigger] m.pending.contains_key(id) <==> outstanding_id(ops, id) by {
        lemma_outstanding_after_request(ops, id);
        if id != id0 {
            assert(m.pending.contains_key(id) == old_m.pending.contains_key(id));
        }
    }
}

proof fn lemma_step_end(ops: Seq<ChannelOp>)
    requires
        ops.len() > 0,
        !(ops.last() is Request),
        consistent(ops.drop_last(), ChannelModel::run(ops.drop_last())),
    ensures
        consistent(ops, ChannelModel::run(ops)),
{
    let before = ops.drop_last();
    let old_m = ChannelModel::run(before);
    let m = ChannelModel::run(ops);
    let id0 = ops.last().id();
    let last = old_m.sent.len() as int;
    assert(m.pending =~= old_m.pending.remove(id0));
    assert forall|id: u128| #[trigger] m.pending.contains_key(id) <==> outstanding_id(ops, id) by {
        lemma_outstanding_after_end(ops, id);
        if id != id0 {
            assert(m.pending.contains_key(id) == old_m.pending.contains_key(id));
        }
    }
    assert forall|k: int, id: u128|
        0 <= k < old_m.sent.len() && (#[trigger] old_m.sent[k].announces(id)) implies requested_in(
        ops,
        id,
    ) by {
        let i = choose|i: int| 0 <= i < before.len() && (#[trigger] before[i]).requests(id);
        assert(ops[i] == before[i]);
        assert(ops[i].requests(id));
    }
    if m.sent == old_m.sent {
        assert(consistent(ops, m));
    } else {
        let event = m.sent[last];
        assert(old_m.pending.contains_key(id0));
        assert(m.sent == old_m.sent.push(event));
        assert(event.settles(id0));
        assert(!event.announces(id0));
        assert forall|k: int, id: u128|
            0 <= k < m.sent.len() && (#[trigger] m.sent[k].announces(id)) implies requested_in(
            ops,
            id,
        ) by {
            assert(k < last);
            assert(old_m.sent[k].announces(id));
        }
        assert forall|j: int, id: u128|
            0 <= j < m.sent.len() && (#[trigger] m.sent[j].settles(id)) implies announced_before(
            m.sent,
            id,
            j,
        ) by {
            if j < last {
                assert(old_m.sent[j].settles(id));
                let i = choose|i: int|
                    0 <= i < j && i < old_m.sent.len() && (#[trigger] old_m.sent[i]).announces(id);
                assert(m.sent[i] == old_m.sent[i]);
            } else {
                assert(id == id0);
                let i = choose|i: int|
                    0 <= i < last && i < old_m.sent.len() && (#[trigger] old_m.sent[i]).announces(
                        id0,
                    );
                assert(m.sent[i] == old_m.sent[i]);
            }
        }
        assert forall|i: int, j: int, id: u128|
            0 <= i < m.sent.len() && 0 <= j < m.sent.len() && (#[trigger] m.sent[i].settles(id))
                && (#[trigger] m.sent[j].settles(id)) implies i == j by {
            if i < last && j < last {
                assert(old_m.sent[i].settles(id) && old_m.sent[j].settles(id));
            } else if i < last {
                assert(id == id0);
                assert(!old_m.sent[i].settles(id0));
            } else if j < last {
                assert(id == id0);
                assert(!old_m.sent[j].settles(id0));
            }
        }
        assert forall|i: int, j: int, id: u128|
            0 <= i < m.sent.len() && 0 <= j < m.sent.len() && (#[trigger] m.sent[i].announces(id))
                && (#[trigger] m.sent[j].announces(id)) implies i == j by {
            assert(old_m.sent[i].announces(id) && old_m.sent[j].announces(id));
        }
        assert forall|j: int, id: u128|
            m.pending.contains_key(id) && 0 <= j < m.sent.len() implies !(
        #[trigger] m.sent[j].settles(id)) by {
            assert(old_m.pending.contains_key(id) && id != id0);
            if j < last {
                assert(m.sent[j] == old_m.sent[j]);
            }
        }
        assert forall|id: u128| #[trigger] m.pending.contains_key(id) implies announced_before(
            m.sent,
            id,
            m.sent.len() as int,
        ) by {
            assert(old_m.pending.contains_key(id));
            let i = choose|i: int|
                0 <= i < old_m.sent.len() && i < old_m.sent.len() && (
                #[trigger] old_m.sent[i]).announces(id);
            assert(m.sent[i] == old_m.sent[i]);
        }
    }
}

proof fn lemma_run_consistent(ops: Seq<ChannelOp>)
    requires
        distinct_requests(ops),
    ensures
        consistent(ops, ChannelModel::run(ops)),
    decreases ops.len(),
{
    if ops.len() == 0 {
        let m = ChannelModel::run(ops);
        assert forall|id: u128| #[trigger] m.pending.contains_key(id) <==> outstanding_id(
            ops,
            id,
        ) by {}
    } else {
        let before = ops.drop_last();
        assert forall|i: int, j: int|
            0 <= i < j < before.len() && (#[trigger] before[i]) is Request && (
            #[trigger] before[j]) is Request implies before[i].id() != before[j].id() by {
            assert(ops[i] == before[i] && ops[j] == before[j]);
        }
        lemma_run_consistent(before);
        if ops.last() is Request {
            lemma_step_request(ops);
        } else {
            lemma_step_end(ops);
        }
    }
}

/// Over any history with distinct request identifiers, subscribers are shown
/// each request announced at most once and closed at most once, and a closing
/// event only after the announcement of its request.
pub proof fn lemma_one_terminal_event_after_request(ops: Seq<ChannelOp>, id: u128)
    requires
        distinct_requests(ops),
    ensures
        forall|i: int, j: int|
            #![trigger ChannelModel::run(ops).sent[i], ChannelModel::run(ops).sent[j]]
            0 <= i < ChannelModel::run(ops).sent.len() && 0 <= j < ChannelModel::run(
                ops,
            ).sent.len() && ChannelModel::run(ops).sent[i].settles(id) && ChannelModel::run(
                ops,
            ).sent[j].settles(id) ==> i == j,
        forall|i: int, j: int|
            #![trigger ChannelModel::run(ops).sent[i], ChannelModel::run(ops).sent[j]]
            0 <= i < ChannelModel::run(ops).sent.len() && 0 <= j < ChannelModel::run(
                ops,
            ).sent.len() && ChannelModel::run(ops).sent[i].announces(id) && ChannelModel::run(
                ops,
            ).sent[j].announces(id) ==> i == j,
        forall|j: int|
            0 <= j < ChannelModel::run(ops).sent.len() && (#[trigger] ChannelModel::run(
                ops,
            ).sent[j]).settles(id) ==> announced_before(ChannelModel::run(ops).sent, id, j),
{
    lemma_run_consistent(ops);
    let sent = ChannelModel::run(ops).sent;
    assert forall|i: int, j: int|
        0 <= i < sent.len() && 0 <= j < sent.len() && sent[i].settles(id) && sent[j].settles(
            id,
        ) implies i == j by {}
    assert forall|i: int, j: int|
        0 <= i < sent.len() && 0 <= j < sent.len() && sent[i].announces(id) && sent[j].announces(
            id,
        ) implies i == j by {}
}

/// Over any history with distinct request identifiers, the pending requests
/// are exactly those that were made and that no decision, timeout or lost
/// waiter has ended, and their number is the number of such calls.
pub proof fn lemma_pending_counts_outstanding_calls(ops: Seq<ChannelOp>)
    requires
        distinct_requests(ops),
    ensures
        forall|id: u128| #[trigger]
            ChannelModel::run(ops).pending.contains_key(id) <==> outstanding_id(ops, id),
        ChannelModel::run(ops).pending.dom().finite(),
        outstanding_calls(ops).finite(),
        ChannelModel::run(ops).pending.len() == outstanding_calls(ops).len(),
{
    lemma_run_consistent(ops);
    let m = ChannelModel::run(ops);
    let calls = outstanding_calls(ops);
    let id_at = |i: int| ops[i].id();
    let positions = set_int_range(0, ops.len() as int);
    lemma_int_range(0, ops.len() as int);
    assert(calls.subset_of(positions));
    lemma_len_subset(calls, positions);
    assert(injective_on(id_at, calls)) by {
        assert forall|a: int, b: int|
            calls.contains(a) && calls.contains(b) && #[trigger] id_at(a) == #[trigger] id_at(
                b,
            ) implies a == b by {
            assert(outstanding_call(ops, a) && outstanding_call(ops, b));
            if a < b {
                assert(ops[a] is Request && ops[b] is Request);
            } else if b < a {
                assert(ops[b] is Request && ops[a] is Request);
            }
        }
    }
    assert(calls.map(id_at) =~= m.pending.dom()) by {
        assert forall|id: u128| calls.map(id_at).contains(id) <==> m.pending.dom().contains(
            id,
        ) by {
            if calls.map(id_at).contains(id) {
                let i = choose|i: int| calls.contains(i) && id_at(i) == id;
                assert(outstanding_call(ops, i));
                assert(outstanding_id(ops, id));
                assert(m.pending.contains_key(id));
            }
            if m.pending.dom().contains(id) {
                assert(m.pending.contains_key(id));
                let i = choose|i: int| #[trigger] outstanding_call(ops, i) && ops[i].id() == id;
                assert(calls.contains(i) && id_at(i) == id);
            }
        }
    }
    lemma_map_size(calls, m.pending.dom(), id_at);
}

/// A request under an identifier that was not pending, once it has ended by
/// a decision, a timeout or the loss of its waiter, leaves the pending
/// requests exactly as they were before it was made. What was published in
/// between is the announcement, followed by one closing event unless the
/// waiter was lost.
pub proof fn lemma_ended_request_leaves_no_trace(
    before: ChannelModel,
    id: u128,
    command: Seq<char>,
    end: ChannelOp,
)
    requires
        !before.pending.contains_key(id),
        end.ends(id),
    ensures
        before.request(id, command).step(end).pending == before.pending,
        before.request(id, command).step(end).sent == (match end {
            ChannelOp::Decide { approved, .. } => before.sent.push(
                Published::Requested { id, command },
            ).push(Published::verdict(id, approved)),
            ChannelOp::TimeOut { .. } => before.sent.push(
                Published::Requested { id, command },
            ).push(Published::Rejected { id }),
            _ => before.sent.push(Published::Requested { id, command }),
        }),
{
    let requested = before.request(id, command);
    assert(requested.pending.contains_key(id));
    assert(requested.pending.remove(id) =~= before.pending);
}

} // verus!
