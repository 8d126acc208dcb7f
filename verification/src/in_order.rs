//! The law of the pipeline: whatever the order in which handlers finish,
//! the bytes on the wire are the responses in the order of the requests.

use vstd::prelude::*;
use crate::frontend::{
    backlog_wire, lemma_run_length_holds, model_complete, run_length,
    PipelineSlot, WriterModel,
};

verus! {

/// The bytes of the first `n` of `slots`, one after the other.
pub open spec fn wire_of(slots: Seq<PipelineSlot>, n: nat) -> Seq<u8>
    decreases n,
{
    if n == 0 {
        Seq::<u8>::empty()
    } else {
        wire_of(slots, (n - 1) as nat) + slots[n - 1].wire()
    }
}

/// The writer side of a connection that has accepted `count` requests and
/// written nothing yet.
pub open spec fn writer_start(count: u64) -> WriterModel {
    WriterModel { next: 0, count, waiting: Map::<u64, PipelineSlot>::empty(), wire: Seq::<u8>::empty() }
}

/// The writer side after the slots of `arrivals` have come in, in that
/// order.
pub open spec fn model_run(m: WriterModel, arrivals: Seq<PipelineSlot>) -> WriterModel
    decreases arrivals.len(),
{
    if arrivals.len() == 0 {
        m
    } else {
        model_complete(model_run(m, arrivals.drop_last()), arrivals.last())
    }
}

/// The slot with sequence number `i` is among `arrivals`.
pub open spec fn arrived(arrivals: Seq<PipelineSlot>, i: int) -> bool {
    exists|j: int| 0 <= j < arrivals.len() && #[trigger] arrivals[j].sequence == i
}

/// `slots` are the requests of a connection in the order in which they
/// were accepted, and each of `arrivals` is one of them.
pub open spec fn arrivals_of(slots: Seq<PipelineSlot>, arrivals: Seq<PipelineSlot>) -> bool {
    &&& slots.len() <= u64::MAX
    &&& forall|i: int| 0 <= i < slots.len() ==> (#[trigger] slots[i]).sequence == i
    &&& forall|j: int|
        0 <= j < arrivals.len() ==> 0 <= (#[trigger] arrivals[j]).sequence < slots.len()
            && arrivals[j] == slots[arrivals[j].sequence as int]
}

spec fn in_step(slots: Seq<PipelineSlot>, p: Seq<PipelineSlot>, m: WriterModel) -> bool {
    &&& m.count == slots.len()
    &&& m.next <= slots.len()
    &&& forall|i: int| 0 <= i < m.next ==> arrived(p, i)
    &&& (m.next < slots.len() ==> !arrived(p, m.next as int))
    &&& forall|k: u64|
        #[trigger] m.waiting.contains_key(k) <==> (m.next < k < slots.len() && arrived(p, k as int))
    &&& forall|k: u64| #[trigger] m.waiting.contains_key(k) ==> m.waiting[k] == slots[k as int]
    &&& m.wire == wire_of(slots, m.next as nat)
}

proof fn lemma_arrived_push(p: Seq<PipelineSlot>, a: PipelineSlot, i: int)
    ensures
        arrived(p.push(a), i) <==> (arrived(p, i) || a.sequence == i),
{
    let q = p.push(a);
    if arrived(p, i) {
        let j = choose|j: int| 0 <= j < p.len() && #[trigger] p[j].sequence == i;
        assert(q[j].sequence == i);
    }
    if a.sequence == i {
        assert(q[p.len() as int].sequence == i);
    }
    if arrived(q, i) {
        let j = choose|j: int| 0 <= j < q.len() && #[trigger] q[j].sequence == i;
        if j < p.len() {
            assert(p[j].sequence == i);
        }
    }
}

proof fn lemma_wire_run(
    slots: Seq<PipelineSlot>,
    waiting: Map<u64, PipelineSlot>,
    from: int,
    run: nat,
)
    requires
        0 <= from,
        from + run <= slots.len() <= u64::MAX,
        forall|k: u64|
            from <= k < from + run ==> #[trigger] waiting.contains_key(k) && waiting[k]
                == slots[k as int],
    ensures
        wire_of(slots, from as nat) + backlog_wire(waiting, from, run) == wire_of(
            slots,
            (from + run) as nat,
        ),
    decreases run,
{
    if run == 0 {
        assert(wire_of(slots, from as nat) + backlog_wire(waiting, from, run) =~= wire_of(
            slots,
            from as nat,
        ));
    } else {
        lemma_wire_run(slots, waiting, from, (run - 1) as nat);
        let k = (from + run - 1) as u64;
        assert(waiting.contains_key(k));
        assert(wire_of(slots, from as nat) + backlog_wire(waiting, from, run) =~= wire_of(
            slots,
            (from + run) as nat,
        ));
    }
}

proof fn lemma_step(slots: Seq<PipelineSlot>, p: Seq<PipelineSlot>, m: WriterModel, a: PipelineSlot)
    requires
        arrivals_of(slots, p.push(a)),
        in_step(slots, p, m),
    ensures
        in_step(slots, p.push(a), model_complete(m, a)),
{
    let q = p.push(a);
    let after = model_complete(m, a);
    assert(q[p.len() as int] == a);
    assert(a == slots[a.sequence as int]);
    assert forall|i: int| arrived(q, i) <==> (arrived(p, i) || a.sequence == i) by {
        lemma_arrived_push(p, a, i);
    }
    if a.sequence < m.next {
    } else if a.sequence != m.next {
        assert forall|k: u64| #[trigger]
            after.waiting.contains_key(k) <==> (after.next < k < slots.len() && arrived(
                q,
                k as int,
            )) by {}
    } else {
        let from = m.next + 1;
        let run = run_length(m.waiting, from, m.count as int);
        lemma_run_length_holds(m.waiting, from, m.count as int);
        assert forall|k: u64| from <= k < from + run implies #[trigger] m.waiting.contains_key(k)
            && m.waiting[k] == slots[k as int] by {}
        lemma_wire_run(slots, m.waiting, from, run);
        assert(wire_of(slots, from as nat) == wire_of(slots, m.next as nat) + a.wire());
        assert(after.wire == wire_of(slots, m.next as nat) + a.wire() + backlog_wire(
            m.waiting,
            from,
            run,
        ));
        assert(after.wire =~= wire_of(slots, from as nat) + backlog_wire(m.waiting, from, run));
        assert(after.next == from + run);
        assert forall|i: int| 0 <= i < after.next implies arrived(q, i) by {
            if i > m.next {
                assert(m.waiting.contains_key(i as u64));
            }
        }
        if after.next < slots.len() {
            assert(!m.waiting.contains_key(after.next));
        }
        assert forall|k: u64| #[trigger]
            after.waiting.contains_key(k) <==> (after.next < k < slots.len() && arrived(
                q,
                k as int,
            )) by {
            if after.waiting.contains_key(k) {
                assert(m.waiting.contains_key(k));
            }
            if after.next < k < slots.len() && arrived(q, k as int) {
                assert(m.waiting.contains_key(k));
            }
        }
    }
}

proof fn lemma_run(slots: Seq<PipelineSlot>, arrivals: Seq<PipelineSlot>)
    requires
        arrivals_of(slots, arrivals),
    ensures
        in_step(slots, arrivals, model_run(writer_start(slots.len() as u64), arrivals)),
    decreases arrivals.len(),
{
    let start = writer_start(slots.len() as u64);
    if arrivals.len() == 0 {
        assert(start.wire =~= wire_of(slots, 0));
    } else {
        let p = arrivals.drop_last();
        assert(arrivals =~= p.push(arrivals.last()));
        assert(arrivals_of(slots, p)) by {
            assert forall|j: int| 0 <= j < p.len() implies 0 <= (#[trigger] p[j]).sequence
                < slots.len() && p[j] == slots[p[j].sequence as int] by {
                assert(p[j] == arrivals[j]);
            }
        }
        lemma_run(slots, p);
        lemma_step(slots, p, model_run(start, p), arrivals.last());
    }
}

/// Responses leave in the order of their requests.
///
/// Let `slots` be the requests of a connection in the order in which they
/// were accepted, each with its response, and let the handlers finish in
/// any order, any number of times each. Then the bytes written are, at every
/// moment, the responses of the first so many requests in request order,
/// and once every handler has finished they are the responses of all.
pub proof fn lemma_responses_in_request_order(
    slots: Seq<PipelineSlot>,
    arrivals: Seq<PipelineSlot>,
)
    requires
        arrivals_of(slots, arrivals),
    ensures
        ({
            let m = model_run(writer_start(slots.len() as u64), arrivals);
            &&& m.next <= slots.len()
            &&& m.wire == wire_of(slots, m.next as nat)
            &&& (forall|i: int| 0 <= i < slots.len() ==> arrived(arrivals, i)) ==> m.wire
                == wire_of(slots, slots.len())
        }),
{
    lemma_run(slots, arrivals);
    let m = model_run(writer_start(slots.len() as u64), arrivals);
    if forall|i: int| 0 <= i < slots.len() ==> arrived(arrivals, i) {
        if m.next < slots.len() {
            assert(arrived(arrivals, m.next as int));
        }
    }
}

} // verus!
