use vstd::prelude::*;
use crate::inst::{Instruction, MemoryPlace};
use crate::sim::vector_config::Configuration;

verus! {

/// A pending position change in the serial model: after
/// `remaining_cycles`, the owning instruction's completed-byte counter
/// jumps to `new_pos`.
#[derive(Clone, Copy, Debug, PartialEq, Eq, Structural)]
pub struct ChangeEvent {
    pub remaining_cycles: usize,
    pub new_pos: usize,
}

impl ChangeEvent {
    pub fn new(remaining_cycles: usize, new_pos: usize) -> (r: ChangeEvent)
        ensures
            r == (ChangeEvent { remaining_cycles, new_pos }),
    {
        ChangeEvent { remaining_cycles, new_pos }
    }
}

/// One instruction in the serial execution queue: per-source byte counters
/// that stream in under the forwarding width, an issue cursor, the pending
/// latency events, and the completed-byte counter of the destination.
/// `forwarding` names, per source, the queue entry it forwards from, by
/// that entry's issue number.
#[derive(Debug)]
pub struct ExecuteInst {
    pub inst: Instruction,
    pub forwarding: Vec<Option<usize>>,
    pub current_length: Vec<usize>,
    pub issue_pos: usize,
    pub event_queue: Vec<ChangeEvent>,
    pub target: usize,
    pub seq: usize,
}

/// The completed-byte counter of the first queue entry with issue number
/// `seq`, or `full` when none is left: a retired producer counts as done.
pub open spec fn spec_producer_progress(q: Seq<ExecuteInst>, seq: usize, full: usize) -> usize
    decreases q.len(),
{
    if q.len() == 0 {
        full
    } else if q[0].seq == seq {
        q[0].target
    } else {
        spec_producer_progress(q.subrange(1, q.len() as int), seq, full)
    }
}

/// The least per-source byte counter of an entry.
pub open spec fn spec_min_length(s: Seq<usize>) -> int
    decreases s.len(),
{
    if s.len() == 0 {
        0
    } else if s.len() == 1 {
        s[0] as int
    } else {
        let rest = spec_min_length(s.drop_last());
        if (s.last() as int) < rest {
            s.last() as int
        } else {
            rest
        }
    }
}

/// The nearest earlier queue entry whose destination is `source`, by issue
/// number; a memory source streams freely and forwards from nothing.
pub open spec fn spec_find_producer(q: Seq<ExecuteInst>, source: MemoryPlace) -> Option<usize>
    decreases q.len(),
{
    if source == MemoryPlace::Memory {
        None
    } else if q.len() == 0 {
        None
    } else if q.last().inst.destination.target == source {
        Some(q.last().seq)
    } else {
        spec_find_producer(q.drop_last(), source)
    }
}

/// Every pending event of an entry still has at least one more cycle to
/// wait after the current tick's ageing: true between the event phase and
/// the issue phase of one cycle.
pub open spec fn events_below(e: ExecuteInst) -> bool {
    forall|m: int|
        0 <= m < e.event_queue@.len() ==> (#[trigger] e.event_queue@[m]).remaining_cycles
            < e.inst.operation_cycle
}

/// How many leading entries of the queue have completed: their
/// destination counters have reached their goals.
pub open spec fn completed_prefix(q: Seq<ExecuteInst>) -> int
    decreases q.len(),
{
    if q.len() == 0 {
        0
    } else if q[0].target == q[0].inst.destination.target_bytes {
        1 + completed_prefix(q.subrange(1, q.len() as int))
    } else {
        0
    }
}

/// What one cycle may do to one surviving queue entry: every source
/// counter grows by at most the forwarding width and never past its
/// target, the issue cursor advances by at most one lane group, and the
/// event queue gains at most one event and loses at most the matured one.
pub open spec fn spec_entry_cycle_bounds(
    e0: ExecuteInst,
    e1: ExecuteInst,
    forwarding_bytes: usize,
    lane_number: usize,
    bytes_per_element: int,
) -> bool {
    &&& e1.current_length@.len() == e0.current_length@.len()
    &&& (forall|i: int|
        0 <= i < e0.current_length@.len() ==> e0.current_length@[i] <= (
        #[trigger] e1.current_length@[i]) && e1.current_length@[i] <= e0.current_length@[i]
            + forwarding_bytes)
    &&& e0.issue_pos <= e1.issue_pos
    &&& e1.issue_pos <= e0.issue_pos + lane_number * bytes_per_element
    &&& e1.event_queue@.len() <= e0.event_queue@.len() + 1
    &&& e0.event_queue@.len() <= e1.event_queue@.len() + 1
}

/// The forwarding phase touches only the source counters of an entry,
/// each by at most the forwarding width.
pub open spec fn spec_phase_forward_entry(e0: ExecuteInst, e1: ExecuteInst, fwd: usize) -> bool {
    &&& e1.inst == e0.inst
    &&& e1.forwarding == e0.forwarding
    &&& e1.issue_pos == e0.issue_pos
    &&& e1.event_queue == e0.event_queue
    &&& e1.target == e0.target
    &&& e1.seq == e0.seq
    &&& e1.current_length@.len() == e0.current_length@.len()
    &&& (forall|i: int|
        0 <= i < e0.current_length@.len() ==> e0.current_length@[i] <= (
        #[trigger] e1.current_length@[i]) && e1.current_length@[i] <= e0.current_length@[i] + fwd)
}

/// The event phase touches only an entry's event queue and its published
/// counter: every surviving event ages by exactly one cycle, at most the
/// matured front event leaves, and only its position is published.
pub open spec fn spec_phase_events_entry(e0: ExecuteInst, e1: ExecuteInst) -> bool {
    let popped = e0.event_queue@.len() - e1.event_queue@.len();
    &&& e1.inst == e0.inst
    &&& e1.forwarding == e0.forwarding
    &&& e1.issue_pos == e0.issue_pos
    &&& e1.current_length == e0.current_length
    &&& e1.seq == e0.seq
    &&& e1.event_queue@.len() <= e0.event_queue@.len()
    &&& e0.event_queue@.len() <= e1.event_queue@.len() + 1
    &&& (forall|m: int|
        0 <= m < e1.event_queue@.len() ==> (#[trigger] e1.event_queue@[m]) == (ChangeEvent {
            remaining_cycles: (e0.event_queue@[m + popped].remaining_cycles - 1) as usize,
            new_pos: e0.event_queue@[m + popped].new_pos,
        }))
    &&& (e1.target == e0.target || (popped == 1 && e1.target == e0.event_queue@[0].new_pos))
}

/// The issue phase touches only an entry's cursor (by at most one lane
/// group) and pushes at most one event.
pub open spec fn spec_phase_issue_entry(
    e0: ExecuteInst,
    e1: ExecuteInst,
    lane_number: usize,
    bytes_per_element: int,
) -> bool {
    &&& e1.inst == e0.inst
    &&& e1.forwarding == e0.forwarding
    &&& e1.current_length == e0.current_length
    &&& e1.target == e0.target
    &&& e1.seq == e0.seq
    &&& e0.issue_pos <= e1.issue_pos
    &&& e1.issue_pos <= e0.issue_pos + lane_number * bytes_per_element
    &&& e0.event_queue@.len() <= e1.event_queue@.len()
    &&& e1.event_queue@.len() <= e0.event_queue@.len() + 1
}

/// Two queue entries stand for the same issued instruction.
pub open spec fn spec_same_identity(a: ExecuteInst, b: ExecuteInst) -> bool {
    &&& a.seq == b.seq
    &&& a.inst.destination == b.inst.destination
    &&& a.inst.resource@ == b.inst.resource@
    &&& a.inst.operation_cycle == b.inst.operation_cycle
    &&& a.inst.raw == b.inst.raw
}

/// Well-formedness of one queue entry.
pub open spec fn inst_wf(e: ExecuteInst) -> bool {
    &&& e.forwarding@.len() == e.inst.resource@.len()
    &&& e.current_length@.len() == e.inst.resource@.len()
    &&& e.inst.resource@.len() >= 1
    &&& e.inst.operation_cycle >= 1
    &&& forall|i: int|
        0 <= i < e.current_length@.len() ==> (#[trigger] e.current_length@[i])
            <= e.inst.resource@[i].target_bytes
    &&& forall|i: int|
        0 <= i < e.event_queue@.len() ==> 1 <= (#[trigger] e.event_queue@[i]).remaining_cycles
            <= e.inst.operation_cycle
    &&& forall|i: int, j: int|
        0 <= i < j < e.event_queue@.len() ==> (#[trigger] e.event_queue@[i]).remaining_cycles < (
        #[trigger] e.event_queue@[j]).remaining_cycles
}

/// The serial execution engine: an in-order queue of instructions whose
/// sources stream in under a per-cycle forwarding width and whose results
/// complete after a fixed per-issue latency.
#[derive(Debug)]
pub struct Execute {
    pub execute_queue: Vec<ExecuteInst>,
    pub max_queue_size: usize,
    pub forwarding_bytes: usize,
    pub config: Configuration,
    pub next_seq: usize,
}

impl Execute {
    pub open spec fn wf(self) -> bool {
        &&& forall|k: int| 0 <= k < self.execute_queue@.len() ==> inst_wf(
            #[trigger] self.execute_queue@[k],
        )
        &&& forall|k: int|
            0 <= k < self.execute_queue@.len() ==> (#[trigger] self.execute_queue@[k]).seq
                < self.next_seq
        &&& forall|k: int, m: int|
            0 <= k < m < self.execute_queue@.len() ==> (#[trigger] self.execute_queue@[k]).seq < (
            #[trigger] self.execute_queue@[m]).seq
        &&& self.config.vector_config.sew as int / 8 >= 1
    }

    pub fn new(max_queue_size: usize, forwarding_bytes: usize, config: Configuration) -> (r:
        Execute)
        requires
            config.vector_config.sew as int / 8 >= 1,
        ensures
            r.wf(),
            r.execute_queue@.len() == 0,
            r.max_queue_size == max_queue_size,
            r.forwarding_bytes == forwarding_bytes,
            r.config == config,
            r.next_seq == 0,
    {
        Execute {
            execute_queue: Vec::new(),
            max_queue_size,
            forwarding_bytes,
            config,
            next_seq: 0,
        }
    }

    pub fn is_empty(&self) -> (r: bool)
        ensures
            r == (self.execute_queue@.len() == 0),
    {
        self.execute_queue.len() == 0
    }

    /// Append one instruction to the queue: each of its sources is tied to
    /// the nearest earlier entry producing it, if any; a full queue refuses.
    pub fn push(&mut self, inst: Instruction) -> (r: Result<(), &'static str>)
        requires
            old(self).wf(),
            inst.resource@.len() >= 1,
            inst.operation_cycle >= 1,
            old(self).next_seq < usize::MAX,
        ensures
            final(self).wf(),
            final(self).max_queue_size == old(self).max_queue_size,
            final(self).forwarding_bytes == old(self).forwarding_bytes,
            final(self).config == old(self).config,
            old(self).execute_queue@.len() >= old(self).max_queue_size ==> {
                &&& r is Err
                &&& final(self).execute_queue@ == old(self).execute_queue@
                &&& final(self).next_seq == old(self).next_seq
            },
            old(self).execute_queue@.len() < old(self).max_queue_size ==> {
                &&& r is Ok
                &&& final(self).next_seq == old(self).next_seq + 1
                &&& final(self).execute_queue@.len() == old(self).execute_queue@.len() + 1
                &&& (forall|k: int|
                    0 <= k < old(self).execute_queue@.len() ==> final(self).execute_queue@[k]
                        == old(self).execute_queue@[k])
                &&& ({
                    let e = final(self).execute_queue@.last();
                    &&& e.inst.destination == inst.destination
                    &&& e.inst.resource@ == inst.resource@
                    &&& e.inst.operation_cycle == inst.operation_cycle
                    &&& e.inst.raw == inst.raw
                    &&& e.seq == old(self).next_seq
                    &&& e.issue_pos == 0
                    &&& e.target == 0
                    &&& e.event_queue@.len() == 0
                    &&& e.forwarding@.len() == inst.resource@.len()
                    &&& (forall|i: int|
                        0 <= i < inst.resource@.len() ==> (#[trigger] e.forwarding@[i])
                            == spec_find_producer(
                            old(self).execute_queue@,
                            inst.resource@[i].source,
                        ))
                    &&& e.current_length@.len() == inst.resource@.len()
                    &&& (forall|i: int|
                        0 <= i < inst.resource@.len() ==> (#[trigger] e.current_length@[i]) == 0)
                })
            },
    {
        if self.execute_queue.len() >= self.max_queue_size {
            return Err("Execute queue is full");
        }
        let ghost q0 = self.execute_queue@;
        let mut forwarding: Vec<Option<usize>> = Vec::new();
        let mut current_length: Vec<usize> = Vec::new();
        let mut i: usize = 0;
        while i < inst.resource.len()
            invariant
                i <= inst.resource@.len(),
                self.execute_queue@ == q0,
                forwarding@.len() == i,
                current_length@.len() == i,
                forall|k: int|
                    0 <= k < i ==> (#[trigger] forwarding@[k]) == spec_find_producer(
                        q0,
                        inst.resource@[k].source,
                    ),
                forall|k: int| 0 <= k < i ==> (#[trigger] current_length@[k]) == 0,
            decreases inst.resource@.len() - i,
        {
            let source = inst.resource[i].source;
            let producer = self.find_producer(source);
            forwarding.push(producer);
            current_length.push(0);
            i = i + 1;
        }
        let seq = self.next_seq;
        self.next_seq = self.next_seq + 1;
        self.execute_queue.push(
            ExecuteInst {
                inst,
                forwarding,
                current_length,
                issue_pos: 0,
                event_queue: Vec::new(),
                target: 0,
                seq,
            },
        );
        Ok(())
    }

    /// Scan the queue from the newest entry for the nearest producer of
    /// `source`.
    fn find_producer(&self, source: MemoryPlace) -> (r: Option<usize>)
        ensures
            r == spec_find_producer(self.execute_queue@, source),
    {
        if matches!(source, MemoryPlace::Memory) {
            return None;
        }
        let ghost q = self.execute_queue@;
        proof {
            assert(q.subrange(0, q.len() as int) =~= q);
        }
        let mut k: usize = self.execute_queue.len();
        while k > 0
            invariant
                k <= q.len(),
                self.execute_queue@ == q,
                !(source is Memory),
                spec_find_producer(q, source) == spec_find_producer(
                    q.subrange(0, k as int),
                    source,
                ),
            decreases k,
        {
            proof {
                assert(q.subrange(0, k as int).last() == q[k - 1]);
                assert(q.subrange(0, k as int).drop_last() =~= q.subrange(0, k - 1));
            }
            k = k - 1;
            let e_dest = self.execute_queue[k].inst.destination.target;
            if e_dest == source {
                return Some(self.execute_queue[k].seq);
            }
        }
        proof {
            assert(q.subrange(0, 0) =~= Seq::<ExecuteInst>::empty());
        }
        None
    }

    /// The current completed-byte counter of the entry with issue number
    /// `seq`; an entry no longer in the queue has completed in full, so its
    /// consumer may stream freely up to its own target.
    fn producer_progress(&self, seq: usize, full: usize) -> (r: usize)
        ensures
            r == spec_producer_progress(self.execute_queue@, seq, full),
    {
        let ghost q = self.execute_queue@;
        proof {
            assert(q.subrange(0, q.len() as int) =~= q);
        }
        let mut k: usize = 0;
        while k < self.execute_queue.len()
            invariant
                self.execute_queue@ == q,
                k <= q.len(),
                spec_producer_progress(q, seq, full) == spec_producer_progress(
                    q.subrange(k as int, q.len() as int),
                    seq,
                    full,
                ),
            decreases self.execute_queue@.len() - k,
        {
            proof {
                assert(q.subrange(k as int, q.len() as int)[0] == q[k as int]);
                assert(q.subrange(k as int, q.len() as int).subrange(
                    1,
                    q.subrange(k as int, q.len() as int).len() as int,
                ) =~= q.subrange(k + 1, q.len() as int));
            }
            if self.execute_queue[k].seq == seq {
                return self.execute_queue[k].target;
            }
            k = k + 1;
        }
        proof {
            assert(q.subrange(q.len() as int, q.len() as int) =~= Seq::<ExecuteInst>::empty());
        }
        full
    }

    /// One cycle of in-order serial execution: completed leading entries
    /// retire; every source streams at most one forwarding-width chunk,
    /// a forwarded one only once its producer has moved ahead of it;
    /// latency events age one cycle and the matured one, if any, publishes
    /// its position; each entry issues at most one group of elements whose
    /// source bytes have all arrived.
    pub fn execute_serial(&mut self)
        requires
            old(self).wf(),
        ensures
            final(self).wf(),
            final(self).max_queue_size == old(self).max_queue_size,
            final(self).forwarding_bytes == old(self).forwarding_bytes,
            final(self).config == old(self).config,
            final(self).next_seq == old(self).next_seq,
            final(self).execute_queue@.len() == old(self).execute_queue@.len()
                - completed_prefix(old(self).execute_queue@),
            forall|k: int|
                0 <= k < final(self).execute_queue@.len() ==> spec_same_identity(
                    #[trigger] final(self).execute_queue@[k],
                    old(self).execute_queue@[k + completed_prefix(old(self).execute_queue@)],
                ),
            forall|k: int|
                0 <= k < final(self).execute_queue@.len() ==> spec_entry_cycle_bounds(
                    old(self).execute_queue@[k + completed_prefix(old(self).execute_queue@)],
                    #[trigger] final(self).execute_queue@[k],
                    old(self).forwarding_bytes,
                    old(self).config.hardware_config.lane_number,
                    old(self).config.vector_config.sew as int / 8,
                ),
    {
        let ghost orig = self.execute_queue@;
        let ghost mut dropped: int = 0;
        proof {
            assert(self.execute_queue@ =~= orig.subrange(0, orig.len() as int));
        }
        // Completed leading entries retire.
        loop
            invariant
                self.wf(),
                self.max_queue_size == old(self).max_queue_size,
                self.forwarding_bytes == old(self).forwarding_bytes,
                self.config == old(self).config,
                self.next_seq == old(self).next_seq,
                orig == old(self).execute_queue@,
                0 <= dropped <= orig.len(),
                self.execute_queue@ == orig.subrange(dropped, orig.len() as int),
                completed_prefix(orig) == dropped + completed_prefix(self.execute_queue@),
            ensures
                self.execute_queue@ == orig.subrange(dropped, orig.len() as int),
                completed_prefix(orig) == dropped,
                0 <= dropped <= orig.len(),
            decreases self.execute_queue@.len(),
        {
            if self.execute_queue.len() == 0 {
                proof {
                    assert(completed_prefix(self.execute_queue@) == 0);
                }
                break;
            }
            let head_target = self.execute_queue[0].target;
            let head_goal = self.execute_queue[0].inst.destination.target_bytes;
            if head_target != head_goal {
                proof {
                    assert(completed_prefix(self.execute_queue@) == 0);
                }
                break;
            }
            let ghost before = self.execute_queue@;
            let _ = self.execute_queue.remove(0);
            proof {
                assert(before[0].target == before[0].inst.destination.target_bytes);
                assert(completed_prefix(before) == 1 + completed_prefix(
                    before.subrange(1, before.len() as int),
                ));
                assert(self.execute_queue@ =~= before.subrange(1, before.len() as int));
                assert(self.execute_queue@ =~= orig.subrange(dropped + 1, orig.len() as int));
                dropped = dropped + 1;
            }
        }
        proof {
            assert(self.execute_queue@.len() == orig.len() - completed_prefix(orig));
            assert forall|k: int| 0 <= k < self.execute_queue@.len() implies spec_same_identity(
                #[trigger] self.execute_queue@[k],
                orig[k + completed_prefix(orig)],
            ) by {
                assert(self.execute_queue@[k] == orig.subrange(dropped, orig.len() as int)[k]);
            }
        }
        let ghost q1 = self.execute_queue@;
        proof {
            assert forall|k: int| 0 <= k < q1.len() implies spec_same_identity(
                #[trigger] q1[k],
                orig[k + completed_prefix(orig)],
            ) by {
                assert(spec_same_identity(
                    self.execute_queue@[k],
                    orig[k + completed_prefix(orig)],
                ));
            }
            assert(q1.len() == orig.len() - completed_prefix(orig));
        }
        // Forwarding: every source streams one chunk.
        let fwd = self.forwarding_bytes;
        let len = self.execute_queue.len();
        let mut a: usize = 0;
        while a < len
            invariant
                self.wf(),
                len == self.execute_queue@.len(),
                len == q1.len(),
                a <= len,
                forall|k: int|
                    0 <= k < len ==> spec_same_identity(#[trigger] self.execute_queue@[k], q1[k]),
                forall|k: int|
                    0 <= k < a ==> spec_phase_forward_entry(
                        q1[k],
                        #[trigger] self.execute_queue@[k],
                        fwd,
                    ),
                forall|k: int| a <= k < len ==> (#[trigger] self.execute_queue@[k]) == q1[k],
                fwd == old(self).forwarding_bytes,
                self.max_queue_size == old(self).max_queue_size,
                self.forwarding_bytes == old(self).forwarding_bytes,
                self.config == old(self).config,
                self.next_seq == old(self).next_seq,
                self.execute_queue@.len() <= old(self).execute_queue@.len(),
            decreases len - a,
        {
            let res_count = self.execute_queue[a].inst.resource.len();
            let mut i: usize = 0;
            while i < res_count
                invariant
                    self.wf(),
                    len == self.execute_queue@.len(),
                    len == q1.len(),
                    a < len,
                    i <= res_count,
                    res_count == self.execute_queue@[a as int].inst.resource@.len(),
                    forall|k: int|
                        0 <= k < len ==> spec_same_identity(
                            #[trigger] self.execute_queue@[k],
                            q1[k],
                        ),
                    forall|k: int|
                        0 <= k < a ==> spec_phase_forward_entry(
                            q1[k],
                            #[trigger] self.execute_queue@[k],
                            fwd,
                        ),
                    forall|k: int| a < k < len ==> (#[trigger] self.execute_queue@[k]) == q1[k],
                    ({
                        let ea = self.execute_queue@[a as int];
                        let e0 = q1[a as int];
                        &&& ea.inst == e0.inst
                        &&& ea.forwarding == e0.forwarding
                        &&& ea.issue_pos == e0.issue_pos
                        &&& ea.event_queue == e0.event_queue
                        &&& ea.target == e0.target
                        &&& ea.seq == e0.seq
                        &&& ea.current_length@.len() == e0.current_length@.len()
                        &&& (forall|i2: int|
                            0 <= i2 < i ==> e0.current_length@[i2] <= (
                            #[trigger] ea.current_length@[i2]) && ea.current_length@[i2]
                                <= e0.current_length@[i2] + fwd)
                        &&& (forall|i2: int|
                            i <= i2 < e0.current_length@.len() ==> (
                            #[trigger] ea.current_length@[i2]) == e0.current_length@[i2])
                    }),
                    fwd == old(self).forwarding_bytes,
                    self.max_queue_size == old(self).max_queue_size,
                    self.forwarding_bytes == old(self).forwarding_bytes,
                    self.config == old(self).config,
                    self.next_seq == old(self).next_seq,
                    self.execute_queue@.len() <= old(self).execute_queue@.len(),
                decreases res_count - i,
            {
                let target_bytes = self.execute_queue[a].inst.resource[i].target_bytes;
                let cur = self.execute_queue[a].current_length[i];
                let fsrc: Option<usize> = self.execute_queue[a].forwarding[i];
                let allowed = match fsrc {
                    Some(seq) => {
                        let progress = self.producer_progress(seq, target_bytes);
                        progress > cur
                    },
                    None => true,
                };
                if allowed {
                    let step = if fwd < target_bytes - cur {
                        fwd
                    } else {
                        target_bytes - cur
                    };
                    if step > 0 {
                        let ghost e0 = self.execute_queue@[a as int];
                        let e = &mut self.execute_queue[a];
                        e.current_length[i] = cur + step;
                        proof {
                            assert(inst_wf(self.execute_queue@[a as int]));
                            assert(spec_same_identity(self.execute_queue@[a as int], e0));
                        }
                    }
                }
                i = i + 1;
            }
            proof {
                assert(spec_phase_forward_entry(
                    q1[a as int],
                    self.execute_queue@[a as int],
                    fwd,
                ));
            }
            a = a + 1;
        }
        let ghost qp1 = self.execute_queue@;
        // Latency events age one cycle; the matured one publishes.
        let mut b: usize = 0;
        while b < len
            invariant
                self.wf(),
                len == self.execute_queue@.len(),
                len == q1.len(),
                len == qp1.len(),
                b <= len,
                forall|k: int| 0 <= k < b ==> events_below(#[trigger] self.execute_queue@[k]),
                forall|k: int|
                    0 <= k < len ==> spec_same_identity(#[trigger] self.execute_queue@[k], q1[k]),
                forall|k: int|
                    0 <= k < b ==> spec_phase_events_entry(
                        qp1[k],
                        #[trigger] self.execute_queue@[k],
                    ),
                forall|k: int| b <= k < len ==> (#[trigger] self.execute_queue@[k]) == qp1[k],
                self.max_queue_size == old(self).max_queue_size,
                self.forwarding_bytes == old(self).forwarding_bytes,
                self.config == old(self).config,
                self.next_seq == old(self).next_seq,
                self.execute_queue@.len() <= old(self).execute_queue@.len(),
            decreases len - b,
        {
            let ghost entry0 = self.execute_queue@[b as int];
            let ghost ev0 = entry0.event_queue@;
            proof {
                assert(inst_wf(entry0));
            }
            let ev_len = self.execute_queue[b].event_queue.len();
            let mut v: usize = 0;
            while v < ev_len
                invariant
                    len == self.execute_queue@.len(),
                    b < len,
                    v <= ev_len,
                    self.wf_except_events(b as int),
                    inst_wf(entry0),
                    ev0 == entry0.event_queue@,
                    ev_len == ev0.len(),
                    self.execute_queue@[b as int].event_queue@.len() == ev0.len(),
                    self.execute_queue@[b as int].inst == entry0.inst,
                    self.execute_queue@[b as int].forwarding == entry0.forwarding,
                    self.execute_queue@[b as int].current_length == entry0.current_length,
                    self.execute_queue@[b as int].issue_pos == entry0.issue_pos,
                    self.execute_queue@[b as int].target == entry0.target,
                    self.execute_queue@[b as int].seq == entry0.seq,
                    forall|m: int|
                        0 <= m < v ==> (
                        #[trigger] self.execute_queue@[b as int].event_queue@[m]) == (ChangeEvent {
                            remaining_cycles: (ev0[m].remaining_cycles - 1) as usize,
                            new_pos: ev0[m].new_pos,
                        }),
                    forall|m: int|
                        v <= m < ev0.len() ==> (
                        #[trigger] self.execute_queue@[b as int].event_queue@[m]) == ev0[m],
                    forall|k: int| 0 <= k < b ==> events_below(#[trigger] self.execute_queue@[k]),
                    len == q1.len(),
                    len == qp1.len(),
                    spec_same_identity(entry0, q1[b as int]),
                    entry0 == qp1[b as int],
                    forall|k: int|
                        0 <= k < len && k != b ==> spec_same_identity(
                            #[trigger] self.execute_queue@[k],
                            q1[k],
                        ),
                    forall|k: int|
                        0 <= k < b ==> spec_phase_events_entry(
                            qp1[k],
                            #[trigger] self.execute_queue@[k],
                        ),
                    forall|k: int| b < k < len ==> (#[trigger] self.execute_queue@[k]) == qp1[k],
                    self.max_queue_size == old(self).max_queue_size,
                    self.forwarding_bytes == old(self).forwarding_bytes,
                    self.config == old(self).config,
                    self.next_seq == old(self).next_seq,
                    self.execute_queue@.len() <= old(self).execute_queue@.len(),
                decreases ev_len - v,
            {
                let ev = self.execute_queue[b].event_queue[v];
                proof {
                    assert(ev == ev0[v as int]);
                    assert(ev0[v as int] == entry0.event_queue@[v as int]);
                    assert(1 <= entry0.event_queue@[v as int].remaining_cycles);
                }
                let e = &mut self.execute_queue[b];
                e.event_queue[v] = ChangeEvent {
                    remaining_cycles: ev.remaining_cycles - 1,
                    new_pos: ev.new_pos,
                };
                v = v + 1;
            }
            if self.execute_queue[b].event_queue.len() > 0 {
                let first = self.execute_queue[b].event_queue[0];
                if first.remaining_cycles == 0 {
                    let e = &mut self.execute_queue[b];
                    e.target = first.new_pos;
                    let _ = e.event_queue.remove(0);
                }
            }
            proof {
                assert(inst_wf(self.execute_queue@[b as int]));
                assert(events_below(self.execute_queue@[b as int]));
                assert(spec_same_identity(self.execute_queue@[b as int], q1[b as int]));
                assert(spec_phase_events_entry(qp1[b as int], self.execute_queue@[b as int]));
            }
            b = b + 1;
        }
        let ghost qp2 = self.execute_queue@;
        // Issue: one group of arrived elements per entry.
        let bpe = self.config.vector_config.bytes_per_element();
        let lanes = self.config.hardware_config.lane_number;
        let mut c: usize = 0;
        while c < len
            invariant
                self.wf(),
                len == self.execute_queue@.len(),
                len == q1.len(),
                len == qp2.len(),
                c <= len,
                bpe >= 1,
                bpe == self.config.vector_config.sew as int / 8,
                lanes == self.config.hardware_config.lane_number,
                forall|k: int| c <= k < len ==> events_below(#[trigger] self.execute_queue@[k]),
                forall|k: int|
                    0 <= k < len ==> spec_same_identity(#[trigger] self.execute_queue@[k], q1[k]),
                forall|k: int|
                    0 <= k < c ==> spec_phase_issue_entry(
                        qp2[k],
                        #[trigger] self.execute_queue@[k],
                        lanes,
                        bpe as int,
                    ),
                forall|k: int| c <= k < len ==> (#[trigger] self.execute_queue@[k]) == qp2[k],
                self.max_queue_size == old(self).max_queue_size,
                self.forwarding_bytes == old(self).forwarding_bytes,
                self.config == old(self).config,
                self.next_seq == old(self).next_seq,
                self.execute_queue@.len() <= old(self).execute_queue@.len(),
            decreases len - c,
        {
            let min_pos = self.min_current_length(c);
            let e_issue = self.execute_queue[c].issue_pos;
            if e_issue <= min_pos && min_pos - e_issue >= bpe {
                let gap = min_pos - e_issue;
                let mut element_issue = gap / bpe;
                if lanes < element_issue {
                    element_issue = lanes;
                }
                proof {
                    assert(element_issue * bpe <= gap) by (nonlinear_arith)
                        requires
                            bpe >= 1,
                            element_issue <= gap / bpe,
                            gap >= 0,
                    ;
                }
                let step_length = element_issue * bpe;
                let cycles = self.execute_queue[c].inst.operation_cycle;
                let new_pos = e_issue + step_length;
                let ghost e0 = self.execute_queue@[c as int];
                let e = &mut self.execute_queue[c];
                e.event_queue.push(ChangeEvent { remaining_cycles: cycles, new_pos });
                e.issue_pos = new_pos;
                proof {
                    assert(inst_wf(self.execute_queue@[c as int]));
                    assert(spec_same_identity(self.execute_queue@[c as int], e0));
                    assert(element_issue * bpe <= lanes * bpe) by (nonlinear_arith)
                        requires
                            element_issue <= lanes,
                            bpe >= 1,
                    ;
                    assert(spec_phase_issue_entry(
                        qp2[c as int],
                        self.execute_queue@[c as int],
                        lanes,
                        bpe as int,
                    ));
                }
            } else {
                proof {
                    assert(spec_phase_issue_entry(
                        qp2[c as int],
                        self.execute_queue@[c as int],
                        lanes,
                        bpe as int,
                    ));
                }
            }
            c = c + 1;
        }
        proof {
            assert forall|k: int| 0 <= k < self.execute_queue@.len() implies spec_same_identity(
                #[trigger] self.execute_queue@[k],
                old(self).execute_queue@[k + completed_prefix(old(self).execute_queue@)],
            ) by {
                assert(spec_same_identity(self.execute_queue@[k], q1[k]));
                assert(spec_same_identity(q1[k], orig[k + completed_prefix(orig)]));
            }
            assert forall|k: int|
                0 <= k < self.execute_queue@.len() implies spec_entry_cycle_bounds(
                old(self).execute_queue@[k + completed_prefix(old(self).execute_queue@)],
                #[trigger] self.execute_queue@[k],
                old(self).forwarding_bytes,
                old(self).config.hardware_config.lane_number,
                old(self).config.vector_config.sew as int / 8,
            ) by {
                assert(q1[k] == orig[k + completed_prefix(orig)]);
                assert(spec_phase_forward_entry(q1[k], qp1[k], fwd));
                assert(spec_phase_events_entry(qp1[k], qp2[k]));
                assert(spec_phase_issue_entry(qp2[k], self.execute_queue@[k], lanes, bpe as int));
            }
        }
    }

    /// Everything of `wf` except the event-queue clauses of entry `b`.
    pub open spec fn wf_except_events(self, b: int) -> bool {
        &&& forall|k: int|
            0 <= k < self.execute_queue@.len() && k != b ==> inst_wf(
                #[trigger] self.execute_queue@[k],
            )
        &&& forall|k: int|
            0 <= k < self.execute_queue@.len() ==> (#[trigger] self.execute_queue@[k]).seq
                < self.next_seq
        &&& forall|k: int, m: int|
            0 <= k < m < self.execute_queue@.len() ==> (#[trigger] self.execute_queue@[k]).seq < (
            #[trigger] self.execute_queue@[m]).seq
        &&& self.config.vector_config.sew as int / 8 >= 1
        &&& (0 <= b < self.execute_queue@.len() ==> {
            let e = self.execute_queue@[b];
            &&& e.forwarding@.len() == e.inst.resource@.len()
            &&& e.current_length@.len() == e.inst.resource@.len()
            &&& e.inst.resource@.len() >= 1
            &&& e.inst.operation_cycle >= 1
            &&& forall|i: int|
                0 <= i < e.current_length@.len() ==> (#[trigger] e.current_length@[i])
                    <= e.inst.resource@[i].target_bytes
        })
    }

    /// The least per-source byte counter of entry `c`.
    fn min_current_length(&self, c: usize) -> (r: usize)
        requires
            self.wf(),
            c < self.execute_queue@.len(),
        ensures
            r == spec_min_length(self.execute_queue@[c as int].current_length@),
    {
        let e_len = self.execute_queue[c].current_length.len();
        let ghost s = self.execute_queue@[c as int].current_length@;
        proof {
            assert(inst_wf(self.execute_queue@[c as int]));
        }
        let mut best = self.execute_queue[c].current_length[0];
        let mut i: usize = 1;
        while i < e_len
            invariant
                self.wf(),
                c < self.execute_queue@.len(),
                s == self.execute_queue@[c as int].current_length@,
                e_len == s.len(),
                1 <= i <= e_len,
                best == spec_min_length(s.subrange(0, i as int)),
            decreases e_len - i,
        {
            proof {
                assert(s.subrange(0, i + 1).drop_last() =~= s.subrange(0, i as int));
                assert(s.subrange(0, i + 1).last() == s[i as int]);
            }
            let v = self.execute_queue[c].current_length[i];
            if v < best {
                best = v;
            }
            i = i + 1;
        }
        proof {
            assert(s.subrange(0, s.len() as int) =~= s);
        }
        best
    }
}

} // verus!
