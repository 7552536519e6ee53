use vstd::prelude::*;
use crate::config::SimulatorConfig;
use crate::error::SimError;
use crate::inst::Inst;
use crate::inst::func::FuncInst;
use crate::sim::register::RegisterType;
use crate::sim::unit::buffer::{
    BufferEvent, BufferEventResult, BufferOwnerType, BufferPair, EnhancedResource, Resource,
    ResourceType, spec_min,
};
use crate::sim::unit::latency_calculator::{calc_func_cycle, lemma_func_cycle_pos, spec_func_cycle};

verus! {

/// The ten functional-unit keys of the core.
#[derive(Clone, Copy, Debug, PartialEq, Eq, Hash, Structural)]
pub enum FunctionUnitKeyType {
    VectorAlu,
    VectorMul,
    VectorDiv,
    VectorSlide,
    VectorMacc,
    FloatAlu,
    FloatMul,
    FloatDiv,
    IntegerAlu,
    IntergerDiv,
}

impl FunctionUnitKeyType {
    /// The keys served by a vector functional unit.
    pub open spec fn is_vector_key(self) -> bool {
        match self {
            FunctionUnitKeyType::VectorAlu
            | FunctionUnitKeyType::VectorMul
            | FunctionUnitKeyType::VectorDiv
            | FunctionUnitKeyType::VectorSlide
            | FunctionUnitKeyType::VectorMacc => true,
            _ => false,
        }
    }
}

/// A pending, bandwidth-delayed deposit of `result_bytes` into a unit's
/// result buffer, maturing when `remained_cycle` reaches zero.
#[derive(Clone, Copy, Debug, PartialEq, Eq, Structural)]
pub struct Event {
    pub remained_cycle: u32,
    pub target_register: RegisterType,
    pub result_bytes: u32,
}

/// The sum of the bytes carried by the events of a queue.
pub open spec fn queue_bytes(q: Seq<Event>) -> int
    decreases q.len(),
{
    if q.len() == 0 {
        0
    } else {
        queue_bytes(q.drop_last()) + q.last().result_bytes
    }
}

/// Event queues keep the newest event at index zero; remaining cycles
/// strictly decrease toward the tail, and no event is already mature.
pub open spec fn queue_cycles_wf(q: Seq<Event>) -> bool {
    &&& forall|i: int| 0 <= i < q.len() ==> (#[trigger] q[i]).remained_cycle >= 1
    &&& forall|i: int, j: int|
        0 <= i < j < q.len() ==> (#[trigger] q[i]).remained_cycle > (#[trigger] q[j]).remained_cycle
}

/// Every queued event carries at least one byte.
pub open spec fn queue_bytes_wf(q: Seq<Event>) -> bool {
    forall|i: int| 0 <= i < q.len() ==> (#[trigger] q[i]).result_bytes >= 1
}

/// One tick of a queue: every remaining-cycle counter drops by one.
pub open spec fn dec_queue(q: Seq<Event>) -> Seq<Event> {
    Seq::new(
        q.len(),
        |i: int|
            Event {
                remained_cycle: (q[i].remained_cycle - 1) as u32,
                target_register: q[i].target_register,
                result_bytes: q[i].result_bytes,
            },
    )
}

pub proof fn lemma_queue_bytes_nonneg(q: Seq<Event>)
    ensures
        queue_bytes(q) >= 0,
    decreases q.len(),
{
    if q.len() > 0 {
        lemma_queue_bytes_nonneg(q.drop_last());
    }
}

pub proof fn lemma_queue_bytes_insert0(q: Seq<Event>, e: Event)
    ensures
        queue_bytes(q.insert(0, e)) == queue_bytes(q) + e.result_bytes,
    decreases q.len(),
{
    let qi = q.insert(0, e);
    assert(qi.len() == q.len() + 1);
    if q.len() == 0 {
        assert(qi.drop_last() =~= Seq::<Event>::empty());
        assert(qi.last() == e);
        assert(queue_bytes(qi.drop_last()) == 0);
        assert(queue_bytes(q) == 0);
        assert(queue_bytes(qi) == queue_bytes(qi.drop_last()) + qi.last().result_bytes);
    } else {
        assert(qi.drop_last() =~= q.drop_last().insert(0, e));
        assert(qi.last() == qi[q.len() as int]);
        assert(qi[q.len() as int] == q[q.len() - 1]);
        lemma_queue_bytes_insert0(q.drop_last(), e);
        assert(queue_bytes(qi) == queue_bytes(qi.drop_last()) + qi.last().result_bytes);
        assert(queue_bytes(q) == queue_bytes(q.drop_last()) + q.last().result_bytes);
    }
}

pub proof fn lemma_queue_bytes_dec(q: Seq<Event>)
    ensures
        queue_bytes(dec_queue(q)) == queue_bytes(q),
    decreases q.len(),
{
    if q.len() > 0 {
        assert(dec_queue(q).drop_last() =~= dec_queue(q.drop_last()));
        lemma_queue_bytes_dec(q.drop_last());
    }
}

/// A queue of events each carrying at least one byte sums to zero only when
/// it is empty.
pub proof fn lemma_queue_bytes_pos(q: Seq<Event>)
    requires
        queue_bytes_wf(q),
        q.len() > 0,
    ensures
        queue_bytes(q) >= 1,
    decreases q.len(),
{
    lemma_queue_bytes_nonneg(q.drop_last());
}

/// One tick of a common unit's queue: every event ages by one cycle and
/// the matured tail event, if any, leaves.
pub open spec fn common_tick_queue(q: Seq<Event>) -> Seq<Event> {
    if q.len() == 0 {
        q
    } else if q.last().remained_cycle == 1 {
        dec_queue(q).drop_last()
    } else {
        dec_queue(q)
    }
}

/// What a common unit's tick reports: the write-back of the matured tail
/// event, if any.
pub open spec fn common_tick_result(q: Seq<Event>) -> CommonEventResult {
    if q.len() > 0 && q.last().remained_cycle == 1 {
        CommonEventResult::WriteResultTo(q.last().target_register)
    } else {
        CommonEventResult::Nothing
    }
}

/// The queue after `k` ticks of a common unit.
pub open spec fn common_after_ticks(q: Seq<Event>, k: nat) -> Seq<Event>
    decreases k,
{
    if k == 0 {
        q
    } else {
        common_tick_queue(common_after_ticks(q, (k - 1) as nat))
    }
}

/// Latency exactness of the common units: the single latency event a
/// common instruction enters the queue with at issue produces its
/// write-back on the tick exactly `remained_cycle` ticks later, and on no
/// earlier tick.  Together with `CommonFunctionUnit::issue`, which creates
/// the event with exactly the configured latency, a common instruction
/// issued in isolation retires exactly its latency after the issuing
/// cycle.
pub proof fn lemma_common_latency_exact(e: Event, k: nat)
    requires
        e.remained_cycle >= 1,
        k < e.remained_cycle,
    ensures
        common_after_ticks(seq![e], k) =~= seq![
            Event { remained_cycle: (e.remained_cycle - k) as u32, ..e },
        ],
        common_tick_result(common_after_ticks(seq![e], k)) == (if k + 1 == e.remained_cycle {
            CommonEventResult::WriteResultTo(e.target_register)
        } else {
            CommonEventResult::Nothing
        }),
    decreases k,
{
    if k == 0 {
        assert(common_after_ticks(seq![e], 0) == seq![e]);
    } else {
        lemma_common_latency_exact(e, (k - 1) as nat);
        let prev = common_after_ticks(seq![e], (k - 1) as nat);
        let ep = Event { remained_cycle: (e.remained_cycle - (k - 1)) as u32, ..e };
        assert(prev =~= seq![ep]);
        assert(ep.remained_cycle >= 2);
        assert(common_tick_queue(prev) =~= dec_queue(prev));
        assert(dec_queue(prev) =~= seq![
            Event { remained_cycle: (e.remained_cycle - k) as u32, ..e },
        ]);
    }
}

/// Dispatch-count exactness of the vector units, first half: with its
/// inputs always full, a generator that has made `k` events has dispatched
/// `min(total, k * bytes_per_event)` bytes.
pub open spec fn full_input_processed(total: int, bpe: int, k: nat) -> int
    decreases k,
{
    if k == 0 {
        0
    } else {
        let p = full_input_processed(total, bpe, (k - 1) as nat);
        p + spec_min(bpe, total - p)
    }
}

pub proof fn lemma_full_input_processed(total: int, bpe: int, k: nat)
    requires
        total >= 0,
        bpe >= 1,
    ensures
        full_input_processed(total, bpe, k) == spec_min(total, k * bpe),
    decreases k,
{
    if k == 0 {
        assert(k * bpe == 0) by (nonlinear_arith)
            requires
                k == 0,
        ;
    } else {
        lemma_full_input_processed(total, bpe, (k - 1) as nat);
        assert((k - 1) * bpe + bpe == k * bpe) by (nonlinear_arith);
        assert((k - 1) * bpe >= 0) by (nonlinear_arith)
            requires
                k >= 1,
                bpe >= 1,
        ;
    }
}

/// Dispatch-count exactness of the vector units, second half: with its
/// inputs always full, a generator of `total` bytes in chunks of
/// `bytes_per_event` is done after `k` events exactly when `k` reaches the
/// chunk count rounded up — so, at one event per cycle and a final event
/// maturing `latency - 1` cycles after the last dispatch cycle, the
/// instruction retires no sooner than `ceil(total / bytes_per_event) +
/// latency - 1` cycles after issue, and exactly that when the inputs are
/// already full.
pub proof fn lemma_full_input_completion(total: int, bpe: int, k: nat)
    requires
        total >= 1,
        bpe >= 1,
    ensures
        (full_input_processed(total, bpe, k) == total) <==> k >= (total + bpe - 1) / bpe,
{
    lemma_full_input_processed(total, bpe, k);
    let c = (total + bpe - 1) / bpe;
    assert(c * bpe >= total && (c - 1) * bpe < total) by (nonlinear_arith)
        requires
            total >= 1,
            bpe >= 1,
            c == (total + bpe - 1) / bpe,
    ;
    if k >= c {
        assert(k * bpe >= c * bpe) by (nonlinear_arith)
            requires
                k >= c,
                bpe >= 1,
        ;
    }
    if full_input_processed(total, bpe, k) == total {
        assert(k * bpe >= total);
        if k < c {
            assert(k <= c - 1);
            assert(k * bpe <= (c - 1) * bpe) by (nonlinear_arith)
                requires
                    k <= c - 1,
                    bpe >= 1,
            ;
        }
    }
}

/// The bridge from the generator's contract to the abstract dispatch
/// sequence: while its inputs are full, each event the generator makes
/// carries exactly `min(bytes_per_event, total - processed)` bytes — the
/// step `full_input_processed` takes.
pub proof fn lemma_generator_full_input_step(g: EventGenerator, current_bytes: int)
    requires
        current_bytes == g.total_bytes,
        g.processed_bytes < g.total_bytes,
    ensures
        g.spec_next_bytes(current_bytes) == spec_min(
            g.bytes_per_event as int,
            g.total_bytes - g.processed_bytes,
        ),
{
}

/// Whether a vector unit's generator dispatches an event this tick, given
/// the bytes its slowest input has received.
pub open spec fn vector_gen_makes(g: EventGenerator, avail: int) -> bool {
    g.processed_bytes < g.total_bytes && g.spec_next_bytes(avail) > 0
}

/// The event it dispatches then.
pub open spec fn vector_gen_event(g: EventGenerator, avail: int) -> Event {
    Event {
        remained_cycle: g.cycle_per_event,
        target_register: g.func_inst.destination,
        result_bytes: g.spec_next_bytes(avail) as u32,
    }
}

/// The generator after the tick.
pub open spec fn vector_tick_gen(g: EventGenerator, avail: int) -> EventGenerator {
    if vector_gen_makes(g, avail) {
        EventGenerator {
            processed_bytes: (g.processed_bytes + g.spec_next_bytes(avail)) as u32,
            ..g
        }
    } else {
        g
    }
}

/// The event queue after dispatch and ageing, before the matured tail
/// event leaves.
pub open spec fn vector_tick_queue_aged(g: EventGenerator, q: Seq<Event>, avail: int) -> Seq<
    Event,
> {
    dec_queue(
        if vector_gen_makes(g, avail) {
            q.insert(0, vector_gen_event(g, avail))
        } else {
            q
        },
    )
}

/// The bytes the tick deposits into the result: those of the matured tail
/// event, if any.  At most one event matures per tick, since remaining
/// cycles strictly decrease toward the tail.
pub open spec fn vector_tick_deposit(g: EventGenerator, q: Seq<Event>, avail: int) -> int {
    let aged = vector_tick_queue_aged(g, q, avail);
    if aged.len() > 0 && aged.last().remained_cycle == 0 {
        aged.last().result_bytes as int
    } else {
        0
    }
}

/// The event queue after the full tick.
pub open spec fn vector_tick_queue(g: EventGenerator, q: Seq<Event>, avail: int) -> Seq<Event> {
    let aged = vector_tick_queue_aged(g, q, avail);
    if aged.len() > 0 && aged.last().remained_cycle == 0 {
        aged.drop_last()
    } else {
        aged
    }
}

/// One tick of a common unit, as a relation.
pub open spec fn spec_common_unit_ticked(u0: CommonFunctionUnit, u1: CommonFunctionUnit) -> bool {
    &&& u1.wf()
    &&& u1.unit_type == u0.unit_type
    &&& u1.event_queue@ == common_tick_queue(u0.event_queue@)
    &&& (u0.event_queue@.len() == 0 ==> u1 == u0)
    &&& (u1.occupied <==> u1.event_queue@.len() > 0)
    &&& (u1.event_queue@.len() > 0 ==> u1.current_inst == u0.current_inst)
}

/// One tick of a vector unit, as a relation.
pub open spec fn spec_vector_unit_ticked(u0: VectorFunctionUnit, u1: VectorFunctionUnit) -> bool {
    &&& u1.wf()
    &&& u1.unit_type == u0.unit_type
    &&& u1.bytes_per_event == u0.bytes_per_event
    &&& u1.handle_pc == u0.handle_pc
    &&& u1.current_inst == u0.current_inst
    &&& (u0.current_event is None ==> u1 == u0)
    &&& (u1.current_event is None ==> !u1.occupied)
    &&& (u0.current_event matches Some(g) ==> {
        let avail = crate::sim::unit::buffer::spec_current_input_bytes(
            u0.buffer_pair.input_buffer.resource@,
        );
        let q0 = u0.event_queue@;
        let d0 = u0.buffer_pair.result_buffer.destination->0;
        let g1 = vector_tick_gen(g, avail);
        let d1 = d0.spec_after_append(vector_tick_deposit(g, q0, avail));
        let freed = g1.processed_bytes >= g1.total_bytes && d1.consumed_bytes == d1.target_size;
        &&& u1.event_queue@ == vector_tick_queue(g, q0, avail)
        &&& u1.buffer_pair.result_buffer == (crate::sim::unit::buffer::ResultBuffer {
            destination: Some(d1),
            handle_pc: u0.buffer_pair.result_buffer.handle_pc,
        })
        &&& u1.occupied == !freed
        &&& u1.current_event == (if freed {
            Option::<EventGenerator>::None
        } else {
            Some(g1)
        })
        &&& (if freed {
            u1.buffer_pair.input_buffer.resource@.len() == 0
                && u1.buffer_pair.current_instruction is None
        } else {
            u1.buffer_pair.input_buffer == u0.buffer_pair.input_buffer
                && u1.buffer_pair.current_instruction == u0.buffer_pair.current_instruction
        })
    })
}

/// Decrement every event's remaining cycles by one.
fn decrement_events(q: &mut Vec<Event>)
    requires
        forall|i: int| 0 <= i < old(q)@.len() ==> (#[trigger] old(q)@[i]).remained_cycle >= 1,
    ensures
        final(q)@ == dec_queue(old(q)@),
{
    let ghost orig = q@;
    let mut i: usize = 0;
    while i < q.len()
        invariant
            q@.len() == orig.len(),
            i <= orig.len(),
            forall|k: int| 0 <= k < orig.len() ==> (#[trigger] orig[k]).remained_cycle >= 1,
            forall|k: int| 0 <= k < i ==> q@[k] == dec_queue(orig)[k],
            forall|k: int| i <= k < orig.len() ==> q@[k] == orig[k],
        decreases orig.len() - i,
    {
        let e = q[i];
        proof {
            assert(e == orig[i as int]);
        }
        q[i] = Event {
            remained_cycle: e.remained_cycle - 1,
            target_register: e.target_register,
            result_bytes: e.result_bytes,
        };
        i = i + 1;
    }
    proof {
        assert(q@ =~= dec_queue(orig));
    }
}

/// Generates the per-cycle events of one vector instruction: up to
/// `bytes_per_event` bytes per cycle, never past the bytes its inputs have
/// received, until `total_bytes` have been dispatched.
#[derive(Debug, PartialEq, Eq)]
pub struct EventGenerator {
    pub func_inst: FuncInst,
    pub cycle_per_event: u32,
    pub bytes_per_event: u32,
    pub total_bytes: u32,
    pub processed_bytes: u32,
}

impl EventGenerator {
    pub fn new(func_inst: FuncInst, cycle_per_event: u32, bytes_per_event: u32, total_bytes: u32)
        -> (r: EventGenerator)
        ensures
            r.func_inst == func_inst,
            r.cycle_per_event == cycle_per_event,
            r.bytes_per_event == bytes_per_event,
            r.total_bytes == total_bytes,
            r.processed_bytes == 0,
    {
        EventGenerator { func_inst, cycle_per_event, bytes_per_event, total_bytes, processed_bytes: 0 }
    }

    /// Input bytes not yet dispatched as events.
    pub open spec fn spec_avail(self, current_bytes: int) -> int {
        if current_bytes >= self.processed_bytes {
            current_bytes - self.processed_bytes
        } else {
            0
        }
    }

    /// The size of the next event: one lane-wide chunk, capped by the bytes
    /// left to dispatch and by the input bytes available.
    pub open spec fn spec_next_bytes(self, current_bytes: int) -> int {
        spec_min(
            spec_min(self.bytes_per_event as int, self.total_bytes - self.processed_bytes),
            self.spec_avail(current_bytes),
        )
    }

    /// Produce at most one event for this cycle, given that the slowest
    /// input has received `current_bytes` bytes so far.
    pub fn generate_next_event(&mut self, current_bytes: u32) -> (r: Option<Event>)
        requires
            old(self).processed_bytes <= old(self).total_bytes,
        ensures
            old(self).processed_bytes >= old(self).total_bytes ==> r is None && *final(self)
                == *old(self),
            old(self).processed_bytes < old(self).total_bytes ==> {
                if old(self).spec_next_bytes(current_bytes as int) == 0 {
                    r is None && *final(self) == *old(self)
                } else {
                    &&& r == Some(
                        Event {
                            remained_cycle: old(self).cycle_per_event,
                            target_register: old(self).func_inst.destination,
                            result_bytes: old(self).spec_next_bytes(current_bytes as int) as u32,
                        },
                    )
                    &&& *final(self) == (EventGenerator {
                        processed_bytes: (old(self).processed_bytes + old(self).spec_next_bytes(
                            current_bytes as int,
                        )) as u32,
                        ..*old(self)
                    })
                }
            },
    {
        if self.processed_bytes >= self.total_bytes {
            return None;
        }
        let remaining = self.total_bytes - self.processed_bytes;
        let avail = if current_bytes >= self.processed_bytes {
            current_bytes - self.processed_bytes
        } else {
            0
        };
        let mut bytes_this_event = if self.bytes_per_event < remaining {
            self.bytes_per_event
        } else {
            remaining
        };
        if avail < bytes_this_event {
            bytes_this_event = avail;
        }
        if bytes_this_event == 0 {
            return None;
        }
        let event = Event {
            remained_cycle: self.cycle_per_event,
            target_register: self.func_inst.destination,
            result_bytes: bytes_this_event,
        };
        self.processed_bytes = self.processed_bytes + bytes_this_event;
        Some(event)
    }

    /// Complete iff every target byte has been dispatched as an event.
    pub fn is_complete(&self) -> (r: bool)
        ensures
            r == (self.processed_bytes >= self.total_bytes),
    {
        self.processed_bytes >= self.total_bytes
    }
}

/// What accepting `inst` does to a common unit: one latency event enters
/// the queue at the newest end, carrying the instruction's bytes.
pub open spec fn spec_common_issued(
    u0: CommonFunctionUnit,
    u1: CommonFunctionUnit,
    inst: FuncInst,
    config: SimulatorConfig,
) -> bool {
    &&& u1.wf()
    &&& u1.unit_type == u0.unit_type
    &&& u1.occupied
    &&& u1.current_inst matches Some(i) && i.matches_spec(inst)
    &&& u1.event_queue@ == u0.event_queue@.insert(
        0,
        Event {
            remained_cycle: spec_func_cycle(inst.func_unit_key, inst.is_float_op, config) as u32,
            target_register: inst.destination,
            result_bytes: inst.spec_total_bytes(config) as u32,
        },
    )
}

/// What accepting `inst` does to a vector unit: a fresh generator for the
/// instruction's bytes, one input resource per source, and the destination
/// register as the empty result.
pub open spec fn spec_vector_issued(
    u0: VectorFunctionUnit,
    u1: VectorFunctionUnit,
    inst: FuncInst,
    pc: usize,
    config: SimulatorConfig,
) -> bool {
    &&& u1.wf()
    &&& u1.occupied
    &&& u1.unit_type == u0.unit_type
    &&& u1.bytes_per_event == u0.bytes_per_event
    &&& u1.handle_pc == Some(pc)
    &&& u1.event_queue@.len() == 0
    &&& u1.current_event matches Some(g) && {
        &&& g.processed_bytes == 0
        &&& g.total_bytes == inst.spec_total_bytes(config)
        &&& g.cycle_per_event == spec_func_cycle(inst.func_unit_key, inst.is_float_op, config)
        &&& g.bytes_per_event == u0.bytes_per_event
        &&& g.func_inst.matches_spec(inst)
    }
    &&& u1.buffer_pair.input_buffer.resource@.len() == inst.resource@.len()
    &&& (forall|i: int|
        0 <= i < inst.resource@.len() ==> (#[trigger] u1.buffer_pair.input_buffer.resource@[i])
            == (Resource {
            resource_type: ResourceType::Register(inst.resource@[i]),
            target_size: inst.resource@[i].spec_get_bytes(config) as u32,
            current_size: 0u32,
        }))
    &&& u1.buffer_pair.result_buffer.destination == Some(
        EnhancedResource {
            resource_type: ResourceType::Register(inst.destination),
            target_size: inst.destination.spec_get_bytes(config) as u32,
            current_size: 0u32,
            consumed_bytes: 0u32,
        },
    )
    &&& u1.buffer_pair.result_buffer.handle_pc == Some(pc)
    &&& u1.buffer_pair.current_instruction matches Some(rec) && rec.matches_spec(
        crate::inst::Inst::Func(inst),
    )
}

/// The unit issue relations carry over to an instruction with equal
/// fields.
pub proof fn lemma_unit_issued_congruent(
    c0: CommonFunctionUnit,
    c1: CommonFunctionUnit,
    v0: VectorFunctionUnit,
    v1: VectorFunctionUnit,
    a: FuncInst,
    b: FuncInst,
    pc: usize,
    config: SimulatorConfig,
)
    requires
        a.matches_spec(b),
    ensures
        spec_common_issued(c0, c1, a, config) ==> spec_common_issued(c0, c1, b, config),
        spec_vector_issued(v0, v1, a, pc, config) ==> spec_vector_issued(v0, v1, b, pc, config),
{
    assert(a.resource@ == b.resource@);
    if a.spec_is_vector() {
        let i = choose|i: int|
            0 <= i < a.resource@.len() && a.resource@[i] is VectorRegister;
        assert(b.resource@[i] is VectorRegister);
    }
    if b.spec_is_vector() {
        let i = choose|i: int|
            0 <= i < b.resource@.len() && b.resource@[i] is VectorRegister;
        assert(a.resource@[i] is VectorRegister);
    }
    if spec_vector_issued(v0, v1, a, pc, config) {
        assert forall|i: int|
            0 <= i < b.resource@.len() implies (
            #[trigger] v1.buffer_pair.input_buffer.resource@[i]) == (Resource {
                resource_type: ResourceType::Register(b.resource@[i]),
                target_size: b.resource@[i].spec_get_bytes(config) as u32,
                current_size: 0u32,
            }) by {
            assert(v1.buffer_pair.input_buffer.resource@[i] == (Resource {
                resource_type: ResourceType::Register(a.resource@[i]),
                target_size: a.resource@[i].spec_get_bytes(config) as u32,
                current_size: 0u32,
            }));
        }
    }
}

/// What a common unit reports after a tick: nothing, or one retired write.
#[derive(Clone, Copy, Debug, PartialEq, Eq, Structural)]
pub enum CommonEventResult {
    Nothing,
    WriteResultTo(RegisterType),
}

/// A scalar or float functional unit: no buffers, a queue of latency
/// events.  The event of an instruction is created at issue, so that the
/// instruction retires exactly its latency after the issuing cycle.
#[derive(Debug, PartialEq, Eq)]
pub struct CommonFunctionUnit {
    pub occupied: bool,
    pub event_queue: Vec<Event>,
    pub unit_type: FunctionUnitKeyType,
    pub current_inst: Option<FuncInst>,
}

impl CommonFunctionUnit {
    pub open spec fn wf(self) -> bool {
        &&& queue_cycles_wf(self.event_queue@)
        &&& (self.occupied <==> self.event_queue@.len() > 0)
        &&& (self.event_queue@.len() == 0 ==> self.current_inst is None)
    }

    pub fn new(unit_type: FunctionUnitKeyType) -> (r: CommonFunctionUnit)
        ensures
            r.wf(),
            r.unit_type == unit_type,
            !r.occupied,
            r.event_queue@.len() == 0,
            r.current_inst is None,
    {
        CommonFunctionUnit { occupied: false, event_queue: Vec::new(), unit_type, current_inst: None }
    }

    /// Accept one instruction: its single latency event enters the queue
    /// now, carrying all of the instruction's bytes.
    pub fn issue(&mut self, func_inst: FuncInst, _pc: usize, config: &SimulatorConfig) -> (r:
        Result<(), SimError>)
        requires
            old(self).wf(),
            config.wf(),
            func_inst.func_unit_key == old(self).unit_type,
            old(self).event_queue@.len() == 0 || old(self).event_queue@[0].remained_cycle
                < spec_func_cycle(func_inst.func_unit_key, func_inst.is_float_op, *config),
        ensures
            final(self).wf(),
            r is Ok,
            final(self).unit_type == old(self).unit_type,
            final(self).occupied,
            final(self).current_inst matches Some(i) && i.matches_spec(func_inst),
            final(self).event_queue@ == old(self).event_queue@.insert(
                0,
                Event {
                    remained_cycle: spec_func_cycle(
                        func_inst.func_unit_key,
                        func_inst.is_float_op,
                        *config,
                    ) as u32,
                    target_register: func_inst.destination,
                    result_bytes: func_inst.spec_total_bytes(*config) as u32,
                },
            ),
            spec_common_issued(*old(self), *final(self), func_inst, *config),
    {
        let latency = calc_func_cycle(&func_inst, config);
        proof {
            lemma_func_cycle_pos(func_inst.func_unit_key, func_inst.is_float_op, *config);
        }
        let result_bytes = func_inst.total_process_bytes(config);
        let event = Event {
            remained_cycle: latency,
            target_register: func_inst.destination,
            result_bytes,
        };
        self.event_queue.insert(0, event);
        self.occupied = true;
        self.current_inst = Some(func_inst);
        Ok(())
    }

    pub fn is_empty(&self) -> (r: bool)
        ensures
            r == !self.occupied,
    {
        !self.occupied
    }

    pub fn free_unit(&mut self)
        ensures
            *final(self) == (CommonFunctionUnit {
                occupied: false,
                current_inst: None,
                ..*old(self)
            }),
    {
        self.occupied = false;
        self.current_inst = None;
    }

    /// One tick: every event ages by one cycle; the matured tail event, if
    /// any, retires and its destination register is reported for write-back.
    pub fn handle_event(&mut self) -> (r: CommonEventResult)
        requires
            old(self).wf(),
        ensures
            final(self).wf(),
            final(self).unit_type == old(self).unit_type,
            final(self).event_queue@ == common_tick_queue(old(self).event_queue@),
            r == common_tick_result(old(self).event_queue@),
            spec_common_unit_ticked(*old(self), *final(self)),
            old(self).event_queue@.len() == 0 ==> *final(self) == *old(self) && r
                == CommonEventResult::Nothing,
            old(self).event_queue@.len() > 0 ==> {
                &&& (if old(self).event_queue@.last().remained_cycle == 1 {
                    &&& final(self).event_queue@ == dec_queue(old(self).event_queue@).drop_last()
                    &&& r == CommonEventResult::WriteResultTo(
                        old(self).event_queue@.last().target_register,
                    )
                } else {
                    &&& final(self).event_queue@ == dec_queue(old(self).event_queue@)
                    &&& r == CommonEventResult::Nothing
                })
                &&& (final(self).occupied <==> final(self).event_queue@.len() > 0)
                &&& (final(self).event_queue@.len() > 0 ==> final(self).current_inst == old(
                    self,
                ).current_inst)
            },
    {
        if self.event_queue.len() == 0 {
            return CommonEventResult::Nothing;
        }
        decrement_events(&mut self.event_queue);
        let len = self.event_queue.len();
        let last = self.event_queue[len - 1];
        let result: CommonEventResult;
        if last.remained_cycle == 0 {
            let _ = self.event_queue.pop();
            result = CommonEventResult::WriteResultTo(last.target_register);
        } else {
            result = CommonEventResult::Nothing;
        }
        if self.event_queue.len() == 0 {
            self.occupied = false;
            self.current_inst = None;
        } else {
            self.occupied = true;
        }
        result
    }
}

/// A vector functional unit: an input/result buffer pair, an event
/// generator that dispatches one lane-wide chunk per cycle, and the queue of
/// in-flight latency events.
#[derive(Debug, PartialEq, Eq)]
pub struct VectorFunctionUnit {
    pub occupied: bool,
    pub event_queue: Vec<Event>,
    pub current_event: Option<EventGenerator>,
    pub bytes_per_event: u32,
    pub buffer_pair: BufferPair,
    pub unit_type: FunctionUnitKeyType,
    pub handle_pc: Option<usize>,
    pub current_inst: Option<FuncInst>,
}

impl VectorFunctionUnit {
    /// Well-formedness, including byte conservation: while an instruction is
    /// in flight, the bytes its generator has dispatched equal the bytes
    /// still in the event queue plus the bytes already deposited into the
    /// result destination (drained or not).
    pub open spec fn wf(self) -> bool {
        &&& self.buffer_pair.wf()
        &&& match self.current_event {
            Some(g) => {
                &&& self.occupied
                &&& g.cycle_per_event >= 1
                &&& g.processed_bytes <= g.total_bytes
                &&& self.buffer_pair.result_buffer.destination matches Some(d) && {
                    &&& d.target_size == g.total_bytes
                    &&& g.processed_bytes == queue_bytes(self.event_queue@) + d.current_size
                        + d.consumed_bytes
                }
                &&& queue_cycles_wf(self.event_queue@)
                &&& (self.event_queue@.len() > 0 ==> self.event_queue@[0].remained_cycle
                    <= g.cycle_per_event - 1)
                &&& queue_bytes_wf(self.event_queue@)
            },
            None => self.event_queue@.len() == 0 && !self.occupied,
        }
    }

    /// Bytes deposited into the result destination over the lifetime of the
    /// instruction in flight, drained or not.
    pub open spec fn spec_deposited(self) -> int {
        match self.buffer_pair.result_buffer.destination {
            Some(d) => d.current_size + d.consumed_bytes,
            None => 0,
        }
    }

    pub fn new(bytes_per_event: u32, unit_type: FunctionUnitKeyType) -> (r: VectorFunctionUnit)
        ensures
            r.wf(),
            r.unit_type == unit_type,
            r.bytes_per_event == bytes_per_event,
            !r.occupied,
            r.current_event is None,
            r.event_queue@.len() == 0,
            r.buffer_pair.owner == BufferOwnerType::FunctionUnit(unit_type),
            r.buffer_pair.result_buffer.destination is None,
    {
        VectorFunctionUnit {
            occupied: false,
            event_queue: Vec::new(),
            current_event: None,
            bytes_per_event,
            buffer_pair: BufferPair::new_with_owner(BufferOwnerType::FunctionUnit(unit_type)),
            unit_type,
            handle_pc: None,
            current_inst: None,
        }
    }

    /// Route a register-generated buffer event into this unit's buffers.
    /// A producer event feeds an input resource; a consumer event drains the
    /// result destination.  Byte conservation is untouched either way.
    pub fn handle_buffer_event(&mut self, event: BufferEvent) -> (r: Result<
        BufferEventResult,
        SimError,
    >)
        requires
            old(self).wf(),
        ensures
            final(self).wf(),
            final(self).occupied == old(self).occupied,
            final(self).current_event == old(self).current_event,
            final(self).event_queue@ == old(self).event_queue@,
            final(self).unit_type == old(self).unit_type,
            final(self).bytes_per_event == old(self).bytes_per_event,
            match event {
                BufferEvent::Producer(p) => {
                    &&& final(self).buffer_pair.result_buffer == old(self).buffer_pair.result_buffer
                    &&& p.resource_index < old(self).buffer_pair.input_buffer.resource@.len() ==> {
                        &&& final(self).buffer_pair.input_buffer.resource@ == old(
                            self,
                        ).buffer_pair.input_buffer.spec_after_producer(p)
                        &&& r == Ok::<BufferEventResult, SimError>(BufferEventResult::Producer(
                            crate::sim::unit::buffer::ProducerEventResult {
                                resource_index: p.resource_index,
                                accepted_length: old(self).buffer_pair.input_buffer.spec_accepted(
                                    p,
                                ) as u32,
                                remaining_bytes: (p.append_length - old(
                                    self,
                                ).buffer_pair.input_buffer.spec_accepted(p)) as u32,
                            },
                        ))
                    }
                    &&& p.resource_index >= old(self).buffer_pair.input_buffer.resource@.len()
                        ==> r == Err::<BufferEventResult, SimError>(SimError::IndexOutOfRange)
                            && *final(self) == *old(self)
                },
                BufferEvent::Consumer(c) => {
                    &&& final(self).buffer_pair.input_buffer == old(self).buffer_pair.input_buffer
                    &&& match old(self).buffer_pair.result_buffer.destination {
                        Some(d) => {
                            &&& final(self).buffer_pair.result_buffer.destination == Some(
                                d.spec_after_consume(c.maximum_consume_length as int),
                            )
                            &&& r == Ok::<BufferEventResult, SimError>(BufferEventResult::Consumer(
                                crate::sim::unit::buffer::ConsumerEventResult {
                                    consumed_bytes: d.spec_consumed(
                                        c.maximum_consume_length as int,
                                    ) as u32,
                                    remaining_bytes: (d.current_size - d.spec_consumed(
                                        c.maximum_consume_length as int,
                                    )) as u32,
                                },
                            ))
                        },
                        None => r == Err::<BufferEventResult, SimError>(SimError::NoDestination)
                            && *final(self) == *old(self),
                    }
                },
            },
    {
        self.buffer_pair.handle_buffer_event(event)
    }

    pub fn is_empty(&self) -> (r: bool)
        ensures
            r == !self.occupied,
    {
        !self.occupied
    }

    /// One tick, exactly: at most one new event enters the queue, bounded
    /// by the slowest input; every event ages one cycle; the matured tail
    /// event, if any, deposits its bytes into the result destination; the
    /// unit is freed once the generator is done and the destination fully
    /// drained.
    #[verifier::rlimit(100)]
    #[verifier::spinoff_prover]
    pub fn handle_event(&mut self) -> (r: Result<(), SimError>)
        requires
            old(self).wf(),
        ensures
            final(self).wf(),
            r is Ok,
            final(self).unit_type == old(self).unit_type,
            final(self).bytes_per_event == old(self).bytes_per_event,
            final(self).handle_pc == old(self).handle_pc,
            final(self).current_inst == old(self).current_inst,
            old(self).current_event is None ==> *final(self) == *old(self),
            final(self).current_event is None ==> final(self).occupied == false,
            old(self).current_event matches Some(g) ==> {
                let avail = crate::sim::unit::buffer::spec_current_input_bytes(
                    old(self).buffer_pair.input_buffer.resource@,
                );
                let q0 = old(self).event_queue@;
                let d0 = old(self).buffer_pair.result_buffer.destination->0;
                let g1 = vector_tick_gen(g, avail);
                let d1 = d0.spec_after_append(vector_tick_deposit(g, q0, avail));
                let freed = g1.processed_bytes >= g1.total_bytes && d1.consumed_bytes
                    == d1.target_size;
                &&& final(self).event_queue@ == vector_tick_queue(g, q0, avail)
                &&& final(self).buffer_pair.result_buffer == (
                crate::sim::unit::buffer::ResultBuffer {
                    destination: Some(d1),
                    handle_pc: old(self).buffer_pair.result_buffer.handle_pc,
                })
                &&& final(self).occupied == !freed
                &&& final(self).current_event == (if freed {
                    Option::<EventGenerator>::None
                } else {
                    Some(g1)
                })
                &&& (if freed {
                    final(self).buffer_pair.input_buffer.resource@.len() == 0
                        && final(self).buffer_pair.current_instruction is None
                } else {
                    final(self).buffer_pair.input_buffer == old(self).buffer_pair.input_buffer
                        && final(self).buffer_pair.current_instruction == old(
                        self,
                    ).buffer_pair.current_instruction
                })
            },
            r is Ok ==> spec_vector_unit_ticked(*old(self), *final(self)),
    {
        if self.current_event.is_none() {
            return Ok(());
        }
        // Step 1: at most one new event, bounded by the slowest input.
        let avail = match self.buffer_pair.get_current_input_bytes() {
            Ok(v) => v,
            Err(e) => { return Err(e); },
        };
        let ghost pre = *self;
        match &mut self.current_event {
            Some(gen) => {
                if !(gen.processed_bytes >= gen.total_bytes) {
                    let ev = gen.generate_next_event(avail);
                    match ev {
                        Some(e) => {
                            proof {
                                lemma_queue_bytes_insert0(pre.event_queue@, e);
                            }
                            self.event_queue.insert(0, e);
                        },
                        None => {},
                    }
                }
            },
            None => {},
        }
        // Step 2: every event ages one cycle.
        proof {
            lemma_queue_bytes_dec(self.event_queue@);
        }
        decrement_events(&mut self.event_queue);
        // Step 3: the matured tail event, if any, deposits its bytes.
        // Remaining cycles strictly decrease toward the tail, so at most
        // one event can have matured.
        let qlen = self.event_queue.len();
        if qlen > 0 {
            let last = self.event_queue[qlen - 1];
            if last.remained_cycle == 0 {
                let _ = self.event_queue.pop();
                proof {
                    lemma_queue_bytes_nonneg(self.event_queue@);
                }
                let res = self.buffer_pair.increase_result(last.result_bytes);
                proof {
                    assert(res is Ok);
                }
            }
        }
        proof {
            let q = self.event_queue@;
            assert forall|i: int| 0 <= i < q.len() implies (#[trigger] q[i]).remained_cycle
                >= 1 by {
                if i < q.len() - 1 {
                    assert(q[i].remained_cycle > q[q.len() - 1].remained_cycle);
                }
            }
        }
        // Step 4: free the unit once everything is dispatched and drained.
        let mut should_free = false;
        match &self.current_event {
            Some(gen) => {
                if gen.processed_bytes >= gen.total_bytes {
                    if self.buffer_pair.is_result_completed() {
                        should_free = true;
                    }
                }
            },
            None => {},
        }
        if should_free {
            proof {
                if self.event_queue@.len() > 0 {
                    lemma_queue_bytes_pos(self.event_queue@);
                }
            }
            self.occupied = false;
            self.current_event = None;
            self.buffer_pair.clear();
        }
        Ok(())
    }

    /// Accept one instruction: the generator and both buffers are set up for
    /// its sources and destination.
    pub fn issue(&mut self, func_inst: FuncInst, pc: usize, config: &SimulatorConfig) -> (r:
        Result<(), SimError>)
        requires
            old(self).wf(),
            config.wf(),
            !old(self).occupied,
            func_inst.spec_total_bytes(*config) == func_inst.destination.spec_get_bytes(*config),
        ensures
            final(self).wf(),
            r is Ok,
            final(self).occupied,
            final(self).unit_type == old(self).unit_type,
            final(self).bytes_per_event == old(self).bytes_per_event,
            final(self).handle_pc == Some(pc),
            final(self).event_queue@.len() == 0,
            final(self).current_event matches Some(g) && {
                &&& g.processed_bytes == 0
                &&& g.total_bytes == func_inst.spec_total_bytes(*config)
                &&& g.cycle_per_event == spec_func_cycle(
                    func_inst.func_unit_key,
                    func_inst.is_float_op,
                    *config,
                )
                &&& g.bytes_per_event == old(self).bytes_per_event
                &&& g.func_inst.matches_spec(func_inst)
            },
            final(self).buffer_pair.input_buffer.resource@.len() == func_inst.resource@.len(),
            forall|i: int|
                0 <= i < func_inst.resource@.len() ==> final(self).buffer_pair.input_buffer.resource@[i]
                    == (Resource {
                    resource_type: ResourceType::Register(func_inst.resource@[i]),
                    target_size: func_inst.resource@[i].spec_get_bytes(*config) as u32,
                    current_size: 0u32,
                }),
            final(self).buffer_pair.result_buffer.destination == Some(
                EnhancedResource {
                    resource_type: ResourceType::Register(func_inst.destination),
                    target_size: func_inst.destination.spec_get_bytes(*config) as u32,
                    current_size: 0u32,
                    consumed_bytes: 0u32,
                },
            ),
            spec_vector_issued(*old(self), *final(self), func_inst, pc, *config),
    {
        proof {
            lemma_func_cycle_pos(func_inst.func_unit_key, func_inst.is_float_op, *config);
        }
        self.occupied = true;
        let total_bytes = func_inst.total_process_bytes(config);
        let latency = calc_func_cycle(&func_inst, config);
        let mut input: Vec<Resource> = Vec::new();
        let mut i: usize = 0;
        while i < func_inst.resource.len()
            invariant
                i <= func_inst.resource@.len(),
                config.wf(),
                input@.len() == i,
                forall|k: int|
                    0 <= k < i ==> input@[k] == (Resource {
                        resource_type: ResourceType::Register(func_inst.resource@[k]),
                        target_size: func_inst.resource@[k].spec_get_bytes(*config) as u32,
                        current_size: 0u32,
                    }),
            decreases func_inst.resource@.len() - i,
        {
            let reg = func_inst.resource[i];
            input.push(Resource::new(ResourceType::Register(reg), reg.get_bytes(config)));
            i = i + 1;
        }
        let result = self.buffer_pair.set_input(input);
        proof {
            assert(result is Ok);
        }
        self.handle_pc = Some(pc);
        let destination_bytes = func_inst.destination.get_bytes(config);
        self.buffer_pair.set_output(
            EnhancedResource::new(
                ResourceType::Register(func_inst.destination),
                destination_bytes,
            ),
            pc,
        );
        self.buffer_pair.set_current_instruction(Inst::Func(func_inst.clone()));
        self.current_inst = Some(func_inst.clone());
        self.current_event = Some(
            EventGenerator::new(func_inst, latency, self.bytes_per_event, total_bytes),
        );
        Ok(())
    }

    /// The unit takes a new instruction only when it is idle: not occupied,
    /// no queued events, no active generator.
    pub fn can_accept_new_instruction(&self) -> (r: bool)
        ensures
            r == (!self.occupied && self.event_queue@.len() == 0 && self.current_event is None),
    {
        if self.occupied {
            return false;
        }
        if self.event_queue.len() != 0 {
            return false;
        }
        if self.current_event.is_some() {
            return false;
        }
        true
    }
}

/// Byte conservation, stated on its own: while an instruction is in flight
/// in a vector unit, the bytes its generator has dispatched equal the bytes
/// still waiting in the event queue plus the bytes deposited into the
/// result buffer over the instruction's lifetime.
pub proof fn lemma_byte_conservation(u: VectorFunctionUnit)
    requires
        u.wf(),
        u.current_event is Some,
    ensures
        u.current_event->0.processed_bytes == queue_bytes(u.event_queue@) + u.spec_deposited(),
{
}

} // verus!
