use vstd::prelude::*;
use crate::config::SimulatorConfig;
use crate::error::SimError;
use crate::inst::Inst;
use crate::sim::fetch::Fetch;
use crate::sim::register::{
    RegisterFile, RegisterIdType, RegisterType, lemma_funcinst_congruent,
    lemma_markers_only_cleared_trans, lemma_port_limit_enforcement, lemma_rf_issued_congruent,
    occ_vector, spec_markers_only_cleared, spec_rf_common_issued, spec_rf_mem_issued,
    spec_rf_vector_issued,
};
use crate::sim::register::task::spec_result_delta;
use crate::sim::unit::UnitKeyType;
use crate::sim::unit::buffer::{BufferEvent, BufferEventResult};
use crate::sim::unit::function_unit::{
    CommonEventResult, CommonFunctionUnit, Event, FunctionUnitKeyType, VectorFunctionUnit,
    lemma_unit_issued_congruent, spec_common_issued, spec_common_unit_ticked, spec_vector_issued,
    spec_vector_unit_ticked,
};
use crate::sim::unit::latency_calculator::spec_func_cycle;
use crate::sim::unit::memory_unit::{
    LoadStoreUnit, spec_lsu_autoconsumed, spec_lsu_autofilled, spec_lsu_issued, spec_lsu_retired,
    spec_lsu_ticked,
};

pub mod fetch;
pub mod register;
pub mod unit;
pub mod vector_config;

verus! {

/// A routed buffer event never reports more transported bytes than it
/// asked to move.
pub open spec fn spec_result_matches_event(event: BufferEvent, res: BufferEventResult) -> bool {
    match (event, res) {
        (BufferEvent::Producer(p), BufferEventResult::Producer(pr)) => pr.accepted_length
            <= p.append_length,
        (BufferEvent::Consumer(c), BufferEventResult::Consumer(cr)) => cr.consumed_bytes
            <= c.maximum_consume_length,
        _ => false,
    }
}

/// Every event queued in a common unit targets an in-range scalar or float
/// register, so its write-back can always clear a marker.
pub open spec fn common_queue_targets_ok(q: Seq<Event>) -> bool {
    forall|i: int|
        0 <= i < q.len() ==> !((#[trigger] q[i]).target_register is VectorRegister)
            && q[i].target_register.spec_id_ok()
}

/// A common unit in its place: well-formed, keyed correctly, its queued
/// write-backs routable, and no queued event older than its unit latency.
pub open spec fn common_unit_ok(
    u: CommonFunctionUnit,
    key: FunctionUnitKeyType,
    config: SimulatorConfig,
) -> bool {
    &&& u.wf()
    &&& u.unit_type == key
    &&& common_queue_targets_ok(u.event_queue@)
    &&& (u.event_queue@.len() > 0 ==> u.event_queue@[0].remained_cycle <= spec_func_cycle(
        key,
        false,
        config,
    ))
}

/// A vector unit in its place: well-formed, keyed correctly, with the
/// configured lane width.
pub open spec fn vector_unit_ok(
    u: VectorFunctionUnit,
    key: FunctionUnitKeyType,
    config: SimulatorConfig,
) -> bool {
    &&& u.wf()
    &&& u.unit_type == key
    &&& u.bytes_per_event == config.vector_config.spec_data_length()
}

/// Every vector register's port counters stand clear of the machine
/// limit, so that recording one more instruction cannot wrap them.
pub open spec fn spec_counts_headroom(rf: RegisterFile) -> bool {
    forall|k: int|
        0 <= k < 32 ==> (#[trigger] rf.vector_registers@[k]).read_count <= u32::MAX - 64
            && rf.vector_registers@[k].write_count <= u32::MAX - 64
}

/// A vector unit takes a new instruction only when idle.
pub open spec fn spec_vector_unit_accepts(u: VectorFunctionUnit) -> bool {
    &&& !u.occupied
    &&& u.event_queue@.len() == 0
    &&& u.current_event is None
}

/// The load/store unit has a port that accepts an access of `dir`.
pub open spec fn spec_lsu_accepts(l: LoadStoreUnit, dir: crate::inst::mem::Direction) -> bool {
    exists|i: int|
        0 <= i < (match dir {
            crate::inst::mem::Direction::Read => l.read_port_used@.len(),
            crate::inst::mem::Direction::Write => l.write_port_used@.len(),
        }) && l.spec_port_accepts(dir, i)
}

fn counts_have_headroom(rf: &RegisterFile) -> (r: bool)
    requires
        rf.wf(),
    ensures
        r == spec_counts_headroom(*rf),
{
    let mut k: usize = 0;
    while k < 32
        invariant
            rf.wf(),
            k <= 32,
            forall|m: int|
                0 <= m < k ==> (#[trigger] rf.vector_registers@[m]).read_count <= u32::MAX - 64
                    && rf.vector_registers@[m].write_count <= u32::MAX - 64,
        decreases 32 - k,
    {
        let reg = &rf.vector_registers[k];
        if reg.read_count > u32::MAX - 64 || reg.write_count > u32::MAX - 64 {
            return false;
        }
        k = k + 1;
    }
    true
}

/// Age one common unit's queue by a cycle and clear the marker of the
/// matured write-back, if any.
fn tick_one_common_unit(
    u: &mut CommonFunctionUnit,
    rf: &mut RegisterFile,
    config: &SimulatorConfig,
)
    requires
        common_unit_ok(*old(u), old(u).unit_type, *config),
        old(rf).wf(),
    ensures
        common_unit_ok(*final(u), old(u).unit_type, *config),
        final(u).unit_type == old(u).unit_type,
        final(u).event_queue@.len() > 0 ==> final(u).event_queue@[0].remained_cycle
            < spec_func_cycle(old(u).unit_type, false, *config),
        final(rf).wf(),
        final(rf).vector_registers@ == old(rf).vector_registers@,
        spec_common_unit_ticked(*old(u), *final(u)),
        spec_markers_only_cleared(*old(rf), *final(rf)),
{
    let ghost q0 = u.event_queue@;
    let res = u.handle_event();
    proof {
        let dq = crate::sim::unit::function_unit::dec_queue(q0);
        let q1 = u.event_queue@;
        if q0.len() > 0 {
            assert(dq.len() == q0.len());
            assert forall|i: int|
                0 <= i < dq.len() implies !((#[trigger] dq[i]).target_register is VectorRegister)
                    && dq[i].target_register.spec_id_ok() by {
                assert(dq[i].target_register == q0[i].target_register);
            }
            assert forall|i: int|
                0 <= i < q1.len() implies !((#[trigger] q1[i]).target_register is VectorRegister)
                    && q1[i].target_register.spec_id_ok() by {
                assert(q1[i] == dq[i]);
            }
        }
    }
    match res {
        CommonEventResult::Nothing => {
            proof {
                assert(spec_markers_only_cleared(*rf, *rf));
            }
        },
        CommonEventResult::WriteResultTo(reg) => {
            proof {
                assert(reg == q0.last().target_register);
            }
            rf.clean_write(&reg);
        },
    }
}

/// Phase 1.2 of a tick, as a relation: memory auto-refill touches only
/// the read ports' memory inputs.
pub open spec fn spec_phase_autofill_rel(s0: Simulator, s1: Simulator) -> bool {
    &&& s1.wf()
    &&& s1.config == s0.config
    &&& s1.fetch_unit == s0.fetch_unit
    &&& s1.register_file == s0.register_file
    &&& spec_common_units_unchanged(s0, s1)
    &&& spec_vector_units_unchanged(s0, s1)
    &&& spec_lsu_autofilled(s0.memory_unit, s1.memory_unit)
}

/// Phase 1.3 of a tick, as a relation: the external sink drains the write
/// ports' memory-destined results.
pub open spec fn spec_phase_autoconsume_rel(s0: Simulator, s1: Simulator) -> bool {
    &&& s1.wf()
    &&& s1.config == s0.config
    &&& s1.fetch_unit == s0.fetch_unit
    &&& s1.register_file == s0.register_file
    &&& spec_common_units_unchanged(s0, s1)
    &&& spec_vector_units_unchanged(s0, s1)
    &&& spec_lsu_autoconsumed(s0.memory_unit, s1.memory_unit)
}

/// Phase 1.4 of a tick, as a relation: completed scalar/float loads drain
/// their destinations and clear write markers; markers are only ever
/// cleared here, never set.
pub open spec fn spec_phase_retire_rel(s0: Simulator, s1: Simulator) -> bool {
    &&& s1.wf()
    &&& s1.config == s0.config
    &&& s1.fetch_unit == s0.fetch_unit
    &&& spec_common_units_unchanged(s0, s1)
    &&& spec_vector_units_unchanged(s0, s1)
    &&& (exists|regs: Seq<RegisterType>|
        #[trigger] spec_lsu_retired(s0.memory_unit, s1.memory_unit, regs))
    &&& spec_markers_only_cleared(s0.register_file, s1.register_file)
}

/// Phase two of a tick, as a relation: every unit's queue advances exactly
/// one cycle, matured common write-backs may clear markers, and afterwards
/// no common event stands at its full latency.
pub open spec fn spec_phase_units_rel(s0: Simulator, s1: Simulator) -> bool {
    &&& s1.wf()
    &&& s1.config == s0.config
    &&& s1.fetch_unit == s0.fetch_unit
    &&& spec_common_unit_ticked(s0.integer_alu, s1.integer_alu)
    &&& spec_common_unit_ticked(s0.integer_div, s1.integer_div)
    &&& spec_common_unit_ticked(s0.float_alu, s1.float_alu)
    &&& spec_common_unit_ticked(s0.float_mul, s1.float_mul)
    &&& spec_common_unit_ticked(s0.float_div, s1.float_div)
    &&& spec_vector_unit_ticked(s0.vector_alu, s1.vector_alu)
    &&& spec_vector_unit_ticked(s0.vector_mul, s1.vector_mul)
    &&& spec_vector_unit_ticked(s0.vector_div, s1.vector_div)
    &&& spec_vector_unit_ticked(s0.vector_slide, s1.vector_slide)
    &&& spec_vector_unit_ticked(s0.vector_macc, s1.vector_macc)
    &&& spec_lsu_ticked(s0.memory_unit, s1.memory_unit)
    &&& spec_markers_only_cleared(s0.register_file, s1.register_file)
    &&& s1.common_fronts_strict()
}

/// One full tick of the machine: the six phases of the fixed order,
/// chained through intermediate states, ending in one issue attempt.
pub open spec fn spec_tick_rel(s0: Simulator, s1: Simulator) -> bool {
    exists|m1: Simulator, m2: Simulator, m3: Simulator, m4: Simulator, m5: Simulator|
        #![trigger Simulator::spec_phase_registers_rel(s0, m1), spec_phase_autofill_rel(m1, m2), spec_phase_autoconsume_rel(m2, m3), spec_phase_retire_rel(m3, m4), spec_phase_units_rel(m4, m5)]
        {
            &&& Simulator::spec_phase_registers_rel(s0, m1)
            &&& spec_phase_autofill_rel(m1, m2)
            &&& spec_phase_autoconsume_rel(m2, m3)
            &&& spec_phase_retire_rel(m3, m4)
            &&& spec_phase_units_rel(m4, m5)
            &&& spec_issue_step(m5, s1, Ok(()))
        }
}

/// `n` ticks of the machine, each started from a non-quiescent state: the
/// loop's whole run, as a relation.
pub open spec fn spec_run_rel(s0: Simulator, s1: Simulator, n: int) -> bool
    decreases n,
{
    if n <= 0 {
        s1 == s0
    } else {
        exists|mid: Simulator|
            {
                &&& spec_run_rel(s0, mid, n - 1)
                &&& !mid.spec_quiescent()
                &&& #[trigger] spec_tick_rel(mid, s1)
            }
    }
}

/// An instruction sequence whose issues keep the vector port counters
/// within the configured limits: every functional instruction names a
/// vector register at most once among its sources, and no memory access
/// moves a vector data register — the memory issue check deliberately does
/// not consult the port limits, and a repeated source takes two ports
/// behind a single check.
pub open spec fn spec_insts_port_disciplined(insts: Seq<Inst>) -> bool {
    forall|p: int|
        0 <= p < insts.len() ==> match #[trigger] insts[p] {
            Inst::Func(f) => forall|id: RegisterIdType| id < 32 ==> occ_vector(f.resource@, id) <= 1,
            Inst::Mem(m) => !(m.reg is VectorRegister),
        }
}

/// Every vector register's port counters are within the configured limits.
pub open spec fn spec_ports_within_limits(rf: RegisterFile, rl: u32, wl: u32) -> bool {
    forall|k: int|
        0 <= k < 32 ==> (#[trigger] rf.vector_registers@[k]).read_count <= rl
            && rf.vector_registers@[k].write_count <= wl
}

/// Port-limit enforcement across one whole tick: under a port-disciplined
/// instruction sequence, a tick never pushes any register's counters past
/// the limits — the walk only retires ports, the buffer phases do not
/// touch them, and the issue step is guarded by the issue check.
pub proof fn lemma_tick_preserves_port_limits(s0: Simulator, s1: Simulator)
    requires
        spec_tick_rel(s0, s1),
        spec_insts_port_disciplined(s0.fetch_unit.inst_memory@),
        spec_ports_within_limits(
            s0.register_file,
            s0.config.vector_register.ports.read_ports_limit,
            s0.config.vector_register.ports.write_ports_limit,
        ),
    ensures
        spec_ports_within_limits(
            s1.register_file,
            s0.config.vector_register.ports.read_ports_limit,
            s0.config.vector_register.ports.write_ports_limit,
        ),
        s1.config == s0.config,
        s1.fetch_unit.inst_memory@ == s0.fetch_unit.inst_memory@,
{
    let rl = s0.config.vector_register.ports.read_ports_limit;
    let wl = s0.config.vector_register.ports.write_ports_limit;
    let (m1, m2, m3, m4, m5): (Simulator, Simulator, Simulator, Simulator, Simulator) = choose|
        m1: Simulator,
        m2: Simulator,
        m3: Simulator,
        m4: Simulator,
        m5: Simulator,
    |
        #![trigger Simulator::spec_phase_registers_rel(s0, m1), spec_phase_autofill_rel(m1, m2), spec_phase_autoconsume_rel(m2, m3), spec_phase_retire_rel(m3, m4), spec_phase_units_rel(m4, m5)]
        {
            &&& Simulator::spec_phase_registers_rel(s0, m1)
            &&& spec_phase_autofill_rel(m1, m2)
            &&& spec_phase_autoconsume_rel(m2, m3)
            &&& spec_phase_retire_rel(m3, m4)
            &&& spec_phase_units_rel(m4, m5)
            &&& spec_issue_step(m5, s1, Ok(()))
        };
    assert(spec_ports_within_limits(m1.register_file, rl, wl)) by {
        assert forall|k: int|
            0 <= k < 32 implies (#[trigger] m1.register_file.vector_registers@[k]).read_count <= rl
                && m1.register_file.vector_registers@[k].write_count <= wl by {
            assert(spec_register_walked(
                s0.register_file.vector_registers@[k],
                m1.register_file.vector_registers@[k],
                s0.config.register.maximum_forward_bytes,
            ));
            assert(s0.register_file.vector_registers@[k].read_count <= rl);
        }
    }
    assert(m5.register_file.vector_registers@ == m1.register_file.vector_registers@);
    assert(m5.fetch_unit == s0.fetch_unit);
    assert(m5.config == s0.config);
    let pc0 = m5.fetch_unit.pc;
    if pc0 < m5.fetch_unit.inst_memory@.len() {
        let inst = m5.fetch_unit.inst_memory@[pc0 as int];
        assert(match inst {
            Inst::Func(f) => forall|id: RegisterIdType| id < 32 ==> occ_vector(f.resource@, id)
                <= 1,
            Inst::Mem(m) => !(m.reg is VectorRegister),
        });
        match inst {
            Inst::Func(f) => {
                if f.spec_valid(m5.config) && f.func_unit_key.is_vector_key()
                    && m5.register_file.spec_can_issue_vector(f, rl, wl)
                    && spec_counts_headroom(m5.register_file) && spec_vector_unit_accepts(
                    spec_vector_unit_of(m5, f.func_unit_key),
                ) {
                    lemma_port_limit_enforcement(
                        m5.register_file,
                        s1.register_file,
                        f,
                        rl,
                        wl,
                    );
                } else {
                }
            },
            Inst::Mem(_) => {
            },
        }
    }
}

/// Port-limit enforcement across a whole run (the third testable
/// property, composed): under a port-disciplined instruction sequence,
/// every state the bounded loop passes through — in particular its final
/// one — keeps every register's counters within the limits, and a denied
/// issue leaves the program counter where it was (`spec_issue_step`).
pub proof fn lemma_run_preserves_port_limits(s0: Simulator, s1: Simulator, n: int)
    requires
        spec_run_rel(s0, s1, n),
        spec_insts_port_disciplined(s0.fetch_unit.inst_memory@),
        spec_ports_within_limits(
            s0.register_file,
            s0.config.vector_register.ports.read_ports_limit,
            s0.config.vector_register.ports.write_ports_limit,
        ),
    ensures
        spec_ports_within_limits(
            s1.register_file,
            s0.config.vector_register.ports.read_ports_limit,
            s0.config.vector_register.ports.write_ports_limit,
        ),
        s1.config == s0.config,
        s1.fetch_unit.inst_memory@ == s0.fetch_unit.inst_memory@,
    decreases n,
{
    if n <= 0 {
        assert(s1 == s0);
    } else {
        let mid = choose|mid: Simulator|
            {
                &&& spec_run_rel(s0, mid, n - 1)
                &&& !mid.spec_quiescent()
                &&& #[trigger] spec_tick_rel(mid, s1)
            };
        lemma_run_preserves_port_limits(s0, mid, n - 1);
        lemma_tick_preserves_port_limits(mid, s1);
    }
}

/// The whole machine: the front end, ten functional units, the load/store
/// unit and the register file, owned by one value so that the scheduler
/// can pass mutable views around in the fixed phase order.
#[derive(Debug)]
pub struct Simulator {
    pub fetch_unit: Fetch,
    pub vector_alu: VectorFunctionUnit,
    pub vector_mul: VectorFunctionUnit,
    pub vector_div: VectorFunctionUnit,
    pub vector_slide: VectorFunctionUnit,
    pub vector_macc: VectorFunctionUnit,
    pub integer_alu: CommonFunctionUnit,
    pub integer_div: CommonFunctionUnit,
    pub float_alu: CommonFunctionUnit,
    pub float_mul: CommonFunctionUnit,
    pub float_div: CommonFunctionUnit,
    pub memory_unit: LoadStoreUnit,
    pub register_file: RegisterFile,
    pub config: SimulatorConfig,
}

/// The safety cap on simulated cycles, guarding against stalls that can
/// never resolve.
pub const MAX_SIM_CYCLES: u32 = 100;

/// The vector unit serving `key` (meaningful for the five vector keys).
pub open spec fn spec_vector_unit_of(s: Simulator, key: FunctionUnitKeyType) -> VectorFunctionUnit {
    match key {
        FunctionUnitKeyType::VectorAlu => s.vector_alu,
        FunctionUnitKeyType::VectorMul => s.vector_mul,
        FunctionUnitKeyType::VectorDiv => s.vector_div,
        FunctionUnitKeyType::VectorSlide => s.vector_slide,
        FunctionUnitKeyType::VectorMacc => s.vector_macc,
        _ => s.vector_alu,
    }
}

/// The common unit serving `key` (meaningful for the five common keys).
pub open spec fn spec_common_unit_of(s: Simulator, key: FunctionUnitKeyType) -> CommonFunctionUnit {
    match key {
        FunctionUnitKeyType::IntegerAlu => s.integer_alu,
        FunctionUnitKeyType::IntergerDiv => s.integer_div,
        FunctionUnitKeyType::FloatAlu => s.float_alu,
        FunctionUnitKeyType::FloatMul => s.float_mul,
        FunctionUnitKeyType::FloatDiv => s.float_div,
        _ => s.integer_alu,
    }
}

/// All five common units are unchanged.
pub open spec fn spec_common_units_unchanged(s0: Simulator, s1: Simulator) -> bool {
    &&& s1.integer_alu == s0.integer_alu
    &&& s1.integer_div == s0.integer_div
    &&& s1.float_alu == s0.float_alu
    &&& s1.float_mul == s0.float_mul
    &&& s1.float_div == s0.float_div
}

/// All five vector units are unchanged.
pub open spec fn spec_vector_units_unchanged(s0: Simulator, s1: Simulator) -> bool {
    &&& s1.vector_alu == s0.vector_alu
    &&& s1.vector_mul == s0.vector_mul
    &&& s1.vector_div == s0.vector_div
    &&& s1.vector_slide == s0.vector_slide
    &&& s1.vector_macc == s0.vector_macc
}

/// Every vector unit but the one serving `key` is unchanged.
pub open spec fn spec_other_vector_units_unchanged(
    s0: Simulator,
    s1: Simulator,
    key: FunctionUnitKeyType,
) -> bool {
    &&& (key != FunctionUnitKeyType::VectorAlu ==> s1.vector_alu == s0.vector_alu)
    &&& (key != FunctionUnitKeyType::VectorMul ==> s1.vector_mul == s0.vector_mul)
    &&& (key != FunctionUnitKeyType::VectorDiv ==> s1.vector_div == s0.vector_div)
    &&& (key != FunctionUnitKeyType::VectorSlide ==> s1.vector_slide == s0.vector_slide)
    &&& (key != FunctionUnitKeyType::VectorMacc ==> s1.vector_macc == s0.vector_macc)
}

/// Every common unit but the one serving `key` is unchanged.
pub open spec fn spec_other_common_units_unchanged(
    s0: Simulator,
    s1: Simulator,
    key: FunctionUnitKeyType,
) -> bool {
    &&& (key != FunctionUnitKeyType::IntegerAlu ==> s1.integer_alu == s0.integer_alu)
    &&& (key != FunctionUnitKeyType::IntergerDiv ==> s1.integer_div == s0.integer_div)
    &&& (key != FunctionUnitKeyType::FloatAlu ==> s1.float_alu == s0.float_alu)
    &&& (key != FunctionUnitKeyType::FloatMul ==> s1.float_mul == s0.float_mul)
    &&& (key != FunctionUnitKeyType::FloatDiv ==> s1.float_div == s0.float_div)
}

/// What the per-cycle walk may do to one vector register: retire tasks
/// (never raise a port counter), and end with no task below its cursor
/// able to emit a further event this cycle.
pub open spec fn spec_register_walked(
    v0: crate::sim::register::VectorRegister,
    v1: crate::sim::register::VectorRegister,
    max_forward: u32,
) -> bool {
    &&& v1.read_count <= v0.read_count
    &&& v1.write_count <= v0.write_count
    &&& v1.id == v0.id
    &&& v1.total_bytes == v0.total_bytes
    &&& forall|t: int|
        0 <= t < v1.current_index ==> (#[trigger] v1.spec_one_task(t, max_forward)) is None
}

/// What one issue attempt does, exactly.  With the front end drained,
/// nothing happens.  Otherwise the fetched instruction either cannot be
/// mapped (`UnsupportedInstruction`, nothing changed), or is issued when
/// its unit and the register file both accept — the program counter
/// advances, the unit and the register file take the issue per their own
/// issue relations, and nothing else moves — or stalls, leaving the whole
/// machine exactly as it was.
pub open spec fn spec_issue_step(s0: Simulator, s1: Simulator, r: Result<(), SimError>) -> bool {
    let pc0 = s0.fetch_unit.pc;
    &&& s1.config == s0.config
    &&& s1.fetch_unit.inst_memory@ == s0.fetch_unit.inst_memory@
    &&& if pc0 >= s0.fetch_unit.inst_memory@.len() {
        &&& s1 == s0
        &&& r is Ok
    } else {
        match s0.fetch_unit.inst_memory@[pc0 as int] {
            Inst::Func(f) => {
                if !f.spec_valid(s0.config) {
                    &&& s1 == s0
                    &&& r == Err::<(), SimError>(SimError::UnsupportedInstruction)
                } else if f.func_unit_key.is_vector_key() {
                    let accept = {
                        &&& s0.register_file.spec_can_issue_vector(
                            f,
                            s0.config.vector_register.ports.read_ports_limit,
                            s0.config.vector_register.ports.write_ports_limit,
                        )
                        &&& spec_counts_headroom(s0.register_file)
                        &&& spec_vector_unit_accepts(spec_vector_unit_of(s0, f.func_unit_key))
                    };
                    if accept {
                        &&& r is Ok
                        &&& s1.fetch_unit.pc == pc0 + 1
                        &&& spec_vector_issued(
                            spec_vector_unit_of(s0, f.func_unit_key),
                            spec_vector_unit_of(s1, f.func_unit_key),
                            f,
                            pc0,
                            s0.config,
                        )
                        &&& spec_other_vector_units_unchanged(s0, s1, f.func_unit_key)
                        &&& spec_common_units_unchanged(s0, s1)
                        &&& s1.memory_unit == s0.memory_unit
                        &&& spec_rf_vector_issued(s0.register_file, s1.register_file, f)
                    } else {
                        &&& s1 == s0
                        &&& r is Ok
                    }
                } else {
                    if s0.register_file.spec_can_issue_common(f) {
                        &&& r is Ok
                        &&& s1.fetch_unit.pc == pc0 + 1
                        &&& spec_common_issued(
                            spec_common_unit_of(s0, f.func_unit_key),
                            spec_common_unit_of(s1, f.func_unit_key),
                            f,
                            s0.config,
                        )
                        &&& spec_other_common_units_unchanged(s0, s1, f.func_unit_key)
                        &&& spec_vector_units_unchanged(s0, s1)
                        &&& s1.memory_unit == s0.memory_unit
                        &&& spec_rf_common_issued(s0.register_file, s1.register_file, f)
                    } else {
                        &&& s1 == s0
                        &&& r is Ok
                    }
                }
            },
            Inst::Mem(m) => {
                if !m.spec_valid() {
                    &&& s1 == s0
                    &&& r == Err::<(), SimError>(SimError::UnsupportedInstruction)
                } else {
                    let accept = {
                        &&& spec_lsu_accepts(s0.memory_unit, m.dir)
                        &&& s0.register_file.spec_can_issue_memory(m)
                        &&& spec_counts_headroom(s0.register_file)
                    };
                    if accept {
                        &&& r is Ok
                        &&& s1.fetch_unit.pc == pc0 + 1
                        &&& spec_common_units_unchanged(s0, s1)
                        &&& spec_vector_units_unchanged(s0, s1)
                        &&& exists|idx: usize|
                            #[trigger] spec_lsu_issued(
                                s0.memory_unit,
                                s1.memory_unit,
                                m,
                                pc0,
                                idx,
                                s0.config,
                            ) && spec_rf_mem_issued(s0.register_file, s1.register_file, m, idx)
                    } else {
                        &&& s1 == s0
                        &&& r is Ok
                    }
                }
            },
        }
    }
}

impl Simulator {
    pub open spec fn wf(self) -> bool {
        &&& self.config.wf()
        &&& vector_unit_ok(self.vector_alu, FunctionUnitKeyType::VectorAlu, self.config)
        &&& vector_unit_ok(self.vector_mul, FunctionUnitKeyType::VectorMul, self.config)
        &&& vector_unit_ok(self.vector_div, FunctionUnitKeyType::VectorDiv, self.config)
        &&& vector_unit_ok(self.vector_slide, FunctionUnitKeyType::VectorSlide, self.config)
        &&& vector_unit_ok(self.vector_macc, FunctionUnitKeyType::VectorMacc, self.config)
        &&& common_unit_ok(self.integer_alu, FunctionUnitKeyType::IntegerAlu, self.config)
        &&& common_unit_ok(self.integer_div, FunctionUnitKeyType::IntergerDiv, self.config)
        &&& common_unit_ok(self.float_alu, FunctionUnitKeyType::FloatAlu, self.config)
        &&& common_unit_ok(self.float_mul, FunctionUnitKeyType::FloatMul, self.config)
        &&& common_unit_ok(self.float_div, FunctionUnitKeyType::FloatDiv, self.config)
        &&& self.memory_unit.wf()
        &&& self.register_file.wf()
    }

    /// No queued common event is exactly at its unit latency: true right
    /// after the event queues have ticked, which is when issue happens.
    pub open spec fn common_fronts_strict(self) -> bool {
        &&& (self.integer_alu.event_queue@.len() > 0
            ==> self.integer_alu.event_queue@[0].remained_cycle < spec_func_cycle(
            FunctionUnitKeyType::IntegerAlu,
            false,
            self.config,
        ))
        &&& (self.integer_div.event_queue@.len() > 0
            ==> self.integer_div.event_queue@[0].remained_cycle < spec_func_cycle(
            FunctionUnitKeyType::IntergerDiv,
            false,
            self.config,
        ))
        &&& (self.float_alu.event_queue@.len() > 0
            ==> self.float_alu.event_queue@[0].remained_cycle < spec_func_cycle(
            FunctionUnitKeyType::FloatAlu,
            false,
            self.config,
        ))
        &&& (self.float_mul.event_queue@.len() > 0
            ==> self.float_mul.event_queue@[0].remained_cycle < spec_func_cycle(
            FunctionUnitKeyType::FloatMul,
            false,
            self.config,
        ))
        &&& (self.float_div.event_queue@.len() > 0
            ==> self.float_div.event_queue@[0].remained_cycle < spec_func_cycle(
            FunctionUnitKeyType::FloatDiv,
            false,
            self.config,
        ))
    }

    /// Nothing left to do: the front end is drained and every unit idle.
    pub open spec fn spec_quiescent(self) -> bool {
        &&& self.fetch_unit.pc >= self.fetch_unit.inst_memory@.len()
        &&& !self.vector_alu.occupied
        &&& !self.vector_mul.occupied
        &&& !self.vector_div.occupied
        &&& !self.vector_slide.occupied
        &&& !self.vector_macc.occupied
        &&& !self.integer_alu.occupied
        &&& !self.integer_div.occupied
        &&& !self.float_alu.occupied
        &&& !self.float_mul.occupied
        &&& !self.float_div.occupied
        &&& (forall|i: int|
            0 <= i < self.memory_unit.read_port_used@.len() ==> (
            #[trigger] self.memory_unit.read_port_used@[i]) is None)
        &&& (forall|i: int|
            0 <= i < self.memory_unit.write_port_used@.len() ==> (
            #[trigger] self.memory_unit.write_port_used@[i]) is None)
    }

    pub fn new(config: SimulatorConfig) -> (r: Simulator)
        requires
            config.wf(),
        ensures
            r.wf(),
            r.common_fronts_strict(),
            r.spec_quiescent(),
            r.config == config,
            r.fetch_unit.pc == 0,
            r.fetch_unit.inst_memory@.len() == 0,
    {
        let vector_bytes_per_event = config.get_data_length();
        Simulator {
            fetch_unit: Fetch::new(),
            vector_alu: VectorFunctionUnit::new(
                vector_bytes_per_event,
                FunctionUnitKeyType::VectorAlu,
            ),
            vector_mul: VectorFunctionUnit::new(
                vector_bytes_per_event,
                FunctionUnitKeyType::VectorMul,
            ),
            vector_div: VectorFunctionUnit::new(
                vector_bytes_per_event,
                FunctionUnitKeyType::VectorDiv,
            ),
            vector_slide: VectorFunctionUnit::new(
                vector_bytes_per_event,
                FunctionUnitKeyType::VectorSlide,
            ),
            vector_macc: VectorFunctionUnit::new(
                vector_bytes_per_event,
                FunctionUnitKeyType::VectorMacc,
            ),
            integer_alu: CommonFunctionUnit::new(FunctionUnitKeyType::IntegerAlu),
            integer_div: CommonFunctionUnit::new(FunctionUnitKeyType::IntergerDiv),
            float_alu: CommonFunctionUnit::new(FunctionUnitKeyType::FloatAlu),
            float_mul: CommonFunctionUnit::new(FunctionUnitKeyType::FloatMul),
            float_div: CommonFunctionUnit::new(FunctionUnitKeyType::FloatDiv),
            memory_unit: LoadStoreUnit::new_from_config(&config),
            register_file: RegisterFile::new(&config),
            config,
        }
    }

    /// Hand the decoded instruction sequence to the front end.
    pub fn load_instructions(&mut self, inst: Vec<Inst>)
        ensures
            final(self).fetch_unit.pc == old(self).fetch_unit.pc,
            final(self).fetch_unit.inst_memory@ == inst@,
            final(self).vector_alu == old(self).vector_alu,
            final(self).vector_mul == old(self).vector_mul,
            final(self).vector_div == old(self).vector_div,
            final(self).vector_slide == old(self).vector_slide,
            final(self).vector_macc == old(self).vector_macc,
            final(self).integer_alu == old(self).integer_alu,
            final(self).integer_div == old(self).integer_div,
            final(self).float_alu == old(self).float_alu,
            final(self).float_mul == old(self).float_mul,
            final(self).float_div == old(self).float_div,
            final(self).memory_unit == old(self).memory_unit,
            final(self).register_file == old(self).register_file,
            final(self).config == old(self).config,
            old(self).wf() ==> final(self).wf(),
            old(self).common_fronts_strict() ==> final(self).common_fronts_strict(),
    {
        self.fetch_unit.load(inst);
    }

    /// Route a register-generated buffer event to the owning unit.
    fn handle_buffer_event(&mut self, key: UnitKeyType, event: BufferEvent) -> (r: Result<
        BufferEventResult,
        SimError,
    >)
        requires
            old(self).wf(),
        ensures
            final(self).wf(),
            final(self).config == old(self).config,
            final(self).fetch_unit == old(self).fetch_unit,
            final(self).register_file == old(self).register_file,
            final(self).integer_alu == old(self).integer_alu,
            final(self).integer_div == old(self).integer_div,
            final(self).float_alu == old(self).float_alu,
            final(self).float_mul == old(self).float_mul,
            final(self).float_div == old(self).float_div,
            final(self).common_fronts_strict() == old(self).common_fronts_strict(),
            r matches Ok(res) ==> spec_result_matches_event(event, res),
    {
        match key {
            UnitKeyType::FuncKey(func_key) => {
                match func_key {
                    FunctionUnitKeyType::VectorAlu => self.vector_alu.handle_buffer_event(event),
                    FunctionUnitKeyType::VectorMul => self.vector_mul.handle_buffer_event(event),
                    FunctionUnitKeyType::VectorDiv => self.vector_div.handle_buffer_event(event),
                    FunctionUnitKeyType::VectorSlide => self.vector_slide.handle_buffer_event(
                        event,
                    ),
                    FunctionUnitKeyType::VectorMacc => self.vector_macc.handle_buffer_event(event),
                    _ => Err(SimError::BufferStateViolation),
                }
            },
            UnitKeyType::MemKey(mem_key) => {
                let res = self.memory_unit.handle_buffer_event(mem_key, event);
                res
            },
        }
    }

    /// Phase one of a tick: every vector register walks its task queue from
    /// the oldest task toward the newest, each task moving at most one
    /// forwarding-width chunk of bytes between its register and its unit.
    /// Phase one of a tick, as a relation: the register walk touches only
    /// the register file's vector side and the buffered units; it never
    /// raises a port counter; and when it ends, no task below any
    /// register's cursor can emit a further event this cycle — the walk
    /// has reached its fixpoint.
    pub open spec fn spec_phase_registers_rel(s0: Simulator, s1: Simulator) -> bool {
        &&& s1.wf()
        &&& s1.config == s0.config
        &&& s1.fetch_unit == s0.fetch_unit
        &&& spec_common_units_unchanged(s0, s1)
        &&& s1.register_file.scalar_registers@ == s0.register_file.scalar_registers@
        &&& s1.register_file.float_registers@ == s0.register_file.float_registers@
        &&& (forall|k: int|
            0 <= k < 32 ==> spec_register_walked(
                (#[trigger] s0.register_file.vector_registers@[k]),
                s1.register_file.vector_registers@[k],
                s0.config.register.maximum_forward_bytes,
            ))
    }

    fn handle_register_file(&mut self) -> (r: Result<(), SimError>)
        requires
            old(self).wf(),
        ensures
            final(self).wf(),
            final(self).config == old(self).config,
            final(self).fetch_unit == old(self).fetch_unit,
            final(self).integer_alu == old(self).integer_alu,
            final(self).integer_div == old(self).integer_div,
            final(self).float_alu == old(self).float_alu,
            final(self).float_mul == old(self).float_mul,
            final(self).float_div == old(self).float_div,
            final(self).common_fronts_strict() == old(self).common_fronts_strict(),
            r is Ok ==> Simulator::spec_phase_registers_rel(*old(self), *final(self)),
    {
        let max_forward = self.config.get_maximum_forward_bytes();
        let mut i: usize = 0;
        while i < 32
            invariant
                self.wf(),
                self.config == old(self).config,
                self.fetch_unit == old(self).fetch_unit,
                self.integer_alu == old(self).integer_alu,
                self.integer_div == old(self).integer_div,
                self.float_alu == old(self).float_alu,
                self.float_mul == old(self).float_mul,
                self.float_div == old(self).float_div,
                max_forward == old(self).config.register.maximum_forward_bytes,
                self.register_file.scalar_registers@ == old(
                    self,
                ).register_file.scalar_registers@,
                self.register_file.float_registers@ == old(self).register_file.float_registers@,
                forall|k: int|
                    i <= k < 32 ==> (#[trigger] self.register_file.vector_registers@[k]) == old(
                        self,
                    ).register_file.vector_registers@[k],
                forall|k: int|
                    0 <= k < i ==> spec_register_walked(
                        (#[trigger] old(self).register_file.vector_registers@[k]),
                        self.register_file.vector_registers@[k],
                        max_forward,
                    ),
            decreases 32 - i,
        {
            let queue_len = self.register_file.vector_registers[i].task_queue.len();
            if queue_len > 0 {
                {
                    let reg = &mut self.register_file.vector_registers[i];
                    reg.init_current_index();
                }
                loop
                    invariant
                        self.wf(),
                        i < 32,
                        self.config == old(self).config,
                        self.fetch_unit == old(self).fetch_unit,
                        self.integer_alu == old(self).integer_alu,
                        self.integer_div == old(self).integer_div,
                        self.float_alu == old(self).float_alu,
                        self.float_mul == old(self).float_mul,
                        self.float_div == old(self).float_div,
                        max_forward == old(self).config.register.maximum_forward_bytes,
                        self.register_file.scalar_registers@ == old(
                            self,
                        ).register_file.scalar_registers@,
                        self.register_file.float_registers@ == old(
                            self,
                        ).register_file.float_registers@,
                        forall|k: int|
                            i < k < 32 ==> (#[trigger] self.register_file.vector_registers@[k])
                                == old(self).register_file.vector_registers@[k],
                        forall|k: int|
                            0 <= k < i ==> spec_register_walked(
                                (#[trigger] old(self).register_file.vector_registers@[k]),
                                self.register_file.vector_registers@[k],
                                max_forward,
                            ),
                        self.register_file.vector_registers@[i as int].read_count <= old(
                            self,
                        ).register_file.vector_registers@[i as int].read_count,
                        self.register_file.vector_registers@[i as int].write_count <= old(
                            self,
                        ).register_file.vector_registers@[i as int].write_count,
                        self.register_file.vector_registers@[i as int].id == old(
                            self,
                        ).register_file.vector_registers@[i as int].id,
                        self.register_file.vector_registers@[i as int].total_bytes == old(
                            self,
                        ).register_file.vector_registers@[i as int].total_bytes,
                    ensures
                        self.wf(),
                        self.config == old(self).config,
                        self.fetch_unit == old(self).fetch_unit,
                        self.integer_alu == old(self).integer_alu,
                        self.integer_div == old(self).integer_div,
                        self.float_alu == old(self).float_alu,
                        self.float_mul == old(self).float_mul,
                        self.float_div == old(self).float_div,
                        self.register_file.scalar_registers@ == old(
                            self,
                        ).register_file.scalar_registers@,
                        self.register_file.float_registers@ == old(
                            self,
                        ).register_file.float_registers@,
                        forall|k: int|
                            i < k < 32 ==> (#[trigger] self.register_file.vector_registers@[k])
                                == old(self).register_file.vector_registers@[k],
                        forall|k: int|
                            0 <= k < i ==> spec_register_walked(
                                (#[trigger] old(self).register_file.vector_registers@[k]),
                                self.register_file.vector_registers@[k],
                                max_forward,
                            ),
                        spec_register_walked(
                            old(self).register_file.vector_registers@[i as int],
                            self.register_file.vector_registers@[i as int],
                            max_forward,
                        ),
                    decreases self.register_file.vector_registers@[i as int].current_index,
                {
                    let ghost pre_reg = self.register_file.vector_registers@[i as int];
                    let ev_opt = {
                        let reg = &mut self.register_file.vector_registers[i];
                        reg.generate_event(max_forward)
                    };
                    match ev_opt {
                        None => {
                            proof {
                                let v1 = self.register_file.vector_registers@[i as int];
                                assert forall|t: int|
                                    0 <= t < v1.current_index implies (#[trigger] v1.spec_one_task(
                                    t,
                                    max_forward,
                                )) is None by {
                                    assert(pre_reg.spec_one_task(t, max_forward) is None);
                                    assert(v1.task_queue@ == pre_reg.task_queue@);
                                    assert(v1.total_bytes == pre_reg.total_bytes);
                                    assert(v1.spec_one_task(t, max_forward)
                                        == pre_reg.spec_one_task(t, max_forward));
                                }
                            }
                            break;
                        },
                        Some(e) => {
                            let ghost reg_snap = self.register_file.vector_registers@[i as int];
                            let key = self.register_file.vector_registers[
                                i
                            ].get_current_task_unit_key();
                            let result = match self.handle_buffer_event(key, e) {
                                Ok(res) => res,
                                Err(err) => {
                                    return Err(err);
                                },
                            };
                            proof {
                                let ci = reg_snap.current_index as int;
                                assert(reg_snap.spec_one_task(ci, max_forward) == Some(e));
                                assert(spec_result_delta(result) <= reg_snap.spec_max_advance(ci));
                            }
                            let reg = &mut self.register_file.vector_registers[i];
                            reg.handle_event_result(result);
                        },
                    }
                }
            } else {
                proof {
                    assert(self.register_file.vector_registers@[i as int].current_index == 0);
                    assert(spec_register_walked(
                        old(self).register_file.vector_registers@[i as int],
                        self.register_file.vector_registers@[i as int],
                        max_forward,
                    ));
                }
            }
            i = i + 1;
        }
        Ok(())
    }

    /// The common units' share of phase two: each queue ages one cycle and
    /// the matured write-back, if any, clears its register's marker.
    fn tick_common_units(&mut self)
        requires
            old(self).wf(),
        ensures
            final(self).wf(),
            final(self).config == old(self).config,
            final(self).fetch_unit == old(self).fetch_unit,
            final(self).vector_alu == old(self).vector_alu,
            final(self).vector_mul == old(self).vector_mul,
            final(self).vector_div == old(self).vector_div,
            final(self).vector_slide == old(self).vector_slide,
            final(self).vector_macc == old(self).vector_macc,
            final(self).memory_unit == old(self).memory_unit,
            final(self).common_fronts_strict(),
            spec_common_unit_ticked(old(self).integer_alu, final(self).integer_alu),
            spec_common_unit_ticked(old(self).integer_div, final(self).integer_div),
            spec_common_unit_ticked(old(self).float_alu, final(self).float_alu),
            spec_common_unit_ticked(old(self).float_mul, final(self).float_mul),
            spec_common_unit_ticked(old(self).float_div, final(self).float_div),
            spec_markers_only_cleared(old(self).register_file, final(self).register_file),
    {
        let config = self.config;
        tick_one_common_unit(&mut self.integer_alu, &mut self.register_file, &config);
        let ghost r1 = self.register_file;
        tick_one_common_unit(&mut self.integer_div, &mut self.register_file, &config);
        proof {
            lemma_markers_only_cleared_trans(
                old(self).register_file,
                r1,
                self.register_file,
            );
        }
        let ghost r2 = self.register_file;
        tick_one_common_unit(&mut self.float_alu, &mut self.register_file, &config);
        proof {
            lemma_markers_only_cleared_trans(
                old(self).register_file,
                r2,
                self.register_file,
            );
        }
        let ghost r3 = self.register_file;
        tick_one_common_unit(&mut self.float_mul, &mut self.register_file, &config);
        proof {
            lemma_markers_only_cleared_trans(
                old(self).register_file,
                r3,
                self.register_file,
            );
        }
        let ghost r4 = self.register_file;
        tick_one_common_unit(&mut self.float_div, &mut self.register_file, &config);
        proof {
            lemma_markers_only_cleared_trans(
                old(self).register_file,
                r4,
                self.register_file,
            );
        }
    }

    /// The vector units' share of phase two.
    fn tick_vector_units(&mut self) -> (r: Result<(), SimError>)
        requires
            old(self).wf(),
        ensures
            final(self).wf(),
            final(self).config == old(self).config,
            final(self).fetch_unit == old(self).fetch_unit,
            final(self).register_file == old(self).register_file,
            final(self).integer_alu == old(self).integer_alu,
            final(self).integer_div == old(self).integer_div,
            final(self).float_alu == old(self).float_alu,
            final(self).float_mul == old(self).float_mul,
            final(self).float_div == old(self).float_div,
            final(self).memory_unit == old(self).memory_unit,
            final(self).common_fronts_strict() == old(self).common_fronts_strict(),
            r is Ok ==> {
                &&& spec_vector_unit_ticked(old(self).vector_alu, final(self).vector_alu)
                &&& spec_vector_unit_ticked(old(self).vector_mul, final(self).vector_mul)
                &&& spec_vector_unit_ticked(old(self).vector_div, final(self).vector_div)
                &&& spec_vector_unit_ticked(old(self).vector_slide, final(self).vector_slide)
                &&& spec_vector_unit_ticked(old(self).vector_macc, final(self).vector_macc)
            },
    {
        match self.vector_alu.handle_event() {
            Ok(_) => {},
            Err(e) => {
                return Err(e);
            },
        }
        match self.vector_mul.handle_event() {
            Ok(_) => {},
            Err(e) => {
                return Err(e);
            },
        }
        match self.vector_div.handle_event() {
            Ok(_) => {},
            Err(e) => {
                return Err(e);
            },
        }
        match self.vector_slide.handle_event() {
            Ok(_) => {},
            Err(e) => {
                return Err(e);
            },
        }
        match self.vector_macc.handle_event() {
            Ok(_) => {},
            Err(e) => {
                return Err(e);
            },
        }
        Ok(())
    }

    /// Phase two of a tick: every unit's event queue advances one cycle,
    /// and each common unit's matured write-back clears its register's
    /// marker.
    fn handle_unit_event_queue(&mut self) -> (r: Result<(), SimError>)
        requires
            old(self).wf(),
        ensures
            final(self).wf(),
            final(self).config == old(self).config,
            final(self).fetch_unit == old(self).fetch_unit,
            r is Ok ==> final(self).common_fronts_strict(),
            r is Ok ==> spec_phase_units_rel(*old(self), *final(self)),
    {
        self.tick_common_units();
        match self.tick_vector_units() {
            Ok(_) => {},
            Err(e) => {
                return Err(e);
            },
        }
        match self.memory_unit.handle_event_queue() {
            Ok(_) => {},
            Err(e) => {
                return Err(e);
            },
        }
        Ok(())
    }

    /// Phase 1.2: memory auto-refill of the read ports.
    fn auto_increase_memory_data(&mut self) -> (r: Result<(), SimError>)
        requires
            old(self).wf(),
        ensures
            final(self).wf(),
            r is Ok,
            final(self).config == old(self).config,
            final(self).fetch_unit == old(self).fetch_unit,
            final(self).register_file == old(self).register_file,
            final(self).integer_alu == old(self).integer_alu,
            final(self).integer_div == old(self).integer_div,
            final(self).float_alu == old(self).float_alu,
            final(self).float_mul == old(self).float_mul,
            final(self).float_div == old(self).float_div,
            final(self).common_fronts_strict() == old(self).common_fronts_strict(),
            spec_phase_autofill_rel(*old(self), *final(self)),
    {
        self.memory_unit.auto_increase_memory_data()
    }

    /// Phase 1.3: write-port auto-consume by the external sink.
    fn auto_increase_memory_write_consumed_bytes(&mut self) -> (r: Result<(), SimError>)
        requires
            old(self).wf(),
        ensures
            final(self).wf(),
            r is Ok,
            final(self).config == old(self).config,
            final(self).fetch_unit == old(self).fetch_unit,
            final(self).register_file == old(self).register_file,
            final(self).integer_alu == old(self).integer_alu,
            final(self).integer_div == old(self).integer_div,
            final(self).float_alu == old(self).float_alu,
            final(self).float_mul == old(self).float_mul,
            final(self).float_div == old(self).float_div,
            final(self).common_fronts_strict() == old(self).common_fronts_strict(),
            spec_phase_autoconsume_rel(*old(self), *final(self)),
    {
        self.memory_unit.auto_increase_memory_write_consumed_bytes()
    }

    /// Phase 1.4: read-port retirement — completed scalar/float loads
    /// clear their destination registers' write markers.
    fn finish_read_port_writing_to_register(&mut self) -> (r: Result<(), SimError>)
        requires
            old(self).wf(),
        ensures
            final(self).wf(),
            final(self).config == old(self).config,
            final(self).fetch_unit == old(self).fetch_unit,
            final(self).integer_alu == old(self).integer_alu,
            final(self).integer_div == old(self).integer_div,
            final(self).float_alu == old(self).float_alu,
            final(self).float_mul == old(self).float_mul,
            final(self).float_div == old(self).float_div,
            final(self).common_fronts_strict() == old(self).common_fronts_strict(),
            r is Ok ==> spec_phase_retire_rel(*old(self), *final(self)),
    {
        let regs = match self.memory_unit.clean_read_port_result_buffer() {
            Ok(v) => v,
            Err(e) => {
                return Err(e);
            },
        };
        proof {
            assert(spec_lsu_retired(old(self).memory_unit, self.memory_unit, regs@));
            assert(spec_markers_only_cleared(self.register_file, self.register_file));
        }
        let ghost mem1 = self.memory_unit;
        let mut i: usize = 0;
        while i < regs.len()
            invariant
                self.wf(),
                self.config == old(self).config,
                self.fetch_unit == old(self).fetch_unit,
                self.integer_alu == old(self).integer_alu,
                self.integer_div == old(self).integer_div,
                self.float_alu == old(self).float_alu,
                self.float_mul == old(self).float_mul,
                self.float_div == old(self).float_div,
                self.vector_alu == old(self).vector_alu,
                self.vector_mul == old(self).vector_mul,
                self.vector_div == old(self).vector_div,
                self.vector_slide == old(self).vector_slide,
                self.vector_macc == old(self).vector_macc,
                self.memory_unit == mem1,
                spec_lsu_retired(old(self).memory_unit, mem1, regs@),
                spec_markers_only_cleared(old(self).register_file, self.register_file),
                forall|k: int|
                    0 <= k < regs@.len() ==> !((#[trigger] regs@[k]) is VectorRegister)
                        && regs@[k].spec_id_ok(),
            decreases regs@.len() - i,
        {
            let reg = regs[i];
            let ghost rf_before = self.register_file;
            self.register_file.clean_write(&reg);
            proof {
                lemma_markers_only_cleared_trans(
                    old(self).register_file,
                    rf_before,
                    self.register_file,
                );
            }
            i = i + 1;
        }
        Ok(())
    }

    /// Phase three of a tick: fetch the next instruction and issue it if
    /// its unit and the register file both accept; otherwise the program
    /// counter stands still — a stall, not an error.  An instruction the
    /// issue logic cannot map is `UnsupportedInstruction`.
    fn try_issue(&mut self) -> (r: Result<(), SimError>)
        requires
            old(self).wf(),
            old(self).common_fronts_strict(),
        ensures
            final(self).wf(),
            final(self).config == old(self).config,
            final(self).fetch_unit.inst_memory@ == old(self).fetch_unit.inst_memory@,
            final(self).fetch_unit.pc == old(self).fetch_unit.pc || final(self).fetch_unit.pc
                == old(self).fetch_unit.pc + 1,
            r is Err ==> r == Err::<(), SimError>(SimError::UnsupportedInstruction),
            spec_issue_step(*old(self), *final(self), r),
    {
        let config = self.config;
        let ghost pc0 = self.fetch_unit.pc;
        let fetched = self.fetch_unit.fetch();
        match fetched {
            None => Ok(()),
            Some(inst) => {
                proof {
                    assert(self.fetch_unit.pc < self.fetch_unit.inst_memory@.len());
                    assert(inst.matches_spec(old(self).fetch_unit.inst_memory@[pc0 as int]));
                }
                let ghost orig = old(self).fetch_unit.inst_memory@[pc0 as int];
                match inst {
                    Inst::Func(func_inst) => {
                        let ghost forig = orig->Func_0;
                        proof {
                            assert(orig is Func);
                            assert(func_inst.matches_spec(forig));
                            lemma_funcinst_congruent(
                                old(self).register_file,
                                func_inst,
                                forig,
                                config,
                                config.vector_register.ports.read_ports_limit,
                                config.vector_register.ports.write_ports_limit,
                            );
                            assert(func_inst.func_unit_key == forig.func_unit_key);
                        }
                        if !func_inst.check_valid(&config) {
                            return Err(SimError::UnsupportedInstruction);
                        }
                        let vector_key = matches!(
                            func_inst.func_unit_key,
                            FunctionUnitKeyType::VectorAlu
                                | FunctionUnitKeyType::VectorMul
                                | FunctionUnitKeyType::VectorDiv
                                | FunctionUnitKeyType::VectorSlide
                                | FunctionUnitKeyType::VectorMacc
                        );
                        proof {
                            assert(vector_key == forig.func_unit_key.is_vector_key());
                        }
                        if vector_key {
                            let can_reg = self.register_file.can_issue_vector_instruction(
                                &func_inst,
                                &config,
                            );
                            let headroom = counts_have_headroom(&self.register_file);
                            let unit_free = match func_inst.func_unit_key {
                                FunctionUnitKeyType::VectorAlu => self.vector_alu.can_accept_new_instruction(),
                                FunctionUnitKeyType::VectorMul => self.vector_mul.can_accept_new_instruction(),
                                FunctionUnitKeyType::VectorDiv => self.vector_div.can_accept_new_instruction(),
                                FunctionUnitKeyType::VectorSlide => self.vector_slide.can_accept_new_instruction(),
                                FunctionUnitKeyType::VectorMacc => self.vector_macc.can_accept_new_instruction(),
                                _ => false,
                            };
                            proof {
                                assert(unit_free == spec_vector_unit_accepts(
                                    spec_vector_unit_of(*old(self), forig.func_unit_key),
                                ));
                            }
                            if can_reg && headroom && unit_free {
                                let pc = self.fetch_unit.get_pc();
                                let clone_inst = func_inst.clone();
                                let ghost c2 = clone_inst;
                                proof {
                                    assert(clone_inst.spec_total_bytes(config)
                                        == func_inst.spec_total_bytes(config));
                                    assert(clone_inst.destination.spec_get_bytes(config)
                                        == func_inst.destination.spec_get_bytes(config));
                                }
                                let issue_res = match func_inst.func_unit_key {
                                    FunctionUnitKeyType::VectorAlu => self.vector_alu.issue(
                                        clone_inst,
                                        pc,
                                        &config,
                                    ),
                                    FunctionUnitKeyType::VectorMul => self.vector_mul.issue(
                                        clone_inst,
                                        pc,
                                        &config,
                                    ),
                                    FunctionUnitKeyType::VectorDiv => self.vector_div.issue(
                                        clone_inst,
                                        pc,
                                        &config,
                                    ),
                                    FunctionUnitKeyType::VectorSlide => self.vector_slide.issue(
                                        clone_inst,
                                        pc,
                                        &config,
                                    ),
                                    FunctionUnitKeyType::VectorMacc => self.vector_macc.issue(
                                        clone_inst,
                                        pc,
                                        &config,
                                    ),
                                    _ => Ok(()),
                                };
                                proof {
                                    assert(issue_res is Ok);
                                    assert(c2.matches_spec(forig));
                                    lemma_unit_issued_congruent(
                                        old(self).integer_alu,
                                        old(self).integer_alu,
                                        spec_vector_unit_of(*old(self), forig.func_unit_key),
                                        spec_vector_unit_of(*self, forig.func_unit_key),
                                        c2,
                                        forig,
                                        pc,
                                        config,
                                    );
                                    assert(spec_vector_issued(
                                        spec_vector_unit_of(*old(self), forig.func_unit_key),
                                        spec_vector_unit_of(*self, forig.func_unit_key),
                                        forig,
                                        pc0,
                                        config,
                                    ));
                                }
                                self.fetch_unit.next_pc();
                                let ghost rf0 = self.register_file;
                                self.register_file.add_vector_task(&func_inst);
                                proof {
                                    lemma_rf_issued_congruent(
                                        rf0,
                                        self.register_file,
                                        func_inst,
                                        forig,
                                    );
                                }
                            }
                            Ok(())
                        } else {
                            let can_reg = self.register_file.can_issue_common_instruction(
                                &func_inst,
                            );
                            if can_reg {
                                let pc = self.fetch_unit.get_pc();
                                let clone_inst = func_inst.clone();
                                let ghost c2 = clone_inst;
                                proof {
                                    assert(spec_func_cycle(
                                        func_inst.func_unit_key,
                                        func_inst.is_float_op,
                                        config,
                                    ) == spec_func_cycle(func_inst.func_unit_key, false, config));
                                }
                                let issue_res = match func_inst.func_unit_key {
                                    FunctionUnitKeyType::IntegerAlu => self.integer_alu.issue(
                                        clone_inst,
                                        pc,
                                        &config,
                                    ),
                                    FunctionUnitKeyType::IntergerDiv => self.integer_div.issue(
                                        clone_inst,
                                        pc,
                                        &config,
                                    ),
                                    FunctionUnitKeyType::FloatAlu => self.float_alu.issue(
                                        clone_inst,
                                        pc,
                                        &config,
                                    ),
                                    FunctionUnitKeyType::FloatMul => self.float_mul.issue(
                                        clone_inst,
                                        pc,
                                        &config,
                                    ),
                                    FunctionUnitKeyType::FloatDiv => self.float_div.issue(
                                        clone_inst,
                                        pc,
                                        &config,
                                    ),
                                    _ => Ok(()),
                                };
                                proof {
                                    assert(issue_res is Ok);
                                    assert(c2.matches_spec(forig));
                                    lemma_unit_issued_congruent(
                                        spec_common_unit_of(*old(self), forig.func_unit_key),
                                        spec_common_unit_of(*self, forig.func_unit_key),
                                        old(self).vector_alu,
                                        old(self).vector_alu,
                                        c2,
                                        forig,
                                        pc,
                                        config,
                                    );
                                    assert(spec_common_issued(
                                        spec_common_unit_of(*old(self), forig.func_unit_key),
                                        spec_common_unit_of(*self, forig.func_unit_key),
                                        forig,
                                        config,
                                    ));
                                }
                                self.fetch_unit.next_pc();
                                let ghost rf0 = self.register_file;
                                self.register_file.add_common_task(&func_inst);
                                proof {
                                    lemma_rf_issued_congruent(
                                        rf0,
                                        self.register_file,
                                        func_inst,
                                        forig,
                                    );
                                }
                            }
                            Ok(())
                        }
                    },
                    Inst::Mem(mem_inst) => {
                        proof {
                            assert(orig is Mem);
                            assert(mem_inst == orig->Mem_0);
                        }
                        if !mem_inst.check_valid() {
                            return Err(SimError::UnsupportedInstruction);
                        }
                        let can_unit = self.memory_unit.can_accept_new_instruction(mem_inst.dir);
                        let can_reg = self.register_file.can_issue_memory_instruction(&mem_inst);
                        let headroom = counts_have_headroom(&self.register_file);
                        proof {
                            assert(can_unit == spec_lsu_accepts(old(self).memory_unit, mem_inst.dir));
                        }
                        if can_unit && can_reg && headroom {
                            let pc = self.fetch_unit.get_pc();
                            proof {
                                let w = choose|i: int|
                                    0 <= i < (match mem_inst.dir {
                                        crate::inst::mem::Direction::Read => self.memory_unit.read_port_used@.len(),
                                        crate::inst::mem::Direction::Write => self.memory_unit.write_port_used@.len(),
                                    }) && self.memory_unit.spec_port_accepts(mem_inst.dir, i);
                                assert(match mem_inst.dir {
                                    crate::inst::mem::Direction::Read => self.memory_unit.read_port_used@[w] is None,
                                    crate::inst::mem::Direction::Write => self.memory_unit.write_port_used@[w] is None,
                                });
                            }
                            let port_index = match self.memory_unit.issue(mem_inst, pc, &config) {
                                Ok(p) => p,
                                Err(e) => {
                                    return Err(e);
                                },
                            };
                            let ghost rf0 = self.register_file;
                            self.register_file.add_mem_task(&mem_inst, port_index);
                            self.fetch_unit.next_pc();
                            proof {
                                assert(spec_lsu_issued(
                                    old(self).memory_unit,
                                    self.memory_unit,
                                    mem_inst,
                                    pc0,
                                    port_index,
                                    config,
                                ));
                                assert(spec_rf_mem_issued(
                                    rf0,
                                    self.register_file,
                                    mem_inst,
                                    port_index,
                                ));
                            }
                        }
                        Ok(())
                    },
                }
            },
        }
    }

    /// The bounded main loop: ticks until the front end is drained and
    /// every unit is idle, or until the safety cap.  An invalid vector
    /// shape is rejected before any cycle executes; the cycle count is
    /// returned on completion.  A returned count `n` is the length of a
    /// chain of `n` ticks (`spec_run_rel`): each started from a
    /// non-quiescent state and composed of the six phases in their fixed
    /// order, so `n` is the first quiescent index, capped at the limit.
    pub fn main_sim_loop(&mut self) -> (r: Result<u32, SimError>)
        requires
            old(self).wf(),
        ensures
            final(self).wf(),
            final(self).config == old(self).config,
            final(self).fetch_unit.inst_memory@ == old(self).fetch_unit.inst_memory@,
            !old(self).config.vector_config.spec_is_valid() ==> r == Err::<u32, SimError>(
                SimError::ConfigInvalid,
            ) && *final(self) == *old(self),
            r matches Ok(n) ==> n <= MAX_SIM_CYCLES && (n < MAX_SIM_CYCLES
                ==> final(self).spec_quiescent()),
            r matches Ok(n) ==> spec_run_rel(*old(self), *final(self), n as int),
    {
        if !self.config.vector_config.is_valid() {
            return Err(SimError::ConfigInvalid);
        }
        let mut total_cycle: u32 = 0;
        proof {
            assert(spec_run_rel(*old(self), *self, 0));
        }
        loop
            invariant
                self.wf(),
                total_cycle <= MAX_SIM_CYCLES,
                old(self).config.vector_config.spec_is_valid(),
                self.config == old(self).config,
                self.fetch_unit.inst_memory@ == old(self).fetch_unit.inst_memory@,
                spec_run_rel(*old(self), *self, total_cycle as int),
            ensures
                self.wf(),
                total_cycle <= MAX_SIM_CYCLES,
                total_cycle == MAX_SIM_CYCLES || self.spec_quiescent(),
                self.config == old(self).config,
                self.fetch_unit.inst_memory@ == old(self).fetch_unit.inst_memory@,
                spec_run_rel(*old(self), *self, total_cycle as int),
            decreases MAX_SIM_CYCLES - total_cycle,
        {
            if self.is_simulation_end() {
                break;
            }
            if total_cycle >= MAX_SIM_CYCLES {
                break;
            }
            let ghost t0 = *self;
            proof {
                assert(spec_run_rel(*old(self), t0, total_cycle as int));
                assert(!t0.spec_quiescent());
            }
            match self.handle_register_file() {
                Ok(_) => {},
                Err(e) => {
                    return Err(e);
                },
            }
            let ghost t1 = *self;
            match self.auto_increase_memory_data() {
                Ok(_) => {},
                Err(e) => {
                    return Err(e);
                },
            }
            let ghost t2 = *self;
            match self.auto_increase_memory_write_consumed_bytes() {
                Ok(_) => {},
                Err(e) => {
                    return Err(e);
                },
            }
            let ghost t3 = *self;
            match self.finish_read_port_writing_to_register() {
                Ok(_) => {},
                Err(e) => {
                    return Err(e);
                },
            }
            let ghost t4 = *self;
            match self.handle_unit_event_queue() {
                Ok(_) => {},
                Err(e) => {
                    return Err(e);
                },
            }
            let ghost t5 = *self;
            let issue_res = self.try_issue();
            match issue_res {
                Ok(_) => {},
                Err(e) => {
                    return Err(e);
                },
            }
            proof {
                assert(issue_res is Ok);
                assert(issue_res == Ok::<(), SimError>(issue_res->Ok_0));
                assert(Simulator::spec_phase_registers_rel(t0, t1));
                assert(spec_phase_autofill_rel(t1, t2));
                assert(spec_phase_autoconsume_rel(t2, t3));
                assert(spec_phase_retire_rel(t3, t4));
                assert(spec_phase_units_rel(t4, t5));
                assert(spec_issue_step(t5, *self, Ok(())));
                assert(spec_tick_rel(t0, *self));
                assert(spec_run_rel(*old(self), *self, total_cycle + 1)) by {
                    assert(spec_run_rel(*old(self), t0, (total_cycle + 1) - 1));
                    assert(!t0.spec_quiescent());
                    assert(spec_tick_rel(t0, *self));
                }
            }
            total_cycle = total_cycle + 1;
        }
        Ok(total_cycle)
    }

    /// All units report idle and the front end is drained.
    fn is_simulation_end(&self) -> (r: bool)
        ensures
            r == self.spec_quiescent(),
    {
        let fetch_empty = self.fetch_unit.is_empty();
        let units_empty = self.vector_alu.is_empty() && self.vector_mul.is_empty()
            && self.vector_div.is_empty() && self.vector_slide.is_empty()
            && self.vector_macc.is_empty() && self.integer_alu.is_empty()
            && self.integer_div.is_empty() && self.float_alu.is_empty()
            && self.float_mul.is_empty() && self.float_div.is_empty();
        let memory_empty = self.memory_unit.is_empty();
        fetch_empty && units_empty && memory_empty
    }
}

} // verus!
