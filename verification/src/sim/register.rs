use vstd::prelude::*;
use crate::config::SimulatorConfig;
use crate::inst::Inst;
use crate::inst::func::FuncInst;
use crate::inst::mem::{Direction, MemInst};
use crate::sim::register::task::{RegisterTask, spec_result_delta, spec_task_event};
use crate::sim::unit::buffer::{BufferEvent, BufferEventResult, spec_min};
use crate::sim::unit::memory_unit::MemoryUnitKeyType;
use crate::sim::unit::{UnitBehavior, UnitKeyType};

pub mod task;

verus! {

pub type RegisterIdType = u32;

/// A register name in one of the three namespaces.
#[derive(Clone, Copy, Debug, PartialEq, Eq, Structural)]
pub enum RegisterType {
    ScalarRegister(RegisterIdType),
    VectorRegister(RegisterIdType),
    FloatRegister(RegisterIdType),
}

impl RegisterType {
    /// Byte width: scalar and float registers hold 8 bytes; a vector
    /// register holds the bytes of the active vector shape.
    pub open spec fn spec_get_bytes(self, config: SimulatorConfig) -> int {
        match self {
            RegisterType::ScalarRegister(_) => 8,
            RegisterType::FloatRegister(_) => 8,
            RegisterType::VectorRegister(_) => config.vector_config.spec_using_bytes(),
        }
    }

    pub open spec fn spec_id_ok(self) -> bool {
        match self {
            RegisterType::ScalarRegister(id) => id < 32,
            RegisterType::VectorRegister(id) => id < 32,
            RegisterType::FloatRegister(id) => id < 32,
        }
    }

    pub fn get_bytes(&self, config: &SimulatorConfig) -> (r: u32)
        requires
            config.wf(),
        ensures
            r == self.spec_get_bytes(*config),
    {
        match self {
            RegisterType::ScalarRegister(_) => 8,
            RegisterType::FloatRegister(_) => 8,
            RegisterType::VectorRegister(_) => config.get_vector_register_using_bytes(),
        }
    }
}

/// How many tasks of a queue carry the given behavior.
pub open spec fn count_tasks(q: Seq<RegisterTask>, b: UnitBehavior) -> int
    decreases q.len(),
{
    if q.len() == 0 {
        0
    } else {
        count_tasks(q.drop_last(), b) + if q.last().behavior == b {
            1int
        } else {
            0int
        }
    }
}

pub proof fn lemma_count_tasks_nonneg(q: Seq<RegisterTask>, b: UnitBehavior)
    ensures
        count_tasks(q, b) >= 0,
    decreases q.len(),
{
    if q.len() > 0 {
        lemma_count_tasks_nonneg(q.drop_last(), b);
    }
}

/// Updating a task without changing its behavior leaves the counts alone.
pub proof fn lemma_count_tasks_update(
    q: Seq<RegisterTask>,
    i: int,
    t: RegisterTask,
    b: UnitBehavior,
)
    requires
        0 <= i < q.len(),
        t.behavior == q[i].behavior,
    ensures
        count_tasks(q.update(i, t), b) == count_tasks(q, b),
    decreases q.len(),
{
    if i == q.len() - 1 {
        assert(q.update(i, t).drop_last() =~= q.drop_last());
    } else {
        assert(q.update(i, t).drop_last() =~= q.drop_last().update(i, t));
        lemma_count_tasks_update(q.drop_last(), i, t, b);
    }
}

pub proof fn lemma_count_tasks_insert0(q: Seq<RegisterTask>, t: RegisterTask, b: UnitBehavior)
    ensures
        count_tasks(q.insert(0, t), b) == count_tasks(q, b) + (if t.behavior == b {
            1int
        } else {
            0int
        }),
    decreases q.len(),
{
    let qi = q.insert(0, t);
    assert(qi.len() == q.len() + 1);
    if q.len() == 0 {
        assert(qi.drop_last() =~= Seq::<RegisterTask>::empty());
        assert(qi.last() == t);
        assert(count_tasks(qi.drop_last(), b) == 0);
        assert(count_tasks(q, b) == 0);
        assert(count_tasks(qi, b) == count_tasks(qi.drop_last(), b) + (if qi.last().behavior == b {
            1int
        } else {
            0int
        }));
    } else {
        assert(qi.drop_last() =~= q.drop_last().insert(0, t));
        assert(qi.last() == qi[q.len() as int]);
        assert(qi[q.len() as int] == q[q.len() - 1]);
        lemma_count_tasks_insert0(q.drop_last(), t, b);
        assert(count_tasks(qi, b) == count_tasks(qi.drop_last(), b) + (if qi.last().behavior == b {
            1int
        } else {
            0int
        }));
        assert(count_tasks(q, b) == count_tasks(q.drop_last(), b) + (if q.last().behavior == b {
            1int
        } else {
            0int
        }));
    }
}

/// A vector register: its FIFO of outstanding tasks (newest at index zero),
/// the two port-occupancy counters, and the cursor of the per-cycle walk.
#[derive(Debug, Clone, PartialEq, Eq)]
pub struct VectorRegister {
    pub id: RegisterIdType,
    pub total_bytes: u32,
    pub write_count: u32,
    pub read_count: u32,
    pub current_index: usize,
    pub task_queue: Vec<RegisterTask>,
}

impl VectorRegister {
    /// Task progress never exceeds the register's byte width, an older task
    /// (higher index) is never behind a newer one, and the walk cursor stays
    /// within the queue.
    pub open spec fn wf(self) -> bool {
        &&& forall|i: int|
            0 <= i < self.task_queue@.len() ==> (#[trigger] self.task_queue@[i]).current_place
                <= self.total_bytes
        &&& forall|i: int, j: int|
            0 <= i <= j < self.task_queue@.len() ==> (
            #[trigger] self.task_queue@[i]).current_place <= (
            #[trigger] self.task_queue@[j]).current_place
        &&& self.current_index <= self.task_queue@.len()
    }

    /// The port counters agree with the queue's contents.
    pub open spec fn counts_coherent(self) -> bool {
        &&& self.read_count == count_tasks(self.task_queue@, UnitBehavior::Read)
        &&& self.write_count == count_tasks(self.task_queue@, UnitBehavior::Write)
    }

    /// How far the task at `index` may advance this cycle, before the
    /// per-cycle forwarding width is considered: an oldest task runs to the
    /// register's end, any other task only up to its elder's progress.
    pub open spec fn spec_max_advance(self, index: int) -> int {
        if index == self.task_queue@.len() - 1 {
            self.total_bytes - self.task_queue@[index].current_place
        } else {
            self.task_queue@[index + 1].current_place - self.task_queue@[index].current_place
        }
    }

    /// The bytes the task at `index` forwards this cycle: capped by the
    /// forwarding width and by `spec_max_advance`.
    pub open spec fn spec_forward_limit(self, index: int, max_forward: u32) -> int {
        spec_min(
            self.spec_max_advance(index),
            spec_min(max_forward as int, self.total_bytes - self.task_queue@[index].current_place),
        )
    }

    /// The event the task at `index` emits this cycle, if any: the oldest
    /// task always emits (possibly for zero bytes, which retires it); a
    /// younger task stays silent when its elder has no new bytes for it.
    pub open spec fn spec_one_task(self, index: int, max_forward: u32) -> Option<BufferEvent> {
        let update = self.spec_forward_limit(index, max_forward);
        if index == self.task_queue@.len() - 1 {
            Some(spec_task_event(self.task_queue@[index], update as u32))
        } else if update == 0 {
            None
        } else {
            Some(spec_task_event(self.task_queue@[index], update as u32))
        }
    }

    pub fn get_current_task_unit_key(&self) -> (r: UnitKeyType)
        requires
            self.current_index < self.task_queue@.len(),
        ensures
            r == self.task_queue@[self.current_index as int].unit_key,
    {
        self.task_queue[self.current_index].unit_key
    }

    /// Start a cycle's walk from past the newest end of the queue.
    pub fn init_current_index(&mut self)
        ensures
            *final(self) == (VectorRegister {
                current_index: old(self).task_queue@.len() as usize,
                ..*old(self)
            }),
    {
        self.current_index = self.task_queue.len();
    }

    pub fn task_queue(&self) -> (r: &Vec<RegisterTask>)
        ensures
            r@ == self.task_queue@,
    {
        &self.task_queue
    }

    /// The event of one task (see `spec_one_task`).
    #[verifier::rlimit(50)]
    pub fn handle_one_task(&self, index: usize, max_forward: u32) -> (r: Option<BufferEvent>)
        requires
            self.wf(),
            index < self.task_queue@.len(),
        ensures
            r == self.spec_one_task(index as int, max_forward),
    {
        let task = self.task_queue[index];
        let cap = self.total_bytes - task.current_place;
        let mut forward_bytes = if max_forward < cap {
            max_forward
        } else {
            cap
        };
        proof {
            assert(forward_bytes == spec_min(max_forward as int, self.total_bytes
                - self.task_queue@[index as int].current_place));
        }
        if index == self.task_queue.len() - 1 {
            proof {
                assert(self.spec_max_advance(index as int) == self.total_bytes
                    - self.task_queue@[index as int].current_place);
                assert(forward_bytes == self.spec_forward_limit(index as int, max_forward));
            }
            Some(task.generate_event(forward_bytes))
        } else {
            let gap = self.task_queue[index + 1].current_place - task.current_place;
            if gap < forward_bytes {
                forward_bytes = gap;
            }
            proof {
                assert(forward_bytes == self.spec_forward_limit(index as int, max_forward));
            }
            if forward_bytes == 0 {
                None
            } else {
                Some(task.generate_event(forward_bytes))
            }
        }
    }

    /// The first task below `start` (walking toward the newest) that emits
    /// an event this cycle, with its index.
    fn find_event(&self, start: usize, max_forward: u32) -> (r: Option<(usize, BufferEvent)>)
        requires
            self.wf(),
            start <= self.task_queue@.len(),
        ensures
            match r {
                Some((i, e)) => {
                    &&& i < start
                    &&& self.spec_one_task(i as int, max_forward) == Some(e)
                    &&& forall|k: int|
                        i < k < start ==> self.spec_one_task(k, max_forward) is None
                },
                None => forall|k: int| 0 <= k < start ==> self.spec_one_task(k, max_forward) is None,
            },
    {
        let mut index = start;
        while index > 0
            invariant
                self.wf(),
                start <= self.task_queue@.len(),
                index <= start,
                forall|k: int|
                    index <= k < start ==> self.spec_one_task(k, max_forward) is None,
            decreases index,
        {
            index = index - 1;
            let ev = self.handle_one_task(index, max_forward);
            match ev {
                Some(e) => {
                    return Some((index, e));
                },
                None => {},
            }
        }
        None
    }

    /// Walk from the cursor toward the newest task and return the first
    /// event some task emits, leaving the cursor on that task.
    pub fn generate_event(&mut self, max_forward: u32) -> (r: Option<BufferEvent>)
        requires
            old(self).wf(),
        ensures
            final(self).task_queue@ == old(self).task_queue@,
            final(self).id == old(self).id,
            final(self).total_bytes == old(self).total_bytes,
            final(self).read_count == old(self).read_count,
            final(self).write_count == old(self).write_count,
            final(self).wf(),
            match r {
                Some(e) => {
                    &&& final(self).current_index < old(self).current_index
                    &&& old(self).spec_one_task(final(self).current_index as int, max_forward)
                        == Some(e)
                    &&& forall|k: int|
                        final(self).current_index < k < old(self).current_index ==> old(
                            self,
                        ).spec_one_task(k, max_forward) is None
                },
                None => {
                    &&& final(self).current_index == old(self).current_index
                    &&& forall|k: int|
                        0 <= k < old(self).current_index ==> old(self).spec_one_task(
                            k,
                            max_forward,
                        ) is None
                },
            },
    {
        let found = self.find_event(self.current_index, max_forward);
        match found {
            Some((index, e)) => {
                self.current_index = index;
                Some(e)
            },
            None => None,
        }
    }

    /// Apply the result of the event the cursor's task emitted: advance its
    /// progress; an oldest task that has reached the register's end retires
    /// and releases its port.
    #[verifier::rlimit(100)]
    pub fn handle_event_result(&mut self, result: BufferEventResult)
        requires
            old(self).wf(),
            old(self).counts_coherent(),
            old(self).current_index < old(self).task_queue@.len(),
            spec_result_delta(result) <= old(self).spec_max_advance(
                old(self).current_index as int,
            ),
        ensures
            final(self).id == old(self).id,
            final(self).total_bytes == old(self).total_bytes,
            final(self).current_index == old(self).current_index,
            final(self).wf(),
            final(self).counts_coherent(),
            ({
                let idx = old(self).current_index as int;
                let t0 = old(self).task_queue@[idx];
                let cp = t0.current_place + spec_result_delta(result);
                if idx == old(self).task_queue@.len() - 1 && cp == old(self).total_bytes {
                    &&& final(self).task_queue@ == old(self).task_queue@.drop_last()
                    &&& final(self).read_count == old(self).read_count - (if t0.behavior
                        == UnitBehavior::Read {
                        1int
                    } else {
                        0int
                    })
                    &&& final(self).write_count == old(self).write_count - (if t0.behavior
                        == UnitBehavior::Write {
                        1int
                    } else {
                        0int
                    })
                } else {
                    &&& final(self).task_queue@ == old(self).task_queue@.update(
                        idx,
                        RegisterTask { current_place: cp as u32, ..t0 },
                    )
                    &&& final(self).read_count == old(self).read_count
                    &&& final(self).write_count == old(self).write_count
                }
            }),
    {
        let idx = self.current_index;
        let mut t = self.task_queue[idx];
        let ghost t0 = t;
        t.handle_result(result);
        self.task_queue[idx] = t;
        proof {
            lemma_count_tasks_update(
                old(self).task_queue@,
                idx as int,
                t,
                UnitBehavior::Read,
            );
            lemma_count_tasks_update(
                old(self).task_queue@,
                idx as int,
                t,
                UnitBehavior::Write,
            );
        }
        let len = self.task_queue.len();
        if idx == len - 1 && t.current_place == self.total_bytes {
            proof {
                assert(self.task_queue@.drop_last() =~= old(self).task_queue@.drop_last());
                lemma_count_tasks_nonneg(old(self).task_queue@.drop_last(), UnitBehavior::Read);
                lemma_count_tasks_nonneg(old(self).task_queue@.drop_last(), UnitBehavior::Write);
            }
            let _ = self.task_queue.pop();
            match t.behavior {
                UnitBehavior::Read => {
                    self.decrease_read_count();
                },
                UnitBehavior::Write => {
                    self.decrease_write_count();
                },
            }
        }
    }

    pub fn get_read_count(&self) -> (r: u32)
        ensures
            r == self.read_count,
    {
        self.read_count
    }

    pub fn get_write_count(&self) -> (r: u32)
        ensures
            r == self.write_count,
    {
        self.write_count
    }

    pub fn decrease_read_count(&mut self)
        requires
            old(self).read_count >= 1,
        ensures
            *final(self) == (VectorRegister {
                read_count: (old(self).read_count - 1) as u32,
                ..*old(self)
            }),
    {
        self.read_count = self.read_count - 1;
    }

    pub fn decrease_write_count(&mut self)
        requires
            old(self).write_count >= 1,
        ensures
            *final(self) == (VectorRegister {
                write_count: (old(self).write_count - 1) as u32,
                ..*old(self)
            }),
    {
        self.write_count = self.write_count - 1;
    }

    pub fn increase_read_count(&mut self)
        requires
            old(self).read_count < u32::MAX,
        ensures
            *final(self) == (VectorRegister {
                read_count: (old(self).read_count + 1) as u32,
                ..*old(self)
            }),
    {
        self.read_count = self.read_count + 1;
    }

    pub fn increase_write_count(&mut self)
        requires
            old(self).write_count < u32::MAX,
        ensures
            *final(self) == (VectorRegister {
                write_count: (old(self).write_count + 1) as u32,
                ..*old(self)
            }),
    {
        self.write_count = self.write_count + 1;
    }
}

/// A scalar or float register: only the marker of an unfinished write.
#[derive(Debug, Clone, PartialEq, Eq)]
pub struct CommonRegister {
    pub id: RegisterIdType,
    pub write_instruction: Option<Inst>,
}

impl CommonRegister {
    pub fn is_in_an_unfinished_write(&self) -> (r: bool)
        ensures
            r == (self.write_instruction is Some),
    {
        self.write_instruction.is_some()
    }

    pub(crate) fn set_write_instruction(&mut self, inst: Inst)
        ensures
            final(self).id == old(self).id,
            final(self).write_instruction == Some(inst),
    {
        self.write_instruction = Some(inst);
    }
}

/// How often a vector register appears among the sources.
pub open spec fn occ_vector(s: Seq<RegisterType>, id: RegisterIdType) -> int
    decreases s.len(),
{
    if s.len() == 0 {
        0
    } else {
        occ_vector(s.drop_last(), id) + (if s.last() == RegisterType::VectorRegister(id) {
            1int
        } else {
            0int
        })
    }
}

pub proof fn lemma_occ_vector_bound(s: Seq<RegisterType>, id: RegisterIdType)
    ensures
        0 <= occ_vector(s, id) <= s.len(),
    decreases s.len(),
{
    if s.len() > 0 {
        lemma_occ_vector_bound(s.drop_last(), id);
    }
}

/// A vector register occurs among the sources iff its occurrence count is
/// positive.
pub proof fn lemma_occ_vector_exists(s: Seq<RegisterType>, id: RegisterIdType)
    ensures
        occ_vector(s, id) >= 1 <==> exists|i: int|
            0 <= i < s.len() && s[i] == RegisterType::VectorRegister(id),
    decreases s.len(),
{
    lemma_occ_vector_bound(s, id);
    if s.len() > 0 {
        lemma_occ_vector_exists(s.drop_last(), id);
        lemma_occ_vector_bound(s.drop_last(), id);
        if s.last() == RegisterType::VectorRegister(id) {
            assert(s[s.len() - 1] == RegisterType::VectorRegister(id));
        } else {
            if occ_vector(s.drop_last(), id) >= 1 {
                let i = choose|i: int|
                    0 <= i < s.drop_last().len() && s.drop_last()[i]
                        == RegisterType::VectorRegister(id);
                assert(s[i] == RegisterType::VectorRegister(id));
            }
            if exists|i: int| 0 <= i < s.len() && s[i] == RegisterType::VectorRegister(id) {
                let i = choose|i: int|
                    0 <= i < s.len() && s[i] == RegisterType::VectorRegister(id);
                assert(i < s.len() - 1);
                assert(s.drop_last()[i] == RegisterType::VectorRegister(id));
            }
        }
    }
}

/// The read tasks a vector instruction with the given sources prepends to
/// register `id`'s queue, newest first: one per occurrence of the register
/// among the sources, each carrying its operand position as the resource
/// index.
pub open spec fn vector_source_tasks(
    resources: Seq<RegisterType>,
    id: RegisterIdType,
    key: UnitKeyType,
) -> Seq<RegisterTask>
    decreases resources.len(),
{
    if resources.len() == 0 {
        Seq::empty()
    } else {
        (if resources.last() == RegisterType::VectorRegister(id) {
            seq![
                RegisterTask {
                    current_place: 0u32,
                    resource_index: (resources.len() - 1) as usize,
                    behavior: UnitBehavior::Read,
                    unit_key: key,
                },
            ]
        } else {
            Seq::<RegisterTask>::empty()
        }) + vector_source_tasks(resources.drop_last(), id, key)
    }
}

/// The register file: 32 scalar, 32 vector and 32 float registers.
#[derive(Debug, PartialEq, Eq)]
pub struct RegisterFile {
    pub scalar_registers: Vec<CommonRegister>,
    pub vector_registers: Vec<VectorRegister>,
    pub float_registers: Vec<CommonRegister>,
}

impl RegisterFile {
    pub open spec fn wf(self) -> bool {
        &&& self.scalar_registers@.len() == 32
        &&& self.vector_registers@.len() == 32
        &&& self.float_registers@.len() == 32
        &&& forall|i: int| 0 <= i < 32 ==> (#[trigger] self.vector_registers@[i]).wf()
        &&& forall|i: int| 0 <= i < 32 ==> (#[trigger] self.vector_registers@[i]).counts_coherent()
    }

    /// A scalar or float register is clean iff no in-flight instruction will
    /// still write it.
    pub open spec fn spec_common_clean(self, reg: RegisterType) -> bool {
        match reg {
            RegisterType::ScalarRegister(id) => self.scalar_registers@[id as int].write_instruction
                is None,
            RegisterType::FloatRegister(id) => self.float_registers@[id as int].write_instruction
                is None,
            RegisterType::VectorRegister(_) => false,
        }
    }

    /// A common (scalar/float) instruction may issue iff none of its source
    /// registers and not its destination carry an unfinished write.
    pub open spec fn spec_can_issue_common(self, inst: FuncInst) -> bool {
        &&& forall|i: int|
            0 <= i < inst.resource@.len() ==> self.spec_common_clean(#[trigger] inst.resource@[i])
        &&& self.spec_common_clean(inst.destination)
    }

    /// A vector instruction may issue iff every scalar/float source is
    /// clean, every vector source has a read port left, and the destination
    /// is a clean common register or a vector register with a write port
    /// left.
    pub open spec fn spec_can_issue_vector(
        self,
        inst: FuncInst,
        read_limit: u32,
        write_limit: u32,
    ) -> bool {
        &&& forall|i: int|
            0 <= i < inst.resource@.len() ==> match #[trigger] inst.resource@[i] {
                RegisterType::VectorRegister(id) => self.vector_registers@[id as int].read_count + 1
                    <= read_limit,
                other => self.spec_common_clean(other),
            }
        &&& match inst.destination {
            RegisterType::VectorRegister(id) => self.vector_registers@[id as int].write_count + 1
                <= write_limit,
            other => self.spec_common_clean(other),
        }
    }

    /// A memory instruction may issue iff its address register is clean
    /// and, for a load, its scalar/float data register is clean.
    pub open spec fn spec_can_issue_memory(self, inst: MemInst) -> bool {
        &&& self.spec_common_clean(inst.mem_addr.dependency)
        &&& (inst.dir == Direction::Read ==> match inst.reg {
            RegisterType::VectorRegister(_) => true,
            other => self.spec_common_clean(other),
        })
    }

    pub fn new(config: &SimulatorConfig) -> (r: RegisterFile)
        requires
            config.wf(),
        ensures
            r.wf(),
            forall|i: int|
                0 <= i < 32 ==> (#[trigger] r.scalar_registers@[i]).write_instruction is None,
            forall|i: int|
                0 <= i < 32 ==> (#[trigger] r.float_registers@[i]).write_instruction is None,
            forall|i: int|
                0 <= i < 32 ==> {
                    let v = #[trigger] r.vector_registers@[i];
                    &&& v.task_queue@.len() == 0
                    &&& v.read_count == 0
                    &&& v.write_count == 0
                    &&& v.total_bytes == config.vector_config.spec_using_bytes()
                },
    {
        let mut scalar_registers: Vec<CommonRegister> = Vec::new();
        let mut vector_registers: Vec<VectorRegister> = Vec::new();
        let mut float_registers: Vec<CommonRegister> = Vec::new();
        let vector_register_bytes = config.get_vector_register_using_bytes();
        let mut id: u32 = 0;
        while id < 32
            invariant
                id <= 32,
                scalar_registers@.len() == id,
                forall|i: int|
                    0 <= i < id ==> (#[trigger] scalar_registers@[i]).write_instruction is None,
            decreases 32 - id,
        {
            scalar_registers.push(CommonRegister { id, write_instruction: None });
            id = id + 1;
        }
        let mut id2: u32 = 0;
        while id2 < 32
            invariant
                id2 <= 32,
                vector_registers@.len() == id2,
                config.wf(),
                vector_register_bytes == config.vector_config.spec_using_bytes(),
                forall|i: int|
                    0 <= i < id2 ==> {
                        let v = #[trigger] vector_registers@[i];
                        &&& v.task_queue@.len() == 0
                        &&& v.read_count == 0
                        &&& v.write_count == 0
                        &&& v.total_bytes == config.vector_config.spec_using_bytes()
                        &&& v.wf()
                        &&& v.counts_coherent()
                    },
            decreases 32 - id2,
        {
            vector_registers.push(
                VectorRegister {
                    id: id2,
                    total_bytes: vector_register_bytes,
                    write_count: 0,
                    read_count: 0,
                    current_index: 0,
                    task_queue: Vec::new(),
                },
            );
            id2 = id2 + 1;
        }
        let mut id3: u32 = 0;
        while id3 < 32
            invariant
                id3 <= 32,
                float_registers@.len() == id3,
                forall|i: int|
                    0 <= i < id3 ==> (#[trigger] float_registers@[i]).write_instruction is None,
            decreases 32 - id3,
        {
            float_registers.push(CommonRegister { id: id3, write_instruction: None });
            id3 = id3 + 1;
        }
        RegisterFile { scalar_registers, vector_registers, float_registers }
    }

    /// Whether a scalar or float register still awaits a write.
    pub fn has_unfinished_writes(&self, reg: &RegisterType) -> (r: bool)
        requires
            self.wf(),
            !(reg is VectorRegister),
            reg.spec_id_ok(),
        ensures
            r == !self.spec_common_clean(*reg),
    {
        match reg {
            RegisterType::ScalarRegister(id) => {
                self.scalar_registers[*id as usize].is_in_an_unfinished_write()
            },
            RegisterType::FloatRegister(id) => {
                self.float_registers[*id as usize].is_in_an_unfinished_write()
            },
            RegisterType::VectorRegister(_) => false,
        }
    }

    pub fn can_issue_common_instruction(&self, func_inst: &FuncInst) -> (r: bool)
        requires
            self.wf(),
            forall|i: int|
                0 <= i < func_inst.resource@.len() ==> !((#[trigger] func_inst.resource@[i])
                    is VectorRegister) && func_inst.resource@[i].spec_id_ok(),
            !(func_inst.destination is VectorRegister),
            func_inst.destination.spec_id_ok(),
        ensures
            r == self.spec_can_issue_common(*func_inst),
    {
        let mut i: usize = 0;
        while i < func_inst.resource.len()
            invariant
                self.wf(),
                i <= func_inst.resource@.len(),
                forall|k: int|
                    0 <= k < func_inst.resource@.len() ==> !((#[trigger] func_inst.resource@[k])
                        is VectorRegister) && func_inst.resource@[k].spec_id_ok(),
                forall|k: int|
                    0 <= k < i ==> self.spec_common_clean(#[trigger] func_inst.resource@[k]),
            decreases func_inst.resource@.len() - i,
        {
            let operand = func_inst.resource[i];
            if self.has_unfinished_writes(&operand) {
                return false;
            }
            i = i + 1;
        }
        if self.has_unfinished_writes(&func_inst.destination) {
            return false;
        }
        true
    }

    pub fn can_issue_vector_instruction(&self, func_inst: &FuncInst, config: &SimulatorConfig)
        -> (r: bool)
        requires
            self.wf(),
            forall|i: int| 0 <= i < func_inst.resource@.len() ==> (#[trigger] func_inst.resource@[i]).spec_id_ok(),
            func_inst.destination.spec_id_ok(),
        ensures
            r == self.spec_can_issue_vector(
                *func_inst,
                config.vector_register.ports.read_ports_limit,
                config.vector_register.ports.write_ports_limit,
            ),
    {
        let read_ports_limit = config.get_vector_register_read_ports_limit();
        let write_ports_limit = config.get_vector_register_write_ports_limit();
        let mut i: usize = 0;
        while i < func_inst.resource.len()
            invariant
                self.wf(),
                i <= func_inst.resource@.len(),
                read_ports_limit == config.vector_register.ports.read_ports_limit,
                forall|k: int|
                    0 <= k < func_inst.resource@.len() ==> (
                    #[trigger] func_inst.resource@[k]).spec_id_ok(),
                forall|k: int|
                    0 <= k < i ==> match #[trigger] func_inst.resource@[k] {
                        RegisterType::VectorRegister(id) => self.vector_registers@[id as int].read_count
                            + 1 <= read_ports_limit,
                        other => self.spec_common_clean(other),
                    },
            decreases func_inst.resource@.len() - i,
        {
            let operand = func_inst.resource[i];
            match operand {
                RegisterType::ScalarRegister(_) | RegisterType::FloatRegister(_) => {
                    if self.has_unfinished_writes(&operand) {
                        return false;
                    }
                },
                RegisterType::VectorRegister(id) => {
                    let current_read_count = self.vector_registers[id as usize].get_read_count();
                    if current_read_count >= read_ports_limit {
                        return false;
                    }
                },
            }
            i = i + 1;
        }
        match func_inst.destination {
            RegisterType::FloatRegister(_) | RegisterType::ScalarRegister(_) => {
                if self.has_unfinished_writes(&func_inst.destination) {
                    return false;
                }
            },
            RegisterType::VectorRegister(id) => {
                let current_write_count = self.vector_registers[id as usize].get_write_count();
                if current_write_count >= write_ports_limit {
                    return false;
                }
            },
        }
        true
    }

    pub(crate) fn can_issue_memory_instruction(&self, mem_inst: &MemInst) -> (r: bool)
        requires
            self.wf(),
            !(mem_inst.mem_addr.dependency is VectorRegister),
            mem_inst.mem_addr.dependency.spec_id_ok(),
            mem_inst.reg.spec_id_ok(),
        ensures
            r == self.spec_can_issue_memory(*mem_inst),
    {
        if self.has_unfinished_writes(&mem_inst.mem_addr.dependency) {
            return false;
        }
        if matches!(mem_inst.dir, Direction::Read) {
            match mem_inst.reg {
                RegisterType::ScalarRegister(_) | RegisterType::FloatRegister(_) => {
                    if self.has_unfinished_writes(&mem_inst.reg) {
                        return false;
                    }
                },
                RegisterType::VectorRegister(_) => {},
            }
        }
        true
    }

    /// Clear the unfinished-write marker of a scalar or float register.
    pub fn clean_write(&mut self, reg: &RegisterType)
        requires
            old(self).wf(),
            !(reg is VectorRegister),
            reg.spec_id_ok(),
        ensures
            final(self).wf(),
            final(self).vector_registers@ == old(self).vector_registers@,
            match *reg {
                RegisterType::ScalarRegister(id) => {
                    &&& final(self).float_registers@ == old(self).float_registers@
                    &&& final(self).scalar_registers@.len() == 32
                    &&& forall|k: int|
                        0 <= k < 32 && k != id ==> (#[trigger] final(self).scalar_registers@[k])
                            == old(self).scalar_registers@[k]
                    &&& final(self).scalar_registers@[id as int].write_instruction is None
                    &&& final(self).scalar_registers@[id as int].id == old(
                        self,
                    ).scalar_registers@[id as int].id
                },
                RegisterType::FloatRegister(id) => {
                    &&& final(self).scalar_registers@ == old(self).scalar_registers@
                    &&& final(self).float_registers@.len() == 32
                    &&& forall|k: int|
                        0 <= k < 32 && k != id ==> (#[trigger] final(self).float_registers@[k])
                            == old(self).float_registers@[k]
                    &&& final(self).float_registers@[id as int].write_instruction is None
                    &&& final(self).float_registers@[id as int].id == old(
                        self,
                    ).float_registers@[id as int].id
                },
                RegisterType::VectorRegister(_) => false,
            },
            spec_markers_only_cleared(*old(self), *final(self)),
    {
        match reg {
            RegisterType::FloatRegister(id) => {
                let r = &mut self.float_registers[*id as usize];
                r.write_instruction = None;
            },
            RegisterType::ScalarRegister(id) => {
                let r = &mut self.scalar_registers[*id as usize];
                r.write_instruction = None;
            },
            RegisterType::VectorRegister(_) => {
                proof {
                    assert(false);
                }
            },
        }
    }

    /// Set the unfinished-write marker of a scalar or float register.
    fn mark_common_write(&mut self, reg: RegisterType, inst: Inst)
        requires
            old(self).wf(),
            !(reg is VectorRegister),
            reg.spec_id_ok(),
        ensures
            final(self).wf(),
            final(self).vector_registers@ == old(self).vector_registers@,
            match reg {
                RegisterType::ScalarRegister(id) => {
                    &&& final(self).float_registers@ == old(self).float_registers@
                    &&& final(self).scalar_registers@.len() == 32
                    &&& forall|k: int|
                        0 <= k < 32 && k != id ==> (#[trigger] final(self).scalar_registers@[k])
                            == old(self).scalar_registers@[k]
                    &&& final(self).scalar_registers@[id as int].write_instruction == Some(inst)
                    &&& final(self).scalar_registers@[id as int].id == old(
                        self,
                    ).scalar_registers@[id as int].id
                },
                RegisterType::FloatRegister(id) => {
                    &&& final(self).scalar_registers@ == old(self).scalar_registers@
                    &&& final(self).float_registers@.len() == 32
                    &&& forall|k: int|
                        0 <= k < 32 && k != id ==> (#[trigger] final(self).float_registers@[k])
                            == old(self).float_registers@[k]
                    &&& final(self).float_registers@[id as int].write_instruction == Some(inst)
                    &&& final(self).float_registers@[id as int].id == old(
                        self,
                    ).float_registers@[id as int].id
                },
                RegisterType::VectorRegister(_) => false,
            },
    {
        match reg {
            RegisterType::ScalarRegister(id) => {
                let r = &mut self.scalar_registers[id as usize];
                r.set_write_instruction(inst);
            },
            RegisterType::FloatRegister(id) => {
                let r = &mut self.float_registers[id as usize];
                r.set_write_instruction(inst);
            },
            RegisterType::VectorRegister(_) => {
                proof {
                    assert(false);
                }
            },
        }
    }

    /// Push one task onto a vector register's queue and take its port.
    fn push_vector_task(&mut self, id: RegisterIdType, task: RegisterTask)
        requires
            old(self).wf(),
            id < 32,
            task.current_place == 0,
            old(self).vector_registers@[id as int].read_count < u32::MAX,
            old(self).vector_registers@[id as int].write_count < u32::MAX,
        ensures
            final(self).wf(),
            final(self).scalar_registers@ == old(self).scalar_registers@,
            final(self).float_registers@ == old(self).float_registers@,
            final(self).vector_registers@.len() == 32,
            forall|k: int|
                0 <= k < 32 && k != id ==> (#[trigger] final(self).vector_registers@[k]) == old(
                    self,
                ).vector_registers@[k],
            ({
                let v0 = old(self).vector_registers@[id as int];
                let v1 = final(self).vector_registers@[id as int];
                &&& v1.task_queue@ == v0.task_queue@.insert(0, task)
                &&& v1.id == v0.id
                &&& v1.total_bytes == v0.total_bytes
                &&& v1.read_count == v0.read_count + (if task.behavior == UnitBehavior::Read {
                    1int
                } else {
                    0int
                })
                &&& v1.write_count == v0.write_count + (if task.behavior == UnitBehavior::Write {
                    1int
                } else {
                    0int
                })
            }),
    {
        proof {
            lemma_count_tasks_insert0(
                old(self).vector_registers@[id as int].task_queue@,
                task,
                UnitBehavior::Read,
            );
            lemma_count_tasks_insert0(
                old(self).vector_registers@[id as int].task_queue@,
                task,
                UnitBehavior::Write,
            );
        }
        let reg = &mut self.vector_registers[id as usize];
        reg.task_queue.insert(0, task);
        match task.behavior {
            UnitBehavior::Read => {
                reg.read_count = reg.read_count + 1;
            },
            UnitBehavior::Write => {
                reg.write_count = reg.write_count + 1;
            },
        }
    }

    /// Record the issue of a common (scalar/float) instruction: mark its
    /// destination as awaiting the write.
    pub fn add_common_task(&mut self, func_inst: &FuncInst)
        requires
            old(self).wf(),
            !(func_inst.destination is VectorRegister),
            func_inst.destination.spec_id_ok(),
        ensures
            final(self).wf(),
            final(self).vector_registers@ == old(self).vector_registers@,
            !final(self).spec_common_clean(func_inst.destination),
            forall|reg: RegisterType|
                !(reg is VectorRegister) && reg.spec_id_ok() && reg != func_inst.destination ==> (
                #[trigger] final(self).spec_common_clean(reg)) == old(self).spec_common_clean(reg),
            spec_rf_common_issued(*old(self), *final(self), *func_inst),
    {
        let inst_record = Inst::Func(func_inst.clone());
        proof {
            assert(inst_record.matches_spec(Inst::Func(*func_inst)));
        }
        self.mark_common_write(func_inst.destination, inst_record);
    }

    /// Record the issue of a vector instruction: a read task and port for
    /// every vector source, a write task and port (or a write marker) for
    /// the destination.
    pub fn add_vector_task(&mut self, func_inst: &FuncInst)
        requires
            old(self).wf(),
            forall|i: int| 0 <= i < func_inst.resource@.len() ==> (#[trigger] func_inst.resource@[i]).spec_id_ok(),
            func_inst.destination.spec_id_ok(),
            forall|k: int|
                0 <= k < 32 ==> (#[trigger] old(self).vector_registers@[k]).read_count
                    + func_inst.resource@.len() < u32::MAX,
            forall|k: int|
                0 <= k < 32 ==> (#[trigger] old(self).vector_registers@[k]).write_count + 1
                    < u32::MAX,
        ensures
            final(self).wf(),
            forall|k: int|
                0 <= k < 32 ==> {
                    let v0 = (#[trigger] old(self).vector_registers@[k]);
                    let v1 = final(self).vector_registers@[k];
                    &&& v1.read_count == v0.read_count + occ_vector(
                        func_inst.resource@,
                        k as RegisterIdType,
                    )
                    &&& v1.write_count == v0.write_count + (if func_inst.destination
                        == RegisterType::VectorRegister(k as RegisterIdType) {
                        1int
                    } else {
                        0int
                    })
                    &&& v1.total_bytes == v0.total_bytes
                    &&& v1.id == v0.id
                },
            match func_inst.destination {
                RegisterType::VectorRegister(_) => {
                    &&& final(self).scalar_registers@ == old(self).scalar_registers@
                    &&& final(self).float_registers@ == old(self).float_registers@
                },
                _ => {
                    &&& !final(self).spec_common_clean(func_inst.destination)
                    &&& forall|reg: RegisterType|
                        !(reg is VectorRegister) && reg.spec_id_ok() && reg
                            != func_inst.destination ==> (
                        #[trigger] final(self).spec_common_clean(reg)) == old(
                            self,
                        ).spec_common_clean(reg)
                },
            },
            spec_rf_vector_issued(*old(self), *final(self), *func_inst),
    {
        let unit_key = UnitKeyType::FuncKey(func_inst.func_unit_key);
        let ghost orig = old(self).vector_registers@;
        proof {
            assert forall|k: int|
                0 <= k < 32 implies #[trigger] vector_source_tasks(
                func_inst.resource@.subrange(0, 0),
                k as RegisterIdType,
                unit_key,
            ) + orig[k].task_queue@ =~= orig[k].task_queue@ by {
                assert(func_inst.resource@.subrange(0, 0).len() == 0);
            }
        }
        let mut i: usize = 0;
        while i < func_inst.resource.len()
            invariant
                self.wf(),
                i <= func_inst.resource@.len(),
                self.scalar_registers@ == old(self).scalar_registers@,
                self.float_registers@ == old(self).float_registers@,
                unit_key == UnitKeyType::FuncKey(func_inst.func_unit_key),
                forall|k: int|
                    0 <= k < func_inst.resource@.len() ==> (
                    #[trigger] func_inst.resource@[k]).spec_id_ok(),
                forall|k: int|
                    0 <= k < 32 ==> (#[trigger] orig[k]).read_count + func_inst.resource@.len()
                        < u32::MAX,
                forall|k: int| 0 <= k < 32 ==> (#[trigger] orig[k]).write_count + 1 < u32::MAX,
                orig == old(self).vector_registers@,
                forall|k: int|
                    0 <= k < 32 ==> {
                        let v0 = (#[trigger] orig[k]);
                        let v1 = self.vector_registers@[k];
                        &&& v1.read_count == v0.read_count + occ_vector(
                            func_inst.resource@.subrange(0, i as int),
                            k as RegisterIdType,
                        )
                        &&& v1.write_count == v0.write_count
                        &&& v1.total_bytes == v0.total_bytes
                        &&& v1.id == v0.id
                        &&& v1.task_queue@ == vector_source_tasks(
                            func_inst.resource@.subrange(0, i as int),
                            k as RegisterIdType,
                            unit_key,
                        ) + v0.task_queue@
                    },
            decreases func_inst.resource@.len() - i,
        {
            let ghost prefix = func_inst.resource@.subrange(0, i as int);
            let operand = func_inst.resource[i];
            proof {
                assert(func_inst.resource@.subrange(0, i + 1).drop_last() =~= prefix);
                assert(func_inst.resource@.subrange(0, i + 1).last() == func_inst.resource@[
                    i as int]);
                assert forall|k: int| 0 <= k < 32 implies #[trigger] occ_vector(
                    func_inst.resource@.subrange(0, i + 1),
                    k as RegisterIdType,
                ) == occ_vector(prefix, k as RegisterIdType) + (if func_inst.resource@[i as int]
                    == RegisterType::VectorRegister(k as RegisterIdType) {
                    1int
                } else {
                    0int
                }) by {}
                assert forall|k: int| 0 <= k < 32 implies #[trigger] vector_source_tasks(
                    func_inst.resource@.subrange(0, i + 1),
                    k as RegisterIdType,
                    unit_key,
                ) == (if func_inst.resource@[i as int] == RegisterType::VectorRegister(
                    k as RegisterIdType,
                ) {
                    seq![
                        RegisterTask {
                            current_place: 0u32,
                            resource_index: i,
                            behavior: UnitBehavior::Read,
                            unit_key,
                        },
                    ]
                } else {
                    Seq::<RegisterTask>::empty()
                }) + vector_source_tasks(prefix, k as RegisterIdType, unit_key) by {}
            }
            match operand {
                RegisterType::VectorRegister(id) => {
                    proof {
                        lemma_occ_vector_bound(prefix, id);
                        assert(self.vector_registers@[id as int].read_count == orig[
                            id as int].read_count + occ_vector(prefix, id));
                        assert(occ_vector(prefix, id) <= i);
                    }
                    let task = RegisterTask::new(i, UnitBehavior::Read, unit_key);
                    let ghost mid = self.vector_registers@;
                    self.push_vector_task(id, task);
                    proof {
                        assert forall|k: int|
                            0 <= k < 32 implies (#[trigger] self.vector_registers@[k]).task_queue@
                                == vector_source_tasks(
                                func_inst.resource@.subrange(0, i + 1),
                                k as RegisterIdType,
                                unit_key,
                            ) + orig[k].task_queue@ by {
                            if k == id {
                                assert(self.vector_registers@[k].task_queue@ == mid[
                                    k].task_queue@.insert(0, task));
                                assert(mid[k].task_queue@.insert(0, task) =~= seq![task] + mid[
                                    k].task_queue@);
                                assert(seq![task] + (vector_source_tasks(
                                    prefix,
                                    k as RegisterIdType,
                                    unit_key,
                                ) + orig[k].task_queue@) =~= (seq![task] + vector_source_tasks(
                                    prefix,
                                    k as RegisterIdType,
                                    unit_key,
                                )) + orig[k].task_queue@);
                            } else {
                                assert(self.vector_registers@[k] == mid[k]);
                                assert(Seq::<RegisterTask>::empty() + vector_source_tasks(
                                    prefix,
                                    k as RegisterIdType,
                                    unit_key,
                                ) =~= vector_source_tasks(prefix, k as RegisterIdType, unit_key));
                            }
                        }
                    }
                },
                _ => {
                    proof {
                        assert forall|k: int|
                            0 <= k < 32 implies #[trigger] vector_source_tasks(
                            func_inst.resource@.subrange(0, i + 1),
                            k as RegisterIdType,
                            unit_key,
                        ) + orig[k].task_queue@ == self.vector_registers@[k].task_queue@ by {
                            assert(Seq::<RegisterTask>::empty() + vector_source_tasks(
                                prefix,
                                k as RegisterIdType,
                                unit_key,
                            ) =~= vector_source_tasks(prefix, k as RegisterIdType, unit_key));
                        }
                    }
                },
            }
            i = i + 1;
        }
        proof {
            assert(func_inst.resource@.subrange(0, func_inst.resource@.len() as int)
                =~= func_inst.resource@);
        }
        match func_inst.destination {
            RegisterType::VectorRegister(id) => {
                proof {
                    lemma_occ_vector_bound(func_inst.resource@, id);
                    assert(self.vector_registers@[id as int].read_count == orig[
                        id as int].read_count + occ_vector(func_inst.resource@, id));
                    assert(self.vector_registers@[id as int].write_count == orig[
                        id as int].write_count);
                }
                let task = RegisterTask::new(0, UnitBehavior::Write, unit_key);
                let ghost mid = self.vector_registers@;
                self.push_vector_task(id, task);
                proof {
                    assert forall|k: int|
                        0 <= k < 32 implies (#[trigger] self.vector_registers@[k]).task_queue@
                            == (if func_inst.destination == RegisterType::VectorRegister(
                            k as RegisterIdType,
                        ) {
                            seq![task]
                        } else {
                            Seq::<RegisterTask>::empty()
                        }) + vector_source_tasks(
                            func_inst.resource@,
                            k as RegisterIdType,
                            unit_key,
                        ) + orig[k].task_queue@ by {
                        if k == id {
                            assert(self.vector_registers@[k].task_queue@ == mid[
                                k].task_queue@.insert(0, task));
                            assert(mid[k].task_queue@.insert(0, task) =~= seq![task] + mid[
                                k].task_queue@);
                            assert(seq![task] + (vector_source_tasks(
                                func_inst.resource@,
                                k as RegisterIdType,
                                unit_key,
                            ) + orig[k].task_queue@) =~= (seq![task] + vector_source_tasks(
                                func_inst.resource@,
                                k as RegisterIdType,
                                unit_key,
                            )) + orig[k].task_queue@);
                        } else {
                            assert(self.vector_registers@[k] == mid[k]);
                            assert(Seq::<RegisterTask>::empty() + (vector_source_tasks(
                                func_inst.resource@,
                                k as RegisterIdType,
                                unit_key,
                            ) + orig[k].task_queue@) =~= vector_source_tasks(
                                func_inst.resource@,
                                k as RegisterIdType,
                                unit_key,
                            ) + orig[k].task_queue@);
                        }
                    }
                }
            },
            RegisterType::ScalarRegister(_) | RegisterType::FloatRegister(_) => {
                let inst_record = Inst::Func(func_inst.clone());
                proof {
                    assert(inst_record.matches_spec(Inst::Func(*func_inst)));
                    assert forall|k: int|
                        0 <= k < 32 implies (#[trigger] self.vector_registers@[k]).task_queue@
                            == (if func_inst.destination == RegisterType::VectorRegister(
                            k as RegisterIdType,
                        ) {
                            seq![
                                RegisterTask {
                                    current_place: 0u32,
                                    resource_index: 0usize,
                                    behavior: UnitBehavior::Write,
                                    unit_key,
                                },
                            ]
                        } else {
                            Seq::<RegisterTask>::empty()
                        }) + vector_source_tasks(
                            func_inst.resource@,
                            k as RegisterIdType,
                            unit_key,
                        ) + orig[k].task_queue@ by {
                        assert(Seq::<RegisterTask>::empty() + (vector_source_tasks(
                            func_inst.resource@,
                            k as RegisterIdType,
                            unit_key,
                        ) + orig[k].task_queue@) =~= vector_source_tasks(
                            func_inst.resource@,
                            k as RegisterIdType,
                            unit_key,
                        ) + orig[k].task_queue@);
                    }
                }
                self.mark_common_write(func_inst.destination, inst_record);
            },
        }
    }

    /// Record the issue of a memory instruction on the given port: a task
    /// and port for a vector data register, a write marker for a
    /// scalar/float load destination.
    pub fn add_mem_task(&mut self, mem_inst: &MemInst, port_index: usize)
        requires
            old(self).wf(),
            mem_inst.reg.spec_id_ok(),
            forall|k: int|
                0 <= k < 32 ==> (#[trigger] old(self).vector_registers@[k]).read_count + 1
                    < u32::MAX,
            forall|k: int|
                0 <= k < 32 ==> (#[trigger] old(self).vector_registers@[k]).write_count + 1
                    < u32::MAX,
        ensures
            final(self).wf(),
            match mem_inst.reg {
                RegisterType::VectorRegister(id) => {
                    &&& final(self).scalar_registers@ == old(self).scalar_registers@
                    &&& final(self).float_registers@ == old(self).float_registers@
                    &&& forall|k: int|
                        0 <= k < 32 && k != id ==> (#[trigger] final(self).vector_registers@[k])
                            == old(self).vector_registers@[k]
                    &&& ({
                        let v0 = old(self).vector_registers@[id as int];
                        let v1 = final(self).vector_registers@[id as int];
                        let b = if mem_inst.dir == Direction::Read {
                            UnitBehavior::Write
                        } else {
                            UnitBehavior::Read
                        };
                        let idx: usize = if mem_inst.dir == Direction::Read {
                            0
                        } else {
                            1
                        };
                        let key = UnitKeyType::MemKey(
                            if mem_inst.dir == Direction::Read {
                                MemoryUnitKeyType::Load(port_index)
                            } else {
                                MemoryUnitKeyType::Store(port_index)
                            },
                        );
                        &&& v1.task_queue@ == v0.task_queue@.insert(
                            0,
                            RegisterTask {
                                current_place: 0u32,
                                resource_index: idx,
                                behavior: b,
                                unit_key: key,
                            },
                        )
                        &&& v1.read_count == v0.read_count + (if b == UnitBehavior::Read {
                            1int
                        } else {
                            0int
                        })
                        &&& v1.write_count == v0.write_count + (if b == UnitBehavior::Write {
                            1int
                        } else {
                            0int
                        })
                        &&& v1.total_bytes == v0.total_bytes
                    })
                },
                _ => {
                    &&& final(self).vector_registers@ == old(self).vector_registers@
                    &&& (mem_inst.dir == Direction::Read ==> !final(self).spec_common_clean(
                        mem_inst.reg,
                    ))
                    &&& (mem_inst.dir == Direction::Write ==> *final(self) == *old(self))
                },
            },
            spec_rf_mem_issued(*old(self), *final(self), *mem_inst, port_index),
    {
        let unit_key = match mem_inst.dir {
            Direction::Read => UnitKeyType::MemKey(MemoryUnitKeyType::Load(port_index)),
            Direction::Write => UnitKeyType::MemKey(MemoryUnitKeyType::Store(port_index)),
        };
        let (behavior, resource_index): (UnitBehavior, usize) = match mem_inst.dir {
            Direction::Read => (UnitBehavior::Write, 0),
            Direction::Write => (UnitBehavior::Read, 1),
        };
        match mem_inst.reg {
            RegisterType::VectorRegister(id) => {
                let task = RegisterTask::new(resource_index, behavior, unit_key);
                self.push_vector_task(id, task);
            },
            RegisterType::FloatRegister(_) => {
                if matches!(mem_inst.dir, Direction::Read) {
                    self.mark_common_write(mem_inst.reg, Inst::Mem(*mem_inst));
                }
            },
            RegisterType::ScalarRegister(_) => {
                if matches!(mem_inst.dir, Direction::Read) {
                    self.mark_common_write(mem_inst.reg, Inst::Mem(*mem_inst));
                }
            },
        }
    }
}

/// The retirement phases may only clear write markers, never set them, and
/// touch nothing else.
pub open spec fn spec_markers_only_cleared(r0: RegisterFile, r1: RegisterFile) -> bool {
    &&& r1.wf()
    &&& r1.vector_registers@ == r0.vector_registers@
    &&& r1.scalar_registers@.len() == 32
    &&& r1.float_registers@.len() == 32
    &&& r0.scalar_registers@.len() == 32
    &&& r0.float_registers@.len() == 32
    &&& (forall|id: int|
        0 <= id < 32 ==> {
            &&& (#[trigger] r1.scalar_registers@[id]).id == r0.scalar_registers@[id].id
            &&& (r1.scalar_registers@[id].write_instruction == r0.scalar_registers@[
                id
            ].write_instruction || r1.scalar_registers@[id].write_instruction is None)
        })
    &&& (forall|id: int|
        0 <= id < 32 ==> {
            &&& (#[trigger] r1.float_registers@[id]).id == r0.float_registers@[id].id
            &&& (r1.float_registers@[id].write_instruction == r0.float_registers@[
                id
            ].write_instruction || r1.float_registers@[id].write_instruction is None)
        })
}

/// Clearing markers is reflexive and composes.
pub proof fn lemma_markers_only_cleared_trans(a: RegisterFile, b: RegisterFile, c: RegisterFile)
    requires
        spec_markers_only_cleared(a, b),
        spec_markers_only_cleared(b, c),
    ensures
        spec_markers_only_cleared(a, c),
{
}

/// The write marker of `dest` now holds (a copy of) `record`, and no other
/// register changed.
pub open spec fn spec_rf_marker_set(
    r0: RegisterFile,
    r1: RegisterFile,
    dest: RegisterType,
    record: Inst,
) -> bool {
    match dest {
        RegisterType::ScalarRegister(id) => {
            &&& r1.float_registers@ == r0.float_registers@
            &&& r1.scalar_registers@.len() == 32
            &&& (forall|k: int|
                0 <= k < 32 && k != id ==> (#[trigger] r1.scalar_registers@[k])
                    == r0.scalar_registers@[k])
            &&& r1.scalar_registers@[id as int].write_instruction matches Some(rec)
                && rec.matches_spec(record)
            &&& r1.scalar_registers@[id as int].id == r0.scalar_registers@[id as int].id
        },
        RegisterType::FloatRegister(id) => {
            &&& r1.scalar_registers@ == r0.scalar_registers@
            &&& r1.float_registers@.len() == 32
            &&& (forall|k: int|
                0 <= k < 32 && k != id ==> (#[trigger] r1.float_registers@[k])
                    == r0.float_registers@[k])
            &&& r1.float_registers@[id as int].write_instruction matches Some(rec)
                && rec.matches_spec(record)
            &&& r1.float_registers@[id as int].id == r0.float_registers@[id as int].id
        },
        RegisterType::VectorRegister(_) => false,
    }
}

/// What recording the issue of a common instruction does to the register
/// file: the destination's write marker is set and nothing else changes.
pub open spec fn spec_rf_common_issued(r0: RegisterFile, r1: RegisterFile, inst: FuncInst) -> bool {
    &&& r1.wf()
    &&& r1.vector_registers@ == r0.vector_registers@
    &&& spec_rf_marker_set(r0, r1, inst.destination, Inst::Func(inst))
}

/// What recording the issue of a vector instruction does to the register
/// file: every vector register gains the read tasks of its occurrences
/// among the sources (newest first), the vector destination gains a write
/// task at the newest end, the port counters move with them, and a
/// scalar/float destination gets its write marker instead.
pub open spec fn spec_rf_vector_issued(r0: RegisterFile, r1: RegisterFile, inst: FuncInst) -> bool {
    let key = UnitKeyType::FuncKey(inst.func_unit_key);
    &&& r1.wf()
    &&& r1.vector_registers@.len() == 32
    &&& (forall|k: int|
        0 <= k < 32 ==> {
            let v0 = (#[trigger] r0.vector_registers@[k]);
            let v1 = r1.vector_registers@[k];
            &&& v1.id == v0.id
            &&& v1.total_bytes == v0.total_bytes
            &&& v1.read_count == v0.read_count + occ_vector(inst.resource@, k as RegisterIdType)
            &&& v1.write_count == v0.write_count + (if inst.destination
                == RegisterType::VectorRegister(k as RegisterIdType) {
                1int
            } else {
                0int
            })
            &&& v1.task_queue@ == (if inst.destination == RegisterType::VectorRegister(
                k as RegisterIdType,
            ) {
                seq![
                    RegisterTask {
                        current_place: 0u32,
                        resource_index: 0usize,
                        behavior: UnitBehavior::Write,
                        unit_key: key,
                    },
                ]
            } else {
                Seq::<RegisterTask>::empty()
            }) + vector_source_tasks(inst.resource@, k as RegisterIdType, key) + v0.task_queue@
        })
    &&& match inst.destination {
        RegisterType::VectorRegister(_) => {
            &&& r1.scalar_registers@ == r0.scalar_registers@
            &&& r1.float_registers@ == r0.float_registers@
        },
        _ => spec_rf_marker_set(r0, r1, inst.destination, Inst::Func(inst)),
    }
}

/// What recording the issue of a memory instruction on port `port_index`
/// does to the register file: a vector data register gains one task and
/// port, a scalar/float load destination gets its write marker, and a
/// scalar/float store leaves the file alone.
pub open spec fn spec_rf_mem_issued(
    r0: RegisterFile,
    r1: RegisterFile,
    inst: MemInst,
    port_index: usize,
) -> bool {
    &&& r1.wf()
    &&& match inst.reg {
        RegisterType::VectorRegister(id) => {
            &&& r1.scalar_registers@ == r0.scalar_registers@
            &&& r1.float_registers@ == r0.float_registers@
            &&& r1.vector_registers@.len() == 32
            &&& (forall|k: int|
                0 <= k < 32 && k != id ==> (#[trigger] r1.vector_registers@[k])
                    == r0.vector_registers@[k])
            &&& ({
                let v0 = r0.vector_registers@[id as int];
                let v1 = r1.vector_registers@[id as int];
                let b = if inst.dir == Direction::Read {
                    UnitBehavior::Write
                } else {
                    UnitBehavior::Read
                };
                let idx: usize = if inst.dir == Direction::Read {
                    0
                } else {
                    1
                };
                let key = UnitKeyType::MemKey(
                    if inst.dir == Direction::Read {
                        MemoryUnitKeyType::Load(port_index)
                    } else {
                        MemoryUnitKeyType::Store(port_index)
                    },
                );
                &&& v1.task_queue@ == v0.task_queue@.insert(
                    0,
                    RegisterTask {
                        current_place: 0u32,
                        resource_index: idx,
                        behavior: b,
                        unit_key: key,
                    },
                )
                &&& v1.read_count == v0.read_count + (if b == UnitBehavior::Read {
                    1int
                } else {
                    0int
                })
                &&& v1.write_count == v0.write_count + (if b == UnitBehavior::Write {
                    1int
                } else {
                    0int
                })
                &&& v1.total_bytes == v0.total_bytes
                &&& v1.id == v0.id
            })
        },
        _ => {
            &&& r1.vector_registers@ == r0.vector_registers@
            &&& (inst.dir == Direction::Read ==> spec_rf_marker_set(
                r0,
                r1,
                inst.reg,
                Inst::Mem(inst),
            ))
            &&& (inst.dir == Direction::Write ==> r1 == r0)
        },
    }
}

/// Two instructions with equal fields (a clone and its source) are
/// interchangeable in every issue-related predicate.
pub proof fn lemma_funcinst_congruent(
    rf: RegisterFile,
    a: FuncInst,
    b: FuncInst,
    config: SimulatorConfig,
    read_limit: u32,
    write_limit: u32,
)
    requires
        a.matches_spec(b),
    ensures
        a.spec_is_vector() == b.spec_is_vector(),
        a.spec_total_bytes(config) == b.spec_total_bytes(config),
        a.spec_valid(config) == b.spec_valid(config),
        rf.spec_can_issue_common(a) == rf.spec_can_issue_common(b),
        rf.spec_can_issue_vector(a, read_limit, write_limit) == rf.spec_can_issue_vector(
            b,
            read_limit,
            write_limit,
        ),
{
    assert(a.resource@ == b.resource@);
    if a.spec_is_vector() {
        let i = choose|i: int|
            0 <= i < a.resource@.len() && a.resource@[i] is VectorRegister;
        assert(b.resource@[i] is VectorRegister);
    }
    if b.spec_is_vector() {
        let i = choose|i: int|
            0 <= i < b.resource@.len() && b.resource@[i] is VectorRegister;
        assert(a.resource@[i] is VectorRegister);
    }
    assert(a.spec_valid(config) ==> b.spec_valid(config)) by {
        if a.spec_valid(config) {
            assert forall|i: int|
                0 <= i < b.resource@.len() implies (#[trigger] b.resource@[i]).spec_id_ok() by {
                assert(a.resource@[i].spec_id_ok());
            }
            if !b.func_unit_key.is_vector_key() {
                assert forall|i: int|
                    0 <= i < b.resource@.len() implies !((#[trigger] b.resource@[i])
                        is VectorRegister) by {
                    assert(!(a.resource@[i] is VectorRegister));
                }
            }
        }
    }
    assert(b.spec_valid(config) ==> a.spec_valid(config)) by {
        if b.spec_valid(config) {
            assert forall|i: int|
                0 <= i < a.resource@.len() implies (#[trigger] a.resource@[i]).spec_id_ok() by {
                assert(b.resource@[i].spec_id_ok());
            }
            if !a.func_unit_key.is_vector_key() {
                assert forall|i: int|
                    0 <= i < a.resource@.len() implies !((#[trigger] a.resource@[i])
                        is VectorRegister) by {
                    assert(!(b.resource@[i] is VectorRegister));
                }
            }
        }
    }
    assert(rf.spec_can_issue_common(a) ==> rf.spec_can_issue_common(b)) by {
        if rf.spec_can_issue_common(a) {
            assert forall|i: int|
                0 <= i < b.resource@.len() implies rf.spec_common_clean(
                #[trigger] b.resource@[i],
            ) by {
                assert(rf.spec_common_clean(a.resource@[i]));
            }
        }
    }
    assert(rf.spec_can_issue_common(b) ==> rf.spec_can_issue_common(a)) by {
        if rf.spec_can_issue_common(b) {
            assert forall|i: int|
                0 <= i < a.resource@.len() implies rf.spec_common_clean(
                #[trigger] a.resource@[i],
            ) by {
                assert(rf.spec_common_clean(b.resource@[i]));
            }
        }
    }
    assert(rf.spec_can_issue_vector(a, read_limit, write_limit) ==> rf.spec_can_issue_vector(
        b,
        read_limit,
        write_limit,
    )) by {
        if rf.spec_can_issue_vector(a, read_limit, write_limit) {
            assert forall|i: int|
                0 <= i < b.resource@.len() implies match #[trigger] b.resource@[i] {
                    RegisterType::VectorRegister(id) => rf.vector_registers@[id as int].read_count
                        + 1 <= read_limit,
                    other => rf.spec_common_clean(other),
                } by {
                assert(match a.resource@[i] {
                    RegisterType::VectorRegister(id) => rf.vector_registers@[id as int].read_count
                        + 1 <= read_limit,
                    other => rf.spec_common_clean(other),
                });
            }
        }
    }
    assert(rf.spec_can_issue_vector(b, read_limit, write_limit) ==> rf.spec_can_issue_vector(
        a,
        read_limit,
        write_limit,
    )) by {
        if rf.spec_can_issue_vector(b, read_limit, write_limit) {
            assert forall|i: int|
                0 <= i < a.resource@.len() implies match #[trigger] a.resource@[i] {
                    RegisterType::VectorRegister(id) => rf.vector_registers@[id as int].read_count
                        + 1 <= read_limit,
                    other => rf.spec_common_clean(other),
                } by {
                assert(match b.resource@[i] {
                    RegisterType::VectorRegister(id) => rf.vector_registers@[id as int].read_count
                        + 1 <= read_limit,
                    other => rf.spec_common_clean(other),
                });
            }
        }
    }
}

/// The register-file issue relations carry over to an instruction with
/// equal fields.
pub proof fn lemma_rf_issued_congruent(r0: RegisterFile, r1: RegisterFile, a: FuncInst, b: FuncInst)
    requires
        a.matches_spec(b),
    ensures
        spec_rf_common_issued(r0, r1, a) ==> spec_rf_common_issued(r0, r1, b),
        spec_rf_vector_issued(r0, r1, a) ==> spec_rf_vector_issued(r0, r1, b),
{
    assert(a.resource@ == b.resource@);
    if spec_rf_vector_issued(r0, r1, a) {
        assert forall|k: int|
            0 <= k < 32 implies {
                let v0 = (#[trigger] r0.vector_registers@[k]);
                let v1 = r1.vector_registers@[k];
                &&& v1.id == v0.id
                &&& v1.total_bytes == v0.total_bytes
                &&& v1.read_count == v0.read_count + occ_vector(b.resource@, k as RegisterIdType)
                &&& v1.write_count == v0.write_count + (if b.destination
                    == RegisterType::VectorRegister(k as RegisterIdType) {
                    1int
                } else {
                    0int
                })
                &&& v1.task_queue@ == (if b.destination == RegisterType::VectorRegister(
                    k as RegisterIdType,
                ) {
                    seq![
                        RegisterTask {
                            current_place: 0u32,
                            resource_index: 0usize,
                            behavior: UnitBehavior::Write,
                            unit_key: UnitKeyType::FuncKey(b.func_unit_key),
                        },
                    ]
                } else {
                    Seq::<RegisterTask>::empty()
                }) + vector_source_tasks(
                    b.resource@,
                    k as RegisterIdType,
                    UnitKeyType::FuncKey(b.func_unit_key),
                ) + v0.task_queue@
            } by {
            assert(r1.vector_registers@[k].read_count == r0.vector_registers@[k].read_count
                + occ_vector(a.resource@, k as RegisterIdType));
        }
    }
}

/// Port-limit enforcement: when the issue check admits a vector
/// instruction whose vector sources are pairwise distinct, recording its
/// tasks keeps every register's port counters within the configured
/// limits.
pub proof fn lemma_port_limit_enforcement(
    before: RegisterFile,
    after: RegisterFile,
    inst: FuncInst,
    read_limit: u32,
    write_limit: u32,
)
    requires
        before.wf(),
        forall|id: RegisterIdType| id < 32 ==> occ_vector(inst.resource@, id) <= 1,
        forall|k: int|
            0 <= k < 32 ==> {
                &&& (#[trigger] before.vector_registers@[k]).read_count <= read_limit
                &&& before.vector_registers@[k].write_count <= write_limit
            },
        before.spec_can_issue_vector(inst, read_limit, write_limit),
        after.vector_registers@.len() == 32,
        forall|k: int|
            0 <= k < 32 ==> {
                let v0 = (#[trigger] before.vector_registers@[k]);
                let v1 = after.vector_registers@[k];
                &&& v1.read_count == v0.read_count + occ_vector(
                    inst.resource@,
                    k as RegisterIdType,
                )
                &&& v1.write_count == v0.write_count + (if inst.destination
                    == RegisterType::VectorRegister(k as RegisterIdType) {
                    1int
                } else {
                    0int
                })
            },
    ensures
        forall|k: int|
            0 <= k < 32 ==> {
                &&& (#[trigger] after.vector_registers@[k]).read_count <= read_limit
                &&& after.vector_registers@[k].write_count <= write_limit
            },
{
    assert forall|k: int| 0 <= k < 32 implies {
        &&& (#[trigger] after.vector_registers@[k]).read_count <= read_limit
        &&& after.vector_registers@[k].write_count <= write_limit
    } by {
        let id = k as RegisterIdType;
        assert(before.vector_registers@[k].read_count <= read_limit);
        assert(before.vector_registers@[k].write_count <= write_limit);
        lemma_occ_vector_bound(inst.resource@, id);
        lemma_occ_vector_exists(inst.resource@, id);
        if occ_vector(inst.resource@, id) >= 1 {
            let i = choose|i: int|
                0 <= i < inst.resource@.len() && inst.resource@[i] == RegisterType::VectorRegister(
                    id,
                );
            assert(match inst.resource@[i] {
                RegisterType::VectorRegister(id2) => before.vector_registers@[id2 as int].read_count
                    + 1 <= read_limit,
                other => before.spec_common_clean(other),
            });
        }
        if inst.destination == RegisterType::VectorRegister(id) {
            assert(before.vector_registers@[id as int].write_count + 1 <= write_limit);
        }
    }
}

/// Hazard correctness: while a scalar or float register carries an
/// unfinished write, no common instruction that reads it or would
/// overwrite it passes the issue check.
pub proof fn lemma_hazard_blocks_issue(rf: RegisterFile, inst: FuncInst, reg: RegisterType)
    requires
        rf.wf(),
        !rf.spec_common_clean(reg),
        inst.destination == reg || exists|i: int|
            0 <= i < inst.resource@.len() && inst.resource@[i] == reg,
    ensures
        !rf.spec_can_issue_common(inst),
{
    if inst.destination == reg {
    } else {
        let i = choose|i: int| 0 <= i < inst.resource@.len() && inst.resource@[i] == reg;
        assert(rf.spec_can_issue_common(inst) ==> rf.spec_common_clean(inst.resource@[i]));
    }
}

/// The bytes an emitted buffer event asks to move.
pub open spec fn spec_event_bytes(e: BufferEvent) -> int {
    match e {
        BufferEvent::Producer(p) => p.append_length as int,
        BufferEvent::Consumer(c) => c.maximum_consume_length as int,
    }
}

/// The forwarding bound: no event a register task emits in one cycle asks
/// to move more than the configured per-cycle forwarding width.
pub proof fn lemma_forwarding_bound(reg: VectorRegister, index: int, max_forward: u32)
    requires
        reg.wf(),
        0 <= index < reg.task_queue@.len(),
    ensures
        match reg.spec_one_task(index, max_forward) {
            Some(e) => spec_event_bytes(e) <= max_forward,
            None => true,
        },
{
}

} // verus!
