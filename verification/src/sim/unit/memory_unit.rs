use vstd::prelude::*;
use crate::config::SimulatorConfig;
use crate::error::SimError;
use crate::inst::Inst;
use crate::inst::mem::{Direction, MemInst};
use crate::sim::register::RegisterType;
use crate::sim::unit::buffer::{
    BufferEvent, BufferEventResult, BufferOwnerType, BufferPair, EnhancedResource, Resource,
    ResourceType, ResultBuffer, spec_count_memory, spec_count_register, spec_last_memory_current,
    spec_last_register_current, spec_min, spec_non_memory_all_full,
};

verus! {

pub type PortNumberIdType = usize;

/// The identity of one load or store port.
#[derive(Clone, Copy, Debug, PartialEq, Eq, Hash, Structural)]
pub enum MemoryUnitKeyType {
    Load(PortNumberIdType),
    Store(PortNumberIdType),
}

/// The byte cursor of one memory access in flight on a port: `current_pos`
/// of `total_bytes` bytes have moved, at most `bytes_per_cycle` per cycle.
#[derive(Clone, Copy, Debug, PartialEq, Eq, Structural)]
pub struct MemoryPortEventGenerator {
    pub index: usize,
    pub bytes_per_cycle: u32,
    pub raw_inst: MemInst,
    pub total_bytes: u32,
    pub current_pos: u32,
}

impl MemoryPortEventGenerator {
    pub fn new(index: usize, raw_inst: MemInst, config: &SimulatorConfig) -> (r:
        MemoryPortEventGenerator)
        requires
            config.wf(),
        ensures
            r == (MemoryPortEventGenerator {
                index,
                bytes_per_cycle: config.memory_units.load_store_unit.max_access_width,
                raw_inst,
                total_bytes: raw_inst.reg.spec_get_bytes(*config) as u32,
                current_pos: 0u32,
            }),
    {
        let total = raw_inst.get_total_bytes(config);
        MemoryPortEventGenerator {
            index,
            bytes_per_cycle: config.get_max_access_width(),
            raw_inst,
            total_bytes: total,
            current_pos: 0,
        }
    }
}

/// What one busy port transfers this cycle: the source bytes not yet
/// moved, capped by the per-cycle bandwidth.
pub open spec fn spec_port_update(src: int, pos: int, bpc: int) -> int {
    spec_min(if src >= pos { src - pos } else { 0 }, bpc)
}

/// The bytes the source side of a busy read port offers: the memory input,
/// once every register input is full.
pub open spec fn spec_read_src(input: Seq<Resource>) -> int {
    if !spec_non_memory_all_full(input) {
        0
    } else {
        spec_last_memory_current(input)
    }
}

/// The load/store unit: `R` read ports and `W` write ports, each a buffer
/// pair and an optional access in flight.
#[derive(Debug, PartialEq, Eq)]
pub struct LoadStoreUnit {
    pub latency: u32,
    pub max_access_width: u32,
    pub read_port_buffer: Vec<BufferPair>,
    pub write_port_buffer: Vec<BufferPair>,
    pub read_port_used: Vec<Option<MemoryPortEventGenerator>>,
    pub write_port_used: Vec<Option<MemoryPortEventGenerator>>,
}

/// Well-formedness of one busy port: the cursor stays within the access,
/// the result destination's target is the access size, and byte
/// conservation holds: deposited bytes (drained or not) equal the cursor.
pub open spec fn port_wf(
    buffer: BufferPair,
    used: Option<MemoryPortEventGenerator>,
    is_read: bool,
) -> bool {
    &&& buffer.wf()
    &&& match used {
        Some(g) => {
            &&& g.current_pos <= g.total_bytes
            &&& buffer.result_buffer.destination matches Some(d) && {
                &&& d.target_size == g.total_bytes
                &&& d.current_size + d.consumed_bytes == g.current_pos
                &&& match d.resource_type {
                    ResourceType::Register(rt) => rt.spec_id_ok(),
                    ResourceType::Memory => true,
                }
            }
            &&& buffer.input_buffer.resource@.len() == 2
            &&& buffer.input_buffer.resource@[0].resource_type is Register
            &&& buffer.input_buffer.resource@[1].target_size == g.total_bytes
            &&& (if is_read {
                buffer.input_buffer.resource@[1].resource_type is Memory
            } else {
                buffer.input_buffer.resource@[1].resource_type is Register
            })
        },
        None => true,
    }
}

impl LoadStoreUnit {
    pub open spec fn wf(self) -> bool {
        &&& self.read_port_buffer@.len() == self.read_port_used@.len()
        &&& self.write_port_buffer@.len() == self.write_port_used@.len()
        &&& forall|i: int|
            0 <= i < self.read_port_used@.len() ==> port_wf(
                #[trigger] self.read_port_buffer@[i],
                self.read_port_used@[i],
                true,
            )
        &&& forall|i: int|
            0 <= i < self.write_port_used@.len() ==> port_wf(
                #[trigger] self.write_port_buffer@[i],
                self.write_port_used@[i],
                false,
            )
    }

    pub fn new(latency: u32, max_access_width: u32, config: &SimulatorConfig) -> (r: LoadStoreUnit)
        ensures
            r.wf(),
            r.latency == latency,
            r.max_access_width == max_access_width,
            r.read_port_used@.len() == config.memory_units.load_store_unit.read_ports_limit,
            r.write_port_used@.len() == config.memory_units.load_store_unit.write_ports_limit,
            forall|i: int|
                0 <= i < r.read_port_used@.len() ==> (#[trigger] r.read_port_used@[i]) is None,
            forall|i: int|
                0 <= i < r.write_port_used@.len() ==> (#[trigger] r.write_port_used@[i]) is None,
            forall|i: int|
                0 <= i < r.read_port_buffer@.len() ==> (
                #[trigger] r.read_port_buffer@[i]).result_buffer.destination is None,
            forall|i: int|
                0 <= i < r.write_port_buffer@.len() ==> (
                #[trigger] r.write_port_buffer@[i]).result_buffer.destination is None,
    {
        let read_port_count = config.get_memory_read_ports_limit();
        let write_port_count = config.get_memory_write_ports_limit();
        let mut read_port_buffer: Vec<BufferPair> = Vec::new();
        let mut write_port_buffer: Vec<BufferPair> = Vec::new();
        let mut read_port_used: Vec<Option<MemoryPortEventGenerator>> = Vec::new();
        let mut write_port_used: Vec<Option<MemoryPortEventGenerator>> = Vec::new();
        let mut i: usize = 0;
        while i < read_port_count
            invariant
                read_port_buffer@.len() == i,
                read_port_used@.len() == i,
                i <= read_port_count,
                forall|k: int| 0 <= k < i ==> (#[trigger] read_port_used@[k]) is None,
                forall|k: int|
                    0 <= k < i ==> (#[trigger] read_port_buffer@[k]).wf()
                        && read_port_buffer@[k].result_buffer.destination is None,
            decreases read_port_count - i,
        {
            read_port_buffer.push(
                BufferPair::new_with_owner(BufferOwnerType::MemoryUnit(MemoryUnitKeyType::Load(i))),
            );
            read_port_used.push(None);
            i = i + 1;
        }
        let mut j: usize = 0;
        while j < write_port_count
            invariant
                write_port_buffer@.len() == j,
                write_port_used@.len() == j,
                j <= write_port_count,
                forall|k: int| 0 <= k < j ==> (#[trigger] write_port_used@[k]) is None,
                forall|k: int|
                    0 <= k < j ==> (#[trigger] write_port_buffer@[k]).wf()
                        && write_port_buffer@[k].result_buffer.destination is None,
            decreases write_port_count - j,
        {
            write_port_buffer.push(
                BufferPair::new_with_owner(
                    BufferOwnerType::MemoryUnit(MemoryUnitKeyType::Store(j)),
                ),
            );
            write_port_used.push(None);
            j = j + 1;
        }
        LoadStoreUnit {
            latency,
            max_access_width,
            read_port_buffer,
            write_port_buffer,
            read_port_used,
            write_port_used,
        }
    }

    pub fn new_from_config(config: &SimulatorConfig) -> (r: LoadStoreUnit)
        ensures
            r.wf(),
            r.latency == config.memory_units.load_store_unit.latency,
            r.max_access_width == config.memory_units.load_store_unit.max_access_width,
            r.read_port_used@.len() == config.memory_units.load_store_unit.read_ports_limit,
            r.write_port_used@.len() == config.memory_units.load_store_unit.write_ports_limit,
            forall|i: int|
                0 <= i < r.read_port_used@.len() ==> (#[trigger] r.read_port_used@[i]) is None,
            forall|i: int|
                0 <= i < r.write_port_used@.len() ==> (#[trigger] r.write_port_used@[i]) is None,
            forall|i: int|
                0 <= i < r.read_port_buffer@.len() ==> (
                #[trigger] r.read_port_buffer@[i]).result_buffer.destination is None,
            forall|i: int|
                0 <= i < r.write_port_buffer@.len() ==> (
                #[trigger] r.write_port_buffer@[i]).result_buffer.destination is None,
    {
        LoadStoreUnit::new(
            config.memory_units.load_store_unit.latency,
            config.memory_units.load_store_unit.max_access_width,
            config,
        )
    }

    /// Whether a port may take a fresh access: it is idle and its stale
    /// result, if any, holds no undrained bytes.
    pub open spec fn spec_port_accepts(self, dir: Direction, port_index: int) -> bool {
        match dir {
            Direction::Read => self.read_port_used@[port_index] is None && match self
                .read_port_buffer@[port_index].result_buffer.destination {
                Some(d) => d.current_size == 0,
                None => true,
            },
            Direction::Write => self.write_port_used@[port_index] is None && match self
                .write_port_buffer@[port_index].result_buffer.destination {
                Some(d) => d.current_size == 0,
                None => true,
            },
        }
    }

    pub fn can_port_accept_new_instruction(&self, dir: Direction, port_index: usize) -> (r: bool)
        requires
            self.wf(),
            match dir {
                Direction::Read => port_index < self.read_port_used@.len(),
                Direction::Write => port_index < self.write_port_used@.len(),
            },
        ensures
            r == self.spec_port_accepts(dir, port_index as int),
    {
        match dir {
            Direction::Read => {
                if self.read_port_used[port_index].is_some() {
                    return false;
                }
                match &self.read_port_buffer[port_index].result_buffer.destination {
                    Some(destination) => destination.current_size == 0,
                    None => true,
                }
            },
            Direction::Write => {
                if self.write_port_used[port_index].is_some() {
                    return false;
                }
                match &self.write_port_buffer[port_index].result_buffer.destination {
                    Some(destination) => destination.current_size == 0,
                    None => true,
                }
            },
        }
    }

    pub fn can_accept_new_instruction(&self, dir: Direction) -> (r: bool)
        requires
            self.wf(),
        ensures
            r == exists|i: int|
                0 <= i < (match dir {
                    Direction::Read => self.read_port_used@.len(),
                    Direction::Write => self.write_port_used@.len(),
                }) && self.spec_port_accepts(dir, i),
    {
        let count = match dir {
            Direction::Read => self.read_port_used.len(),
            Direction::Write => self.write_port_used.len(),
        };
        let mut i: usize = 0;
        while i < count
            invariant
                self.wf(),
                i <= count,
                count == (match dir {
                    Direction::Read => self.read_port_used@.len(),
                    Direction::Write => self.write_port_used@.len(),
                }),
                forall|k: int| 0 <= k < i ==> !self.spec_port_accepts(dir, k),
            decreases count - i,
        {
            if self.can_port_accept_new_instruction(dir, i) {
                return true;
            }
            i = i + 1;
        }
        false
    }

    pub fn has_free_port(&self, dir: Direction) -> (r: bool)
        ensures
            r == exists|i: int|
                0 <= i < (match dir {
                    Direction::Read => self.read_port_used@.len(),
                    Direction::Write => self.write_port_used@.len(),
                }) && (match dir {
                    Direction::Read => self.read_port_used@[i] is None,
                    Direction::Write => self.write_port_used@[i] is None,
                }),
    {
        let count = match dir {
            Direction::Read => self.read_port_used.len(),
            Direction::Write => self.write_port_used.len(),
        };
        let mut i: usize = 0;
        while i < count
            invariant
                i <= count,
                count == (match dir {
                    Direction::Read => self.read_port_used@.len(),
                    Direction::Write => self.write_port_used@.len(),
                }),
                forall|k: int|
                    0 <= k < i ==> !(match dir {
                        Direction::Read => self.read_port_used@[k] is None,
                        Direction::Write => self.write_port_used@[k] is None,
                    }),
            decreases count - i,
        {
            let free = match dir {
                Direction::Read => self.read_port_used[i].is_none(),
                Direction::Write => self.write_port_used[i].is_none(),
            };
            if free {
                return true;
            }
            i = i + 1;
        }
        false
    }

    /// All ports idle.
    pub fn is_empty(&self) -> (r: bool)
        ensures
            r == ((forall|i: int|
                0 <= i < self.read_port_used@.len() ==> (#[trigger] self.read_port_used@[i]) is None)
                && (forall|i: int|
                0 <= i < self.write_port_used@.len() ==> (
                #[trigger] self.write_port_used@[i]) is None)),
    {
        let mut i: usize = 0;
        while i < self.read_port_used.len()
            invariant
                i <= self.read_port_used@.len(),
                forall|k: int| 0 <= k < i ==> (#[trigger] self.read_port_used@[k]) is None,
            decreases self.read_port_used@.len() - i,
        {
            if self.read_port_used[i].is_some() {
                return false;
            }
            i = i + 1;
        }
        let mut j: usize = 0;
        while j < self.write_port_used.len()
            invariant
                j <= self.write_port_used@.len(),
                forall|k: int| 0 <= k < j ==> (#[trigger] self.write_port_used@[k]) is None,
                forall|k: int|
                    0 <= k < self.read_port_used@.len() ==> (
                    #[trigger] self.read_port_used@[k]) is None,
            decreases self.write_port_used@.len() - j,
        {
            if self.write_port_used[j].is_some() {
                return false;
            }
            j = j + 1;
        }
        true
    }

    /// Route a register-generated buffer event to the addressed port.
    pub fn handle_buffer_event(&mut self, key: MemoryUnitKeyType, event: BufferEvent) -> (r:
        Result<BufferEventResult, SimError>)
        requires
            old(self).wf(),
        ensures
            final(self).wf(),
            final(self).read_port_used@ == old(self).read_port_used@,
            final(self).write_port_used@ == old(self).write_port_used@,
            final(self).latency == old(self).latency,
            final(self).max_access_width == old(self).max_access_width,
            match key {
                MemoryUnitKeyType::Load(i) => {
                    &&& final(self).write_port_buffer@ == old(self).write_port_buffer@
                    &&& (i >= old(self).read_port_buffer@.len() ==> r == Err::<
                        BufferEventResult,
                        SimError,
                    >(SimError::IndexOutOfRange) && *final(self) == *old(self))
                    &&& (i < old(self).read_port_buffer@.len() ==> {
                        &&& forall|k: int|
                            0 <= k < old(self).read_port_buffer@.len() && k != i ==> (
                            #[trigger] final(self).read_port_buffer@[k]) == old(
                                self,
                            ).read_port_buffer@[k]
                        &&& spec_buffer_event_outcome(
                            old(self).read_port_buffer@[i as int],
                            final(self).read_port_buffer@[i as int],
                            event,
                            r,
                        )
                    })
                },
                MemoryUnitKeyType::Store(i) => {
                    &&& final(self).read_port_buffer@ == old(self).read_port_buffer@
                    &&& (i >= old(self).write_port_buffer@.len() ==> r == Err::<
                        BufferEventResult,
                        SimError,
                    >(SimError::IndexOutOfRange) && *final(self) == *old(self))
                    &&& (i < old(self).write_port_buffer@.len() ==> {
                        &&& forall|k: int|
                            0 <= k < old(self).write_port_buffer@.len() && k != i ==> (
                            #[trigger] final(self).write_port_buffer@[k]) == old(
                                self,
                            ).write_port_buffer@[k]
                        &&& spec_buffer_event_outcome(
                            old(self).write_port_buffer@[i as int],
                            final(self).write_port_buffer@[i as int],
                            event,
                            r,
                        )
                    })
                },
            },
    {
        match key {
            MemoryUnitKeyType::Load(i) => {
                if i >= self.read_port_buffer.len() {
                    return Err(SimError::IndexOutOfRange);
                }
                let ghost b0 = self.read_port_buffer@[i as int];
                let buf = &mut self.read_port_buffer[i];
                let res = buf.handle_buffer_event(event);
                proof {
                    lemma_event_preserves_port_wf(
                        b0,
                        self.read_port_buffer@[i as int],
                        self.read_port_used@[i as int],
                        true,
                        event,
                        res,
                    );
                }
                res
            },
            MemoryUnitKeyType::Store(i) => {
                if i >= self.write_port_buffer.len() {
                    return Err(SimError::IndexOutOfRange);
                }
                let ghost b0 = self.write_port_buffer@[i as int];
                let buf = &mut self.write_port_buffer[i];
                let res = buf.handle_buffer_event(event);
                proof {
                    lemma_event_preserves_port_wf(
                        b0,
                        self.write_port_buffer@[i as int],
                        self.write_port_used@[i as int],
                        false,
                        event,
                        res,
                    );
                }
                res
            },
        }
    }
}

/// The bytes the source side of a busy write port offers: the data
/// register's input.
pub open spec fn spec_write_src(input: Seq<Resource>) -> int {
    spec_last_register_current(input)
}

/// The bytes a busy read port moves this cycle.
pub open spec fn spec_read_port_transfer(buf: BufferPair, g: MemoryPortEventGenerator) -> int {
    spec_port_update(
        spec_read_src(buf.input_buffer.resource@),
        g.current_pos as int,
        g.bytes_per_cycle as int,
    )
}

/// The bytes a busy write port moves this cycle.
pub open spec fn spec_write_port_transfer(buf: BufferPair, g: MemoryPortEventGenerator) -> int {
    spec_port_update(
        spec_write_src(buf.input_buffer.resource@),
        g.current_pos as int,
        g.bytes_per_cycle as int,
    )
}

/// What one busy port looks like after its per-cycle transfer: the cursor
/// advances by the transfer, the same bytes are deposited into the result
/// destination, and a port whose access is done and fully drained is
/// released (its input cleared, its result kept for the record).
pub open spec fn spec_port_stepped(
    b0: BufferPair,
    g: MemoryPortEventGenerator,
    upd: int,
    u1: Option<MemoryPortEventGenerator>,
    b1: BufferPair,
) -> bool {
    let pos2 = g.current_pos + upd;
    let d0 = b0.result_buffer.destination->0;
    let d2 = EnhancedResource { current_size: (d0.current_size + upd) as u32, ..d0 };
    if pos2 == g.total_bytes && d0.consumed_bytes == d0.target_size {
        &&& u1 is None
        &&& b1.input_buffer.resource@.len() == 0
        &&& b1.current_instruction is None
        &&& b1.result_buffer == (ResultBuffer {
            destination: Some(d2),
            handle_pc: b0.result_buffer.handle_pc,
        })
    } else {
        &&& u1 == Some(MemoryPortEventGenerator { current_pos: pos2 as u32, ..g })
        &&& b1.input_buffer == b0.input_buffer
        &&& b1.current_instruction == b0.current_instruction
        &&& b1.result_buffer == (ResultBuffer {
            destination: Some(d2),
            handle_pc: b0.result_buffer.handle_pc,
        })
    }
}

impl LoadStoreUnit {
    /// One tick of every port: bytes flow from each busy port's source —
    /// the memory input of a load, the data register of a store — into its
    /// result, at most `bytes_per_cycle` per cycle; finished, fully drained
    /// ports are released.
    pub fn handle_event_queue(&mut self) -> (r: Result<(), SimError>)
        requires
            old(self).wf(),
        ensures
            final(self).wf(),
            r is Ok,
            final(self).latency == old(self).latency,
            final(self).max_access_width == old(self).max_access_width,
            final(self).read_port_used@.len() == old(self).read_port_used@.len(),
            final(self).write_port_used@.len() == old(self).write_port_used@.len(),
            final(self).read_port_buffer@.len() == old(self).read_port_buffer@.len(),
            final(self).write_port_buffer@.len() == old(self).write_port_buffer@.len(),
            forall|i: int|
                0 <= i < old(self).read_port_used@.len()
                    ==> match (#[trigger] old(self).read_port_used@[i]) {
                    None => final(self).read_port_used@[i] is None
                        && final(self).read_port_buffer@[i] == old(self).read_port_buffer@[i],
                    Some(g) => spec_port_stepped(
                        old(self).read_port_buffer@[i],
                        g,
                        spec_read_port_transfer(old(self).read_port_buffer@[i], g),
                        final(self).read_port_used@[i],
                        final(self).read_port_buffer@[i],
                    ),
                },
            forall|i: int|
                0 <= i < old(self).write_port_used@.len()
                    ==> match (#[trigger] old(self).write_port_used@[i]) {
                    None => final(self).write_port_used@[i] is None
                        && final(self).write_port_buffer@[i] == old(self).write_port_buffer@[i],
                    Some(g) => spec_port_stepped(
                        old(self).write_port_buffer@[i],
                        g,
                        spec_write_port_transfer(old(self).write_port_buffer@[i], g),
                        final(self).write_port_used@[i],
                        final(self).write_port_buffer@[i],
                    ),
                },
            spec_lsu_ticked(*old(self), *final(self)),
    {
        let mut i: usize = 0;
        while i < self.read_port_used.len()
            invariant
                self.wf(),
                i <= old(self).read_port_used@.len(),
                self.latency == old(self).latency,
                self.max_access_width == old(self).max_access_width,
                self.read_port_used@.len() == old(self).read_port_used@.len(),
                self.read_port_buffer@.len() == old(self).read_port_buffer@.len(),
                self.write_port_used@ == old(self).write_port_used@,
                self.write_port_buffer@ == old(self).write_port_buffer@,
                forall|k: int|
                    i <= k < old(self).read_port_used@.len() ==> (
                    #[trigger] self.read_port_used@[k]) == old(self).read_port_used@[k]
                        && self.read_port_buffer@[k] == old(self).read_port_buffer@[k],
                forall|k: int|
                    0 <= k < i ==> match (#[trigger] old(self).read_port_used@[k]) {
                        None => self.read_port_used@[k] is None
                            && self.read_port_buffer@[k] == old(self).read_port_buffer@[k],
                        Some(g) => spec_port_stepped(
                            old(self).read_port_buffer@[k],
                            g,
                            spec_read_port_transfer(old(self).read_port_buffer@[k], g),
                            self.read_port_used@[k],
                            self.read_port_buffer@[k],
                        ),
                    },
            decreases old(self).read_port_used@.len() - i,
        {
            let port = self.read_port_used[i];
            match port {
                Some(g) => {
                    proof {
                        let s = self.read_port_buffer@[i as int].input_buffer.resource@;
                        assert(s.len() == 2);
                        assert(s.drop_last() =~= s.subrange(0, 1));
                        assert(s.drop_last().drop_last() =~= Seq::<Resource>::empty());
                        assert(s.drop_last().last() == s[0]);
                        assert(spec_count_memory(s.drop_last().drop_last()) == 0);
                        assert(spec_count_memory(s.drop_last()) == 0);
                        assert(spec_count_memory(s) == 1);
                        assert(spec_last_memory_current(s) == s[1].current_size);
                    }
                    let src = match self.read_port_buffer[i].get_memory_input_current_bytes() {
                        Ok(v) => v,
                        Err(e) => {
                            return Err(e);
                        },
                    };
                    proof {
                        let s = self.read_port_buffer@[i as int].input_buffer.resource@;
                        assert(s[1].wf());
                        assert(src <= g.total_bytes);
                    }
                    let avail = if src >= g.current_pos {
                        src - g.current_pos
                    } else {
                        0
                    };
                    let update = if avail < g.bytes_per_cycle {
                        avail
                    } else {
                        g.bytes_per_cycle
                    };
                    let new_pos = g.current_pos + update;
                    if update > 0 {
                        let mut g2 = g;
                        g2.current_pos = new_pos;
                        self.read_port_used[i] = Some(g2);
                        let res = self.read_port_buffer[i].increase_result(update);
                        proof {
                            assert(res is Ok);
                        }
                    }
                    let completed = self.read_port_buffer[i].is_result_completed();
                    if new_pos == g.total_bytes && completed {
                        self.read_port_used[i] = None;
                        self.read_port_buffer[i].clear();
                    }
                    proof {
                        assert(spec_port_stepped(
                            old(self).read_port_buffer@[i as int],
                            g,
                            spec_read_port_transfer(old(self).read_port_buffer@[i as int], g),
                            self.read_port_used@[i as int],
                            self.read_port_buffer@[i as int],
                        ));
                    }
                },
                None => {},
            }
            i = i + 1;
        }
        let mut j: usize = 0;
        while j < self.write_port_used.len()
            invariant
                self.wf(),
                j <= old(self).write_port_used@.len(),
                self.latency == old(self).latency,
                self.max_access_width == old(self).max_access_width,
                self.read_port_used@.len() == old(self).read_port_used@.len(),
                self.read_port_buffer@.len() == old(self).read_port_buffer@.len(),
                self.write_port_used@.len() == old(self).write_port_used@.len(),
                self.write_port_buffer@.len() == old(self).write_port_buffer@.len(),
                forall|k: int|
                    0 <= k < old(self).read_port_used@.len()
                        ==> match (#[trigger] old(self).read_port_used@[k]) {
                        None => self.read_port_used@[k] is None
                            && self.read_port_buffer@[k] == old(self).read_port_buffer@[k],
                        Some(g) => spec_port_stepped(
                            old(self).read_port_buffer@[k],
                            g,
                            spec_read_port_transfer(old(self).read_port_buffer@[k], g),
                            self.read_port_used@[k],
                            self.read_port_buffer@[k],
                        ),
                    },
                forall|k: int|
                    j <= k < old(self).write_port_used@.len() ==> (
                    #[trigger] self.write_port_used@[k]) == old(self).write_port_used@[k]
                        && self.write_port_buffer@[k] == old(self).write_port_buffer@[k],
                forall|k: int|
                    0 <= k < j ==> match #[trigger] old(self).write_port_used@[k] {
                        None => self.write_port_used@[k] is None && self.write_port_buffer@[k]
                            == old(self).write_port_buffer@[k],
                        Some(g) => spec_port_stepped(
                            old(self).write_port_buffer@[k],
                            g,
                            spec_write_port_transfer(old(self).write_port_buffer@[k], g),
                            self.write_port_used@[k],
                            self.write_port_buffer@[k],
                        ),
                    },
            decreases old(self).write_port_used@.len() - j,
        {
            let port = self.write_port_used[j];
            match port {
                Some(g) => {
                    proof {
                        let s = self.write_port_buffer@[j as int].input_buffer.resource@;
                        assert(s.len() == 2);
                        assert(s.drop_last() =~= s.subrange(0, 1));
                        assert(s.drop_last().drop_last() =~= Seq::<Resource>::empty());
                        assert(s.drop_last().last() == s[0]);
                        assert(spec_count_register(s.drop_last().drop_last()) == 0);
                        assert(spec_count_register(s.drop_last()) == 1);
                        assert(spec_count_register(s) == 2);
                        assert(spec_last_register_current(s) == s[1].current_size);
                    }
                    let src = match self.write_port_buffer[j].get_register_input_current_bytes() {
                        Ok(v) => v,
                        Err(e) => {
                            return Err(e);
                        },
                    };
                    proof {
                        let s = self.write_port_buffer@[j as int].input_buffer.resource@;
                        assert(s[1].wf());
                        assert(src <= g.total_bytes);
                    }
                    let avail = if src >= g.current_pos {
                        src - g.current_pos
                    } else {
                        0
                    };
                    let update = if avail < g.bytes_per_cycle {
                        avail
                    } else {
                        g.bytes_per_cycle
                    };
                    let new_pos = g.current_pos + update;
                    if update > 0 {
                        let mut g2 = g;
                        g2.current_pos = new_pos;
                        self.write_port_used[j] = Some(g2);
                        let res = self.write_port_buffer[j].increase_result(update);
                        proof {
                            assert(res is Ok);
                        }
                    }
                    let completed = self.write_port_buffer[j].is_result_completed();
                    if new_pos == g.total_bytes && completed {
                        self.write_port_used[j] = None;
                        self.write_port_buffer[j].clear();
                    }
                    proof {
                        assert(spec_port_stepped(
                            old(self).write_port_buffer@[j as int],
                            g,
                            spec_write_port_transfer(old(self).write_port_buffer@[j as int], g),
                            self.write_port_used@[j as int],
                            self.write_port_buffer@[j as int],
                        ));
                    }
                },
                None => {},
            }
            j = j + 1;
        }
        Ok(())
    }
}

/// The per-cycle port transfer, as a relation between whole units.
pub open spec fn spec_lsu_ticked(l0: LoadStoreUnit, l1: LoadStoreUnit) -> bool {
    &&& l1.wf()
    &&& l1.latency == l0.latency
    &&& l1.max_access_width == l0.max_access_width
    &&& l1.read_port_used@.len() == l0.read_port_used@.len()
    &&& l1.write_port_used@.len() == l0.write_port_used@.len()
    &&& l1.read_port_buffer@.len() == l0.read_port_buffer@.len()
    &&& l1.write_port_buffer@.len() == l0.write_port_buffer@.len()
    &&& (forall|i: int|
        0 <= i < l0.read_port_used@.len() ==> match (#[trigger] l0.read_port_used@[i]) {
            None => l1.read_port_used@[i] is None && l1.read_port_buffer@[i]
                == l0.read_port_buffer@[i],
            Some(g) => spec_port_stepped(
                l0.read_port_buffer@[i],
                g,
                spec_read_port_transfer(l0.read_port_buffer@[i], g),
                l1.read_port_used@[i],
                l1.read_port_buffer@[i],
            ),
        })
    &&& (forall|i: int|
        0 <= i < l0.write_port_used@.len() ==> match (#[trigger] l0.write_port_used@[i]) {
            None => l1.write_port_used@[i] is None && l1.write_port_buffer@[i]
                == l0.write_port_buffer@[i],
            Some(g) => spec_port_stepped(
                l0.write_port_buffer@[i],
                g,
                spec_write_port_transfer(l0.write_port_buffer@[i], g),
                l1.write_port_used@[i],
                l1.write_port_buffer@[i],
            ),
        })
}

/// The memory auto-refill, as a relation between whole units.
pub open spec fn spec_lsu_autofilled(l0: LoadStoreUnit, l1: LoadStoreUnit) -> bool {
    &&& l1.wf()
    &&& l1.latency == l0.latency
    &&& l1.max_access_width == l0.max_access_width
    &&& l1.read_port_used@ == l0.read_port_used@
    &&& l1.write_port_used@ == l0.write_port_used@
    &&& l1.write_port_buffer@ == l0.write_port_buffer@
    &&& l1.read_port_buffer@.len() == l0.read_port_buffer@.len()
    &&& (forall|i: int|
        0 <= i < l0.read_port_buffer@.len() ==> {
            let b0 = #[trigger] l0.read_port_buffer@[i];
            let b1 = l1.read_port_buffer@[i];
            match l0.read_port_used@[i] {
                None => b1 == b0,
                Some(g) => {
                    &&& b1.input_buffer.resource@ == spec_auto_filled(
                        b0.input_buffer.resource@,
                        g.bytes_per_cycle as int,
                    )
                    &&& b1.result_buffer == b0.result_buffer
                    &&& b1.current_instruction == b0.current_instruction
                    &&& b1.owner == b0.owner
                },
            }
        })
}

/// The write-port auto-consume, as a relation between whole units.
pub open spec fn spec_lsu_autoconsumed(l0: LoadStoreUnit, l1: LoadStoreUnit) -> bool {
    &&& l1.wf()
    &&& l1.latency == l0.latency
    &&& l1.max_access_width == l0.max_access_width
    &&& l1.read_port_used@ == l0.read_port_used@
    &&& l1.write_port_used@ == l0.write_port_used@
    &&& l1.read_port_buffer@ == l0.read_port_buffer@
    &&& l1.write_port_buffer@.len() == l0.write_port_buffer@.len()
    &&& (forall|i: int|
        0 <= i < l0.write_port_buffer@.len() ==> {
            let b0 = #[trigger] l0.write_port_buffer@[i];
            let b1 = l1.write_port_buffer@[i];
            match l0.write_port_used@[i] {
                None => b1 == b0,
                Some(_) => match b0.result_buffer.destination {
                    Some(d) => if d.resource_type is Memory {
                        &&& b1.input_buffer == b0.input_buffer
                        &&& b1.current_instruction == b0.current_instruction
                        &&& b1.owner == b0.owner
                        &&& b1.result_buffer == (ResultBuffer {
                            destination: Some(
                                d.spec_after_consume(
                                    l0.write_port_used@[i]->0.bytes_per_cycle as int,
                                ),
                            ),
                            handle_pc: b0.result_buffer.handle_pc,
                        })
                    } else {
                        b1 == b0
                    },
                    None => b1 == b0,
                },
            }
        })
}

/// The read-port retirement, as a relation between whole units, with the
/// drained registers.
pub open spec fn spec_lsu_retired(
    l0: LoadStoreUnit,
    l1: LoadStoreUnit,
    regs: Seq<RegisterType>,
) -> bool {
    &&& l1.wf()
    &&& l1.latency == l0.latency
    &&& l1.max_access_width == l0.max_access_width
    &&& l1.read_port_used@ == l0.read_port_used@
    &&& l1.write_port_used@ == l0.write_port_used@
    &&& l1.write_port_buffer@ == l0.write_port_buffer@
    &&& l1.read_port_buffer@.len() == l0.read_port_buffer@.len()
    &&& regs == spec_ready_common_list(
        l0.read_port_buffer@,
        l0.read_port_used@,
        l0.read_port_buffer@.len() as int,
    )
    &&& (forall|i: int|
        0 <= i < l0.read_port_buffer@.len() ==> {
            let b0 = #[trigger] l0.read_port_buffer@[i];
            let b1 = l1.read_port_buffer@[i];
            match spec_ready_common_dest(b0, l0.read_port_used@[i]) {
                Some(_) => {
                    &&& b1.input_buffer == b0.input_buffer
                    &&& b1.current_instruction == b0.current_instruction
                    &&& b1.owner == b0.owner
                    &&& b1.result_buffer == (ResultBuffer {
                        destination: Some(
                            b0.result_buffer.destination->0.spec_after_consume(
                                b0.result_buffer.destination->0.current_size as int,
                            ),
                        ),
                        handle_pc: b0.result_buffer.handle_pc,
                    })
                },
                None => b1 == b0,
            }
        })
}

/// The input resources after one cycle of memory auto-refill: once every
/// register input is full, each memory input grows by one bandwidth chunk.
pub open spec fn spec_auto_filled(s: Seq<Resource>, bpc: int) -> Seq<Resource> {
    if !spec_non_memory_all_full(s) {
        s
    } else {
        Seq::new(
            s.len(),
            |j: int|
                if s[j].resource_type is Memory {
                    Resource {
                        current_size: (s[j].current_size + spec_min(
                            bpc,
                            s[j].target_size - s[j].current_size,
                        )) as u32,
                        ..s[j]
                    }
                } else {
                    s[j]
                },
        )
    }
}

/// The scalar or float register a busy read port is ready to write back:
/// its destination, once every byte of the access has arrived.
pub open spec fn spec_ready_common_dest(
    buf: BufferPair,
    used: Option<MemoryPortEventGenerator>,
) -> Option<RegisterType> {
    match used {
        Some(_) => match buf.result_buffer.destination {
            Some(d) => match d.resource_type {
                ResourceType::Register(rt) => if !(rt is VectorRegister) && d.current_size
                    == d.target_size {
                    Some(rt)
                } else {
                    None
                },
                ResourceType::Memory => None,
            },
            None => None,
        },
        None => None,
    }
}

/// The registers of the first `n` read ports that are ready for write-back,
/// in port order.
pub open spec fn spec_ready_common_list(
    bufs: Seq<BufferPair>,
    used: Seq<Option<MemoryPortEventGenerator>>,
    n: int,
) -> Seq<RegisterType>
    decreases n,
{
    if n <= 0 {
        Seq::empty()
    } else {
        spec_ready_common_list(bufs, used, n - 1) + (match spec_ready_common_dest(
            bufs[n - 1],
            used[n - 1],
        ) {
            Some(rt) => seq![rt],
            None => Seq::empty(),
        })
    }
}

/// What accepting `inst` on port `idx` does to the load/store unit: the
/// lowest-indexed free port of the access's direction takes a fresh
/// cursor, and its buffers are set up for the access.
pub open spec fn spec_lsu_issued(
    l0: LoadStoreUnit,
    l1: LoadStoreUnit,
    inst: MemInst,
    pc: usize,
    idx: usize,
    config: SimulatorConfig,
) -> bool {
    let total = inst.reg.spec_get_bytes(config) as u32;
    let g = MemoryPortEventGenerator {
        index: idx,
        bytes_per_cycle: config.memory_units.load_store_unit.max_access_width,
        raw_inst: inst,
        total_bytes: total,
        current_pos: 0u32,
    };
    &&& l1.wf()
    &&& l1.latency == l0.latency
    &&& l1.max_access_width == l0.max_access_width
    &&& match inst.dir {
        Direction::Read => {
            &&& idx < l0.read_port_used@.len()
            &&& l0.read_port_used@[idx as int] is None
            &&& (forall|k: int| 0 <= k < idx ==> (#[trigger] l0.read_port_used@[k]) is Some)
            &&& l1.read_port_used@ == l0.read_port_used@.update(idx as int, Some(g))
            &&& l1.write_port_used@ == l0.write_port_used@
            &&& l1.write_port_buffer@ == l0.write_port_buffer@
            &&& l1.read_port_buffer@.len() == l0.read_port_buffer@.len()
            &&& (forall|k: int|
                0 <= k < l0.read_port_buffer@.len() && k != idx ==> (
                #[trigger] l1.read_port_buffer@[k]) == l0.read_port_buffer@[k])
            &&& ({
                let b = l1.read_port_buffer@[idx as int];
                &&& b.input_buffer.resource@.len() == 2
                &&& b.input_buffer.resource@[0] == (Resource {
                    resource_type: ResourceType::Register(inst.mem_addr.dependency),
                    target_size: 8u32,
                    current_size: 8u32,
                })
                &&& b.input_buffer.resource@[1] == (Resource {
                    resource_type: ResourceType::Memory,
                    target_size: total,
                    current_size: 0u32,
                })
                &&& b.result_buffer == (ResultBuffer {
                    destination: Some(
                        EnhancedResource {
                            resource_type: ResourceType::Register(inst.reg),
                            target_size: total,
                            current_size: 0u32,
                            consumed_bytes: 0u32,
                        },
                    ),
                    handle_pc: Some(pc),
                })
            })
        },
        Direction::Write => {
            &&& idx < l0.write_port_used@.len()
            &&& l0.write_port_used@[idx as int] is None
            &&& (forall|k: int| 0 <= k < idx ==> (#[trigger] l0.write_port_used@[k]) is Some)
            &&& l1.write_port_used@ == l0.write_port_used@.update(idx as int, Some(g))
            &&& l1.read_port_used@ == l0.read_port_used@
            &&& l1.read_port_buffer@ == l0.read_port_buffer@
            &&& l1.write_port_buffer@.len() == l0.write_port_buffer@.len()
            &&& (forall|k: int|
                0 <= k < l0.write_port_buffer@.len() && k != idx ==> (
                #[trigger] l1.write_port_buffer@[k]) == l0.write_port_buffer@[k])
            &&& ({
                let b = l1.write_port_buffer@[idx as int];
                &&& b.input_buffer.resource@.len() == 2
                &&& b.input_buffer.resource@[0] == (Resource {
                    resource_type: ResourceType::Register(inst.mem_addr.dependency),
                    target_size: 8u32,
                    current_size: 8u32,
                })
                &&& b.input_buffer.resource@[1] == (Resource {
                    resource_type: ResourceType::Register(inst.reg),
                    target_size: total,
                    current_size: (if inst.reg is VectorRegister {
                        0u32
                    } else {
                        total
                    }),
                })
                &&& b.result_buffer == (ResultBuffer {
                    destination: Some(
                        EnhancedResource {
                            resource_type: ResourceType::Memory,
                            target_size: total,
                            current_size: 0u32,
                            consumed_bytes: 0u32,
                        },
                    ),
                    handle_pc: Some(pc),
                })
            })
        },
    }
}

impl LoadStoreUnit {
    /// Accept one memory access on the lowest-indexed free port of its
    /// direction.  The address register input counts as resolved at issue
    /// (the hazard check has passed), as does a scalar or float data
    /// register; a vector data register starts empty and is streamed in by
    /// its register task.
    pub fn issue(&mut self, mem_inst: MemInst, pc: usize, config: &SimulatorConfig) -> (r: Result<
        usize,
        SimError,
    >)
        requires
            old(self).wf(),
            config.wf(),
            mem_inst.reg.spec_id_ok(),
            !(mem_inst.mem_addr.dependency is VectorRegister),
            exists|i: int|
                0 <= i < (match mem_inst.dir {
                    Direction::Read => old(self).read_port_used@.len(),
                    Direction::Write => old(self).write_port_used@.len(),
                }) && (match mem_inst.dir {
                    Direction::Read => old(self).read_port_used@[i] is None,
                    Direction::Write => old(self).write_port_used@[i] is None,
                }),
        ensures
            final(self).wf(),
            final(self).latency == old(self).latency,
            final(self).max_access_width == old(self).max_access_width,
            final(self).read_port_used@.len() == old(self).read_port_used@.len(),
            final(self).write_port_used@.len() == old(self).write_port_used@.len(),
            r matches Ok(idx) && {
                let total = mem_inst.reg.spec_get_bytes(*config) as u32;
                let g = MemoryPortEventGenerator {
                    index: idx,
                    bytes_per_cycle: config.memory_units.load_store_unit.max_access_width,
                    raw_inst: mem_inst,
                    total_bytes: total,
                    current_pos: 0u32,
                };
                match mem_inst.dir {
                    Direction::Read => {
                        &&& idx < old(self).read_port_used@.len()
                        &&& old(self).read_port_used@[idx as int] is None
                        &&& (forall|k: int|
                            0 <= k < idx ==> (#[trigger] old(self).read_port_used@[k]) is Some)
                        &&& final(self).read_port_used@ == old(self).read_port_used@.update(
                            idx as int,
                            Some(g),
                        )
                        &&& final(self).write_port_used@ == old(self).write_port_used@
                        &&& final(self).write_port_buffer@ == old(self).write_port_buffer@
                        &&& (forall|k: int|
                            0 <= k < old(self).read_port_buffer@.len() && k != idx ==> (
                            #[trigger] final(self).read_port_buffer@[k]) == old(
                                self,
                            ).read_port_buffer@[k])
                        &&& ({
                            let b = final(self).read_port_buffer@[idx as int];
                            &&& b.input_buffer.resource@.len() == 2
                            &&& b.input_buffer.resource@[0] == (Resource {
                                resource_type: ResourceType::Register(mem_inst.mem_addr.dependency),
                                target_size: 8u32,
                                current_size: 8u32,
                            })
                            &&& b.input_buffer.resource@[1] == (Resource {
                                resource_type: ResourceType::Memory,
                                target_size: total,
                                current_size: 0u32,
                            })
                            &&& b.result_buffer == (ResultBuffer {
                                destination: Some(
                                    EnhancedResource {
                                        resource_type: ResourceType::Register(mem_inst.reg),
                                        target_size: total,
                                        current_size: 0u32,
                                        consumed_bytes: 0u32,
                                    },
                                ),
                                handle_pc: Some(pc),
                            })
                        })
                    },
                    Direction::Write => {
                        &&& idx < old(self).write_port_used@.len()
                        &&& old(self).write_port_used@[idx as int] is None
                        &&& (forall|k: int|
                            0 <= k < idx ==> (#[trigger] old(self).write_port_used@[k]) is Some)
                        &&& final(self).write_port_used@ == old(self).write_port_used@.update(
                            idx as int,
                            Some(g),
                        )
                        &&& final(self).read_port_used@ == old(self).read_port_used@
                        &&& final(self).read_port_buffer@ == old(self).read_port_buffer@
                        &&& (forall|k: int|
                            0 <= k < old(self).write_port_buffer@.len() && k != idx ==> (
                            #[trigger] final(self).write_port_buffer@[k]) == old(
                                self,
                            ).write_port_buffer@[k])
                        &&& ({
                            let b = final(self).write_port_buffer@[idx as int];
                            &&& b.input_buffer.resource@.len() == 2
                            &&& b.input_buffer.resource@[0] == (Resource {
                                resource_type: ResourceType::Register(mem_inst.mem_addr.dependency),
                                target_size: 8u32,
                                current_size: 8u32,
                            })
                            &&& b.input_buffer.resource@[1] == (Resource {
                                resource_type: ResourceType::Register(mem_inst.reg),
                                target_size: total,
                                current_size: (if mem_inst.reg is VectorRegister {
                                    0u32
                                } else {
                                    total
                                }),
                            })
                            &&& b.result_buffer == (ResultBuffer {
                                destination: Some(
                                    EnhancedResource {
                                        resource_type: ResourceType::Memory,
                                        target_size: total,
                                        current_size: 0u32,
                                        consumed_bytes: 0u32,
                                    },
                                ),
                                handle_pc: Some(pc),
                            })
                        })
                    },
                }
            },
            r matches Ok(idx) && spec_lsu_issued(
                *old(self),
                *final(self),
                mem_inst,
                pc,
                idx,
                *config,
            ),
    {
        let total = mem_inst.get_total_bytes(config);
        let is_read = matches!(mem_inst.dir, Direction::Read);
        let count = if is_read {
            self.read_port_used.len()
        } else {
            self.write_port_used.len()
        };
        let mut idx: usize = 0;
        let mut found: bool = false;
        while idx < count && !found
            invariant
                self.wf(),
                *self == *old(self),
                idx <= count,
                is_read == (mem_inst.dir == Direction::Read),
                count == (if is_read {
                    self.read_port_used@.len()
                } else {
                    self.write_port_used@.len()
                }),
                is_read ==> forall|k: int|
                    0 <= k < idx ==> (#[trigger] old(self).read_port_used@[k]) is Some,
                !is_read ==> forall|k: int|
                    0 <= k < idx ==> (#[trigger] old(self).write_port_used@[k]) is Some,
                found ==> idx < count && (if is_read {
                    old(self).read_port_used@[idx as int] is None
                } else {
                    old(self).write_port_used@[idx as int] is None
                }),
            decreases count - idx + (if found {
                0int
            } else {
                1int
            }),
        {
            let free = if is_read {
                self.read_port_used[idx].is_none()
            } else {
                self.write_port_used[idx].is_none()
            };
            if free {
                found = true;
            } else {
                idx = idx + 1;
            }
        }
        proof {
            if !found {
                let w = choose|k: int|
                    0 <= k < (match mem_inst.dir {
                        Direction::Read => old(self).read_port_used@.len(),
                        Direction::Write => old(self).write_port_used@.len(),
                    }) && (match mem_inst.dir {
                        Direction::Read => old(self).read_port_used@[k] is None,
                        Direction::Write => old(self).write_port_used@[k] is None,
                    });
                assert(false);
            }
        }
        let gen = MemoryPortEventGenerator::new(idx, mem_inst, config);
        let dep = mem_inst.mem_addr.dependency;
        let mut input: Vec<Resource> = Vec::new();
        input.push(Resource { resource_type: ResourceType::Register(dep), target_size: 8, current_size: 8 });
        if is_read {
            input.push(Resource { resource_type: ResourceType::Memory, target_size: total, current_size: 0 });
            let buf = &mut self.read_port_buffer[idx];
            let res = buf.set_input(input);
            proof {
                assert(res is Ok);
            }
            buf.set_output(
                EnhancedResource::new(ResourceType::Register(mem_inst.reg), total),
                pc,
            );
            buf.set_current_instruction(Inst::Mem(mem_inst));
            self.read_port_used[idx] = Some(gen);
        } else {
            let fill = if matches!(mem_inst.reg, RegisterType::VectorRegister(_)) {
                0
            } else {
                total
            };
            input.push(
                Resource {
                    resource_type: ResourceType::Register(mem_inst.reg),
                    target_size: total,
                    current_size: fill,
                },
            );
            let buf = &mut self.write_port_buffer[idx];
            let res = buf.set_input(input);
            proof {
                assert(res is Ok);
            }
            buf.set_output(EnhancedResource::new(ResourceType::Memory, total), pc);
            buf.set_current_instruction(Inst::Mem(mem_inst));
            self.write_port_used[idx] = Some(gen);
        }
        Ok(idx)
    }

    /// Memory auto-refill: every busy read port whose register inputs are
    /// all satisfied has its memory input grown by one bandwidth chunk.
    pub fn auto_increase_memory_data(&mut self) -> (r: Result<(), SimError>)
        requires
            old(self).wf(),
        ensures
            final(self).wf(),
            r is Ok,
            final(self).latency == old(self).latency,
            final(self).max_access_width == old(self).max_access_width,
            final(self).read_port_used@ == old(self).read_port_used@,
            final(self).write_port_used@ == old(self).write_port_used@,
            final(self).write_port_buffer@ == old(self).write_port_buffer@,
            final(self).read_port_buffer@.len() == old(self).read_port_buffer@.len(),
            forall|i: int|
                0 <= i < old(self).read_port_buffer@.len() ==> {
                    let b0 = #[trigger] old(self).read_port_buffer@[i];
                    let b1 = final(self).read_port_buffer@[i];
                    match old(self).read_port_used@[i] {
                        None => b1 == b0,
                        Some(g) => {
                            &&& b1.input_buffer.resource@ == spec_auto_filled(
                                b0.input_buffer.resource@,
                                g.bytes_per_cycle as int,
                            )
                            &&& b1.result_buffer == b0.result_buffer
                            &&& b1.current_instruction == b0.current_instruction
                            &&& b1.owner == b0.owner
                        },
                    }
                },
            spec_lsu_autofilled(*old(self), *final(self)),
    {
        let mut i: usize = 0;
        while i < self.read_port_used.len()
            invariant
                self.wf(),
                i <= old(self).read_port_used@.len(),
                self.latency == old(self).latency,
                self.max_access_width == old(self).max_access_width,
                self.read_port_used@ == old(self).read_port_used@,
                self.write_port_used@ == old(self).write_port_used@,
                self.write_port_buffer@ == old(self).write_port_buffer@,
                self.read_port_buffer@.len() == old(self).read_port_buffer@.len(),
                forall|k: int|
                    i <= k < old(self).read_port_buffer@.len() ==> (
                    #[trigger] self.read_port_buffer@[k]) == old(self).read_port_buffer@[k],
                forall|k: int|
                    0 <= k < i ==> {
                        let b0 = #[trigger] old(self).read_port_buffer@[k];
                        let b1 = self.read_port_buffer@[k];
                        match old(self).read_port_used@[k] {
                            None => b1 == b0,
                            Some(g) => {
                                &&& b1.input_buffer.resource@ == spec_auto_filled(
                                    b0.input_buffer.resource@,
                                    g.bytes_per_cycle as int,
                                )
                                &&& b1.result_buffer == b0.result_buffer
                                &&& b1.current_instruction == b0.current_instruction
                                &&& b1.owner == b0.owner
                            },
                        }
                    },
            decreases old(self).read_port_used@.len() - i,
        {
            let port = self.read_port_used[i];
            match port {
                Some(g) => {
                    let all_registers_full = self.read_port_buffer[i].non_memory_inputs_full();
                    let ghost s0 = self.read_port_buffer@[i as int].input_buffer.resource@;
                    let ghost pre = self.read_port_buffer@;
                    if all_registers_full {
                        let len = self.read_port_buffer[i].input_buffer.resource.len();
                        let mut j: usize = 0;
                        while j < len
                            invariant
                                j <= len,
                                i < pre.len(),
                                self.read_port_buffer@.len() == pre.len(),
                                self.wf(),
                                self.latency == old(self).latency,
                                self.max_access_width == old(self).max_access_width,
                                self.read_port_used@ == old(self).read_port_used@,
                                self.write_port_used@ == old(self).write_port_used@,
                                self.write_port_buffer@ == old(self).write_port_buffer@,
                                forall|k: int|
                                    0 <= k < pre.len() && k != i ==> (
                                    #[trigger] self.read_port_buffer@[k]) == pre[k],
                                self.read_port_used@[i as int] == Some(g),
                                spec_non_memory_all_full(s0),
                                s0 == pre[i as int].input_buffer.resource@,
                                ({
                                    let b1 = self.read_port_buffer@[i as int];
                                    let b0 = pre[i as int];
                                    &&& b1.result_buffer == b0.result_buffer
                                    &&& b1.current_instruction == b0.current_instruction
                                    &&& b1.owner == b0.owner
                                    &&& b1.input_buffer.resource@.len() == len
                                    &&& len == s0.len()
                                    &&& (forall|m: int|
                                        0 <= m < j ==> (
                                        #[trigger] b1.input_buffer.resource@[m])
                                            == spec_auto_filled(
                                            s0,
                                            g.bytes_per_cycle as int,
                                        )[m])
                                    &&& (forall|m: int|
                                        j <= m < len ==> (
                                        #[trigger] b1.input_buffer.resource@[m]) == s0[m])
                                }),
                            decreases len - j,
                        {
                            let rt = self.read_port_buffer[i].input_buffer.resource[j];
                            if matches!(rt.resource_type, ResourceType::Memory) {
                                let buf = &mut self.read_port_buffer[i];
                                let rr = &mut buf.input_buffer.resource[j];
                                let _ = rr.append_data(g.bytes_per_cycle);
                            }
                            j = j + 1;
                        }
                        proof {
                            assert(self.read_port_buffer@[i as int].input_buffer.resource@
                                =~= spec_auto_filled(s0, g.bytes_per_cycle as int));
                        }
                    } else {
                        proof {
                            assert(spec_auto_filled(s0, g.bytes_per_cycle as int) == s0);
                        }
                    }
                },
                None => {},
            }
            i = i + 1;
        }
        Ok(())
    }

    /// Write-port auto-consume: the memory-destined result of every busy
    /// write port is drained by one bandwidth chunk per cycle, standing for
    /// the external sink.
    pub fn auto_increase_memory_write_consumed_bytes(&mut self) -> (r: Result<(), SimError>)
        requires
            old(self).wf(),
        ensures
            final(self).wf(),
            r is Ok,
            final(self).latency == old(self).latency,
            final(self).max_access_width == old(self).max_access_width,
            final(self).read_port_used@ == old(self).read_port_used@,
            final(self).write_port_used@ == old(self).write_port_used@,
            final(self).read_port_buffer@ == old(self).read_port_buffer@,
            final(self).write_port_buffer@.len() == old(self).write_port_buffer@.len(),
            forall|i: int|
                0 <= i < old(self).write_port_buffer@.len() ==> {
                    let b0 = #[trigger] old(self).write_port_buffer@[i];
                    let b1 = final(self).write_port_buffer@[i];
                    match old(self).write_port_used@[i] {
                        None => b1 == b0,
                        Some(_) => match b0.result_buffer.destination {
                            Some(d) => if d.resource_type is Memory {
                                &&& b1.input_buffer == b0.input_buffer
                                &&& b1.current_instruction == b0.current_instruction
                                &&& b1.owner == b0.owner
                                &&& b1.result_buffer == (ResultBuffer {
                                    destination: Some(
                                        d.spec_after_consume(
                                            old(self).write_port_used@[i]->0.bytes_per_cycle as int,
                                        ),
                                    ),
                                    handle_pc: b0.result_buffer.handle_pc,
                                })
                            } else {
                                b1 == b0
                            },
                            None => b1 == b0,
                        },
                    }
                },
            spec_lsu_autoconsumed(*old(self), *final(self)),
    {
        let mut i: usize = 0;
        while i < self.write_port_used.len()
            invariant
                self.wf(),
                i <= old(self).write_port_used@.len(),
                self.latency == old(self).latency,
                self.max_access_width == old(self).max_access_width,
                self.read_port_used@ == old(self).read_port_used@,
                self.write_port_used@ == old(self).write_port_used@,
                self.read_port_buffer@ == old(self).read_port_buffer@,
                self.write_port_buffer@.len() == old(self).write_port_buffer@.len(),
                forall|k: int|
                    i <= k < old(self).write_port_buffer@.len() ==> (
                    #[trigger] self.write_port_buffer@[k]) == old(self).write_port_buffer@[k],
                forall|k: int|
                    0 <= k < i ==> {
                        let b0 = #[trigger] old(self).write_port_buffer@[k];
                        let b1 = self.write_port_buffer@[k];
                        match old(self).write_port_used@[k] {
                            None => b1 == b0,
                            Some(_) => match b0.result_buffer.destination {
                                Some(d) => if d.resource_type is Memory {
                                    &&& b1.input_buffer == b0.input_buffer
                                    &&& b1.current_instruction == b0.current_instruction
                                    &&& b1.owner == b0.owner
                                    &&& b1.result_buffer == (ResultBuffer {
                                        destination: Some(
                                            d.spec_after_consume(
                                                old(
                                                    self,
                                                ).write_port_used@[k]->0.bytes_per_cycle as int,
                                            ),
                                        ),
                                        handle_pc: b0.result_buffer.handle_pc,
                                    })
                                } else {
                                    b1 == b0
                                },
                                None => b1 == b0,
                            },
                        }
                    },
            decreases old(self).write_port_used@.len() - i,
        {
            let port = self.write_port_used[i];
            match port {
                Some(g) => {
                    let buf = &mut self.write_port_buffer[i];
                    match &mut buf.result_buffer.destination {
                        Some(d) => {
                            if matches!(d.resource_type, ResourceType::Memory) {
                                let _ = d.consume_data(g.bytes_per_cycle);
                            }
                        },
                        None => {},
                    }
                },
                None => {},
            }
            i = i + 1;
        }
        Ok(())
    }

    /// Read-port retirement: every busy read port whose scalar or float
    /// destination has received all of its bytes is drained now, and the
    /// destination registers are handed back for write-marker clearing.
    pub fn clean_read_port_result_buffer(&mut self) -> (r: Result<Vec<RegisterType>, SimError>)
        requires
            old(self).wf(),
        ensures
            final(self).wf(),
            final(self).latency == old(self).latency,
            final(self).max_access_width == old(self).max_access_width,
            final(self).read_port_used@ == old(self).read_port_used@,
            final(self).write_port_used@ == old(self).write_port_used@,
            final(self).write_port_buffer@ == old(self).write_port_buffer@,
            final(self).read_port_buffer@.len() == old(self).read_port_buffer@.len(),
            r matches Ok(v) && {
                &&& v@ == spec_ready_common_list(
                    old(self).read_port_buffer@,
                    old(self).read_port_used@,
                    old(self).read_port_buffer@.len() as int,
                )
                &&& forall|k: int|
                    0 <= k < v@.len() ==> !((#[trigger] v@[k]) is VectorRegister)
                        && v@[k].spec_id_ok()
                &&& forall|i: int|
                    0 <= i < old(self).read_port_buffer@.len() ==> {
                        let b0 = #[trigger] old(self).read_port_buffer@[i];
                        let b1 = final(self).read_port_buffer@[i];
                        match spec_ready_common_dest(b0, old(self).read_port_used@[i]) {
                            Some(_) => {
                                &&& b1.input_buffer == b0.input_buffer
                                &&& b1.current_instruction == b0.current_instruction
                                &&& b1.owner == b0.owner
                                &&& b1.result_buffer == (ResultBuffer {
                                    destination: Some(
                                        b0.result_buffer.destination->0.spec_after_consume(
                                            b0.result_buffer.destination->0.current_size as int,
                                        ),
                                    ),
                                    handle_pc: b0.result_buffer.handle_pc,
                                })
                            },
                            None => b1 == b0,
                        }
                    }
            },
            r matches Ok(v) && spec_lsu_retired(*old(self), *final(self), v@),
    {
        let mut out: Vec<RegisterType> = Vec::new();
        let mut i: usize = 0;
        while i < self.read_port_used.len()
            invariant
                self.wf(),
                i <= old(self).read_port_used@.len(),
                self.latency == old(self).latency,
                self.max_access_width == old(self).max_access_width,
                self.read_port_used@ == old(self).read_port_used@,
                self.write_port_used@ == old(self).write_port_used@,
                self.write_port_buffer@ == old(self).write_port_buffer@,
                self.read_port_buffer@.len() == old(self).read_port_buffer@.len(),
                out@ == spec_ready_common_list(
                    old(self).read_port_buffer@,
                    old(self).read_port_used@,
                    i as int,
                ),
                forall|k: int|
                    0 <= k < out@.len() ==> !((#[trigger] out@[k]) is VectorRegister)
                        && out@[k].spec_id_ok(),
                forall|k: int|
                    i <= k < old(self).read_port_buffer@.len() ==> (
                    #[trigger] self.read_port_buffer@[k]) == old(self).read_port_buffer@[k],
                forall|k: int|
                    0 <= k < i ==> {
                        let b0 = #[trigger] old(self).read_port_buffer@[k];
                        let b1 = self.read_port_buffer@[k];
                        match spec_ready_common_dest(b0, old(self).read_port_used@[k]) {
                            Some(_) => {
                                &&& b1.input_buffer == b0.input_buffer
                                &&& b1.current_instruction == b0.current_instruction
                                &&& b1.owner == b0.owner
                                &&& b1.result_buffer == (ResultBuffer {
                                    destination: Some(
                                        b0.result_buffer.destination->0.spec_after_consume(
                                            b0.result_buffer.destination->0.current_size as int,
                                        ),
                                    ),
                                    handle_pc: b0.result_buffer.handle_pc,
                                })
                            },
                            None => b1 == b0,
                        }
                    },
            decreases old(self).read_port_used@.len() - i,
        {
            let port = self.read_port_used[i];
            let mut ready: Option<RegisterType> = None;
            match port {
                Some(_) => {
                    let buf = &mut self.read_port_buffer[i];
                    match &mut buf.result_buffer.destination {
                        Some(d) => {
                            match d.resource_type {
                                ResourceType::Register(rt) => {
                                    if !matches!(rt, RegisterType::VectorRegister(_))
                                        && d.current_size == d.target_size {
                                        let cur = d.current_size;
                                        let _ = d.consume_data(cur);
                                        ready = Some(rt);
                                    }
                                },
                                ResourceType::Memory => {},
                            }
                        },
                        None => {},
                    }
                },
                None => {},
            }
            match ready {
                Some(rt) => {
                    out.push(rt);
                },
                None => {},
            }
            i = i + 1;
        }
        Ok(out)
    }
}

/// Byte conservation on a memory port, stated on its own: while an access
/// is in flight, the bytes deposited into the port's result over the
/// access's lifetime — drained or not — equal the bytes its cursor has
/// moved, and never exceed the access's declared width.
pub proof fn lemma_port_byte_conservation(
    buffer: BufferPair,
    used: Option<MemoryPortEventGenerator>,
    is_read: bool,
)
    requires
        port_wf(buffer, used, is_read),
        used is Some,
    ensures
        buffer.result_buffer.destination matches Some(d) && d.current_size + d.consumed_bytes
            == used->0.current_pos,
        used->0.current_pos <= used->0.total_bytes,
{
}

/// A routed buffer event leaves a port well-formed: a producer only grows
/// an input counter within its target, and a consumer moves bytes from
/// present to drained, leaving their sum — the port's conservation — alone.
pub proof fn lemma_event_preserves_port_wf(
    before: BufferPair,
    after: BufferPair,
    used: Option<MemoryPortEventGenerator>,
    is_read: bool,
    event: BufferEvent,
    r: Result<BufferEventResult, SimError>,
)
    requires
        port_wf(before, used, is_read),
        after.wf(),
        spec_buffer_event_outcome(before, after, event, r),
    ensures
        port_wf(after, used, is_read),
{
    match used {
        Some(g) => {
            match event {
                BufferEvent::Producer(p) => {
                    if p.resource_index < before.input_buffer.resource@.len() {
                        assert(after.input_buffer.resource@ == before.input_buffer.spec_after_producer(
                            p,
                        ));
                        assert(after.input_buffer.resource@.len()
                            == before.input_buffer.resource@.len());
                        assert(after.input_buffer.resource@[0].resource_type
                            == before.input_buffer.resource@[0].resource_type);
                        assert(after.input_buffer.resource@[1].resource_type
                            == before.input_buffer.resource@[1].resource_type);
                        assert(after.input_buffer.resource@[1].target_size
                            == before.input_buffer.resource@[1].target_size);
                    }
                },
                BufferEvent::Consumer(c) => {
                    match before.result_buffer.destination {
                        Some(d) => {
                            assert(after.result_buffer.destination == Some(
                                d.spec_after_consume(c.maximum_consume_length as int),
                            ));
                        },
                        None => {},
                    }
                },
            }
        },
        None => {},
    }
}

/// The outcome one buffer pair's `handle_buffer_event` promises, restated
/// so that routing layers can pass it through.
pub open spec fn spec_buffer_event_outcome(
    before: BufferPair,
    after: BufferPair,
    event: BufferEvent,
    r: Result<BufferEventResult, SimError>,
) -> bool {
    &&& after.owner == before.owner
    &&& after.current_instruction == before.current_instruction
    &&& match event {
        BufferEvent::Producer(p) => {
            &&& after.result_buffer == before.result_buffer
            &&& (p.resource_index < before.input_buffer.resource@.len() ==> {
                &&& after.input_buffer.resource@ == before.input_buffer.spec_after_producer(p)
                &&& r == Ok::<BufferEventResult, SimError>(BufferEventResult::Producer(
                    crate::sim::unit::buffer::ProducerEventResult {
                        resource_index: p.resource_index,
                        accepted_length: before.input_buffer.spec_accepted(p) as u32,
                        remaining_bytes: (p.append_length - before.input_buffer.spec_accepted(
                            p,
                        )) as u32,
                    },
                ))
            })
            &&& (p.resource_index >= before.input_buffer.resource@.len() ==> after == before && r
                == Err::<BufferEventResult, SimError>(SimError::IndexOutOfRange))
        },
        BufferEvent::Consumer(c) => {
            &&& after.input_buffer == before.input_buffer
            &&& after.result_buffer.handle_pc == before.result_buffer.handle_pc
            &&& match before.result_buffer.destination {
                Some(d) => {
                    &&& after.result_buffer.destination == Some(
                        d.spec_after_consume(c.maximum_consume_length as int),
                    )
                    &&& r == Ok::<BufferEventResult, SimError>(BufferEventResult::Consumer(
                        crate::sim::unit::buffer::ConsumerEventResult {
                            consumed_bytes: d.spec_consumed(c.maximum_consume_length as int) as u32,
                            remaining_bytes: (d.current_size - d.spec_consumed(
                                c.maximum_consume_length as int,
                            )) as u32,
                        },
                    ))
                },
                None => after == before && r == Err::<BufferEventResult, SimError>(
                    SimError::NoDestination,
                ),
            }
        },
    }
}

} // verus!
