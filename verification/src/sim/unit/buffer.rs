use vstd::prelude::*;
use crate::error::SimError;
use crate::inst::Inst;
use crate::sim::register::RegisterType;
use crate::sim::unit::function_unit::FunctionUnitKeyType;
use crate::sim::unit::memory_unit::MemoryUnitKeyType;

verus! {

pub open spec fn spec_min(a: int, b: int) -> int {
    if a < b {
        a
    } else {
        b
    }
}

/// What a buffered resource stands for: bytes of a register, or bytes of
/// memory.
#[derive(Clone, Copy, Debug, PartialEq, Eq, Structural)]
pub enum ResourceType {
    Register(RegisterType),
    Memory,
}

/// An input-side byte counter: `current_size` of `target_size` bytes have
/// arrived.
#[derive(Clone, Copy, Debug, PartialEq, Eq, Structural)]
pub struct Resource {
    pub resource_type: ResourceType,
    pub target_size: u32,
    pub current_size: u32,
}

impl Resource {
    /// The counter never runs past its target.
    pub open spec fn wf(self) -> bool {
        self.current_size <= self.target_size
    }

    pub fn new(resource_type: ResourceType, target_size: u32) -> (r: Resource)
        ensures
            r == (Resource { resource_type, target_size, current_size: 0u32 }),
            r.wf(),
    {
        Resource { resource_type, target_size, current_size: 0 }
    }

    pub fn is_full(&self) -> (r: bool)
        ensures
            r == (self.current_size >= self.target_size),
    {
        self.current_size >= self.target_size
    }

    pub fn remaining_capacity(&self) -> (r: u32)
        ensures
            r == if self.target_size > self.current_size {
                self.target_size - self.current_size
            } else {
                0
            },
    {
        if self.target_size > self.current_size {
            self.target_size - self.current_size
        } else {
            0
        }
    }

    /// Absorb at most `append_length` bytes, capped by the remaining
    /// capacity; returns how many were accepted.
    pub fn append_data(&mut self, append_length: u32) -> (r: u32)
        requires
            old(self).wf(),
        ensures
            r == spec_min(append_length as int, old(self).target_size - old(self).current_size),
            *final(self) == (Resource {
                current_size: (old(self).current_size + r) as u32,
                ..*old(self)
            }),
            final(self).wf(),
    {
        let available_space = self.remaining_capacity();
        let actual_append = if available_space < append_length {
            available_space
        } else {
            append_length
        };
        self.current_size = self.current_size + actual_append;
        actual_append
    }

    /// Give up at most `consume_length` bytes, capped by what is present;
    /// returns how many were taken.
    pub fn consume_data(&mut self, consume_length: u32) -> (r: u32)
        ensures
            r == spec_min(old(self).current_size as int, consume_length as int),
            *final(self) == (Resource {
                current_size: (old(self).current_size - r) as u32,
                ..*old(self)
            }),
    {
        let actual_consume = if self.current_size < consume_length {
            self.current_size
        } else {
            consume_length
        };
        self.current_size = self.current_size - actual_consume;
        actual_consume
    }
}

/// A result-side byte counter that also tracks how many bytes its consumer
/// has already drained.
#[derive(Clone, Copy, Debug, PartialEq, Eq, Structural)]
pub struct EnhancedResource {
    pub resource_type: ResourceType,
    pub target_size: u32,
    pub current_size: u32,
    pub consumed_bytes: u32,
}

impl EnhancedResource {
    /// Everything deposited so far, drained or not, fits the target.
    pub open spec fn wf(self) -> bool {
        self.current_size + self.consumed_bytes <= self.target_size
    }

    /// How many of `n` offered bytes the resource accepts.
    pub open spec fn spec_accepted(self, n: int) -> int {
        spec_min(n, self.target_size - self.current_size)
    }

    /// The resource after an append of `n` bytes.
    pub open spec fn spec_after_append(self, n: int) -> EnhancedResource {
        EnhancedResource {
            current_size: (self.current_size + self.spec_accepted(n)) as u32,
            ..self
        }
    }

    /// How many bytes a consumer asking for `max` bytes takes.
    pub open spec fn spec_consumed(self, max: int) -> int {
        spec_min(max, self.current_size as int)
    }

    /// The resource after a consume of at most `max` bytes.
    pub open spec fn spec_after_consume(self, max: int) -> EnhancedResource {
        EnhancedResource {
            current_size: (self.current_size - self.spec_consumed(max)) as u32,
            consumed_bytes: (self.consumed_bytes + self.spec_consumed(max)) as u32,
            ..self
        }
    }

    pub fn new(resource_type: ResourceType, target_size: u32) -> (r: EnhancedResource)
        ensures
            r == (EnhancedResource {
                resource_type,
                target_size,
                current_size: 0u32,
                consumed_bytes: 0u32,
            }),
            r.wf(),
    {
        EnhancedResource { resource_type, target_size, current_size: 0, consumed_bytes: 0 }
    }

    pub fn is_full(&self) -> (r: bool)
        ensures
            r == (self.current_size >= self.target_size),
    {
        self.current_size >= self.target_size
    }

    pub fn remaining_capacity(&self) -> (r: u32)
        ensures
            r == if self.target_size > self.current_size {
                self.target_size - self.current_size
            } else {
                0
            },
    {
        if self.target_size > self.current_size {
            self.target_size - self.current_size
        } else {
            0
        }
    }

    /// The result-resource invariant `current + consumed <= target` is kept
    /// whenever the offered bytes fit what the instruction still owes; the
    /// units' byte conservation supplies that bound at every call.
    pub fn append_data(&mut self, append_length: u32) -> (r: u32)
        requires
            old(self).current_size <= old(self).target_size,
        ensures
            r == old(self).spec_accepted(append_length as int),
            *final(self) == old(self).spec_after_append(append_length as int),
            old(self).current_size + old(self).consumed_bytes + append_length <= old(
                self,
            ).target_size ==> final(self).wf(),
    {
        let available_space = self.remaining_capacity();
        let actual_append = if available_space < append_length {
            available_space
        } else {
            append_length
        };
        self.current_size = self.current_size + actual_append;
        actual_append
    }

    pub fn consume_data(&mut self, consume_length: u32) -> (r: u32)
        requires
            old(self).wf(),
        ensures
            r == old(self).spec_consumed(consume_length as int),
            *final(self) == old(self).spec_after_consume(consume_length as int),
            final(self).wf(),
    {
        let actual_consume = if self.current_size < consume_length {
            self.current_size
        } else {
            consume_length
        };
        self.current_size = self.current_size - actual_consume;
        self.consumed_bytes = self.consumed_bytes + actual_consume;
        actual_consume
    }

    /// Bytes present and not yet drained.
    pub fn total_processed_bytes(&self) -> (r: u32)
        ensures
            r == self.current_size,
    {
        self.current_size
    }

    /// Complete iff every target byte has been drained by the consumer.
    pub fn is_completed(&self) -> (r: bool)
        ensures
            r == (self.consumed_bytes == self.target_size),
    {
        self.consumed_bytes == self.target_size
    }
}

/// A producer event: deposit `append_length` bytes into the input resource
/// at `resource_index`.
#[derive(Clone, Copy, Debug, PartialEq, Eq, Structural)]
pub struct ProducerEvent {
    pub resource_index: usize,
    pub append_length: u32,
}

impl ProducerEvent {
    pub fn new(resource_index: usize, append_length: u32) -> (r: ProducerEvent)
        ensures
            r == (ProducerEvent { resource_index, append_length }),
    {
        ProducerEvent { resource_index, append_length }
    }
}

/// A consumer event: drain at most `maximum_consume_length` bytes from the
/// result destination.
#[derive(Clone, Copy, Debug, PartialEq, Eq, Structural)]
pub struct ConsumerEvent {
    pub maximum_consume_length: u32,
}

impl ConsumerEvent {
    pub fn new(maximum_consume_length: u32) -> (r: ConsumerEvent)
        ensures
            r == (ConsumerEvent { maximum_consume_length }),
    {
        ConsumerEvent { maximum_consume_length }
    }
}

#[derive(Clone, Copy, Debug, PartialEq, Eq, Structural)]
pub enum BufferEvent {
    Producer(ProducerEvent),
    Consumer(ConsumerEvent),
}

#[derive(Clone, Copy, Debug, PartialEq, Eq, Structural)]
pub struct ProducerEventResult {
    pub resource_index: usize,
    pub accepted_length: u32,
    pub remaining_bytes: u32,
}

impl ProducerEventResult {
    pub fn new(resource_index: usize, accepted_length: u32, remaining_length: u32) -> (r:
        ProducerEventResult)
        ensures
            r == (ProducerEventResult {
                resource_index,
                accepted_length,
                remaining_bytes: remaining_length,
            }),
    {
        ProducerEventResult { resource_index, accepted_length, remaining_bytes: remaining_length }
    }
}

#[derive(Clone, Copy, Debug, PartialEq, Eq, Structural)]
pub struct ConsumerEventResult {
    pub consumed_bytes: u32,
    pub remaining_bytes: u32,
}

impl ConsumerEventResult {
    pub fn new(consumed_bytes: u32, remaining_bytes: u32) -> (r: ConsumerEventResult)
        ensures
            r == (ConsumerEventResult { consumed_bytes, remaining_bytes }),
    {
        ConsumerEventResult { consumed_bytes, remaining_bytes }
    }
}

#[derive(Clone, Copy, Debug, PartialEq, Eq, Structural)]
pub enum BufferEventResult {
    Producer(ProducerEventResult),
    Consumer(ConsumerEventResult),
}

/// The ordered input resources of one unit or port.
#[derive(Debug, Clone, PartialEq, Eq)]
pub struct InputBuffer {
    pub resource: Vec<Resource>,
}

impl InputBuffer {
    pub open spec fn wf(self) -> bool {
        forall|i: int| 0 <= i < self.resource@.len() ==> (#[trigger] self.resource@[i]).wf()
    }

    pub fn new_from_global() -> (r: InputBuffer)
        ensures
            r.resource@.len() == 0,
            r.wf(),
    {
        InputBuffer { resource: Vec::new() }
    }

    pub fn set_resource(&mut self, resource: Vec<Resource>) -> (r: Result<(), SimError>)
        ensures
            final(self).resource@ == resource@,
            r is Ok,
    {
        self.resource = resource;
        Ok(())
    }

    pub fn is_empty(&self) -> (r: bool)
        ensures
            r == (self.resource@.len() == 0),
    {
        self.resource.len() == 0
    }

    /// How many bytes the addressed resource accepts of `p`.
    pub open spec fn spec_accepted(self, p: ProducerEvent) -> int {
        spec_min(
            p.append_length as int,
            self.resource@[p.resource_index as int].target_size
                - self.resource@[p.resource_index as int].current_size,
        )
    }

    /// The input resources after applying `p`.
    pub open spec fn spec_after_producer(self, p: ProducerEvent) -> Seq<Resource> {
        self.resource@.update(
            p.resource_index as int,
            Resource {
                current_size: (self.resource@[p.resource_index as int].current_size
                    + self.spec_accepted(p)) as u32,
                ..self.resource@[p.resource_index as int]
            },
        )
    }

    /// Apply a producer event: the addressed resource absorbs what fits;
    /// an out-of-range index is the error `IndexOutOfRange`.
    pub fn handle_producer_event(&mut self, event: &ProducerEvent) -> (r: Result<
        ProducerEventResult,
        SimError,
    >)
        requires
            old(self).wf(),
        ensures
            final(self).wf(),
            event.resource_index < old(self).resource@.len() ==> {
                &&& final(self).resource@ == old(self).spec_after_producer(*event)
                &&& r == Ok::<ProducerEventResult, SimError>(ProducerEventResult {
                    resource_index: event.resource_index,
                    accepted_length: old(self).spec_accepted(*event) as u32,
                    remaining_bytes: (event.append_length - old(self).spec_accepted(
                        *event,
                    )) as u32,
                })
            },
            event.resource_index >= old(self).resource@.len() ==> {
                &&& *final(self) == *old(self)
                &&& r == Err::<ProducerEventResult, SimError>(SimError::IndexOutOfRange)
            },
    {
        if event.resource_index >= self.resource.len() {
            return Err(SimError::IndexOutOfRange);
        }
        let idx = event.resource_index;
        let mut res = self.resource[idx];
        let accepted_length = res.append_data(event.append_length);
        self.resource[idx] = res;
        let remaining_length = event.append_length - accepted_length;
        Ok(
            ProducerEventResult {
                resource_index: idx,
                accepted_length,
                remaining_bytes: remaining_length,
            },
        )
    }
}

/// The single result destination of one unit or port, tagged with the
/// program counter of the instruction that set it.
#[derive(Debug, Clone, PartialEq, Eq)]
pub struct ResultBuffer {
    pub destination: Option<EnhancedResource>,
    pub handle_pc: Option<usize>,
}

impl ResultBuffer {
    pub open spec fn wf(self) -> bool {
        self.destination matches Some(d) ==> d.wf()
    }

    pub fn new_from_global() -> (r: ResultBuffer)
        ensures
            r == (ResultBuffer { destination: None::<EnhancedResource>, handle_pc: None::<usize> }),
    {
        ResultBuffer { destination: None, handle_pc: None }
    }

    pub fn set_destination(&mut self, destination: EnhancedResource, pc: usize) -> (r: Result<
        (),
        &'static str,
    >)
        ensures
            *final(self) == (ResultBuffer { destination: Some(destination), handle_pc: Some(pc) }),
            r is Ok,
    {
        self.destination = Some(destination);
        self.handle_pc = Some(pc);
        Ok(())
    }

    /// Apply a consumer event: the destination gives up what it holds, up to
    /// the asked length; with no destination set, the error `NoDestination`.
    pub fn handle_consumer_event(&mut self, event: &ConsumerEvent) -> (r: Result<
        ConsumerEventResult,
        SimError,
    >)
        requires
            old(self).wf(),
        ensures
            final(self).wf(),
            final(self).handle_pc == old(self).handle_pc,
            match old(self).destination {
                Some(d) => {
                    &&& final(self).destination == Some(
                        d.spec_after_consume(event.maximum_consume_length as int),
                    )
                    &&& r == Ok::<ConsumerEventResult, SimError>(ConsumerEventResult {
                        consumed_bytes: d.spec_consumed(event.maximum_consume_length as int) as u32,
                        remaining_bytes: (d.current_size - d.spec_consumed(
                            event.maximum_consume_length as int,
                        )) as u32,
                    })
                },
                None => {
                    &&& *final(self) == *old(self)
                    &&& r == Err::<ConsumerEventResult, SimError>(SimError::NoDestination)
                },
            },
    {
        match &mut self.destination {
            Some(destination) => {
                let consume_length = if event.maximum_consume_length < destination.current_size {
                    event.maximum_consume_length
                } else {
                    destination.current_size
                };
                let consumed_bytes = destination.consume_data(consume_length);
                let remaining_bytes = destination.current_size;
                Ok(ConsumerEventResult { consumed_bytes, remaining_bytes })
            },
            None => Err(SimError::NoDestination),
        }
    }

    pub fn has_consumable_data(&self) -> (r: bool)
        ensures
            r == match self.destination {
                Some(d) => d.current_size > 0,
                None => false,
            },
    {
        match &self.destination {
            Some(destination) => destination.current_size > 0,
            None => false,
        }
    }

    /// Deposit `new_bytes` into the destination, capped by its remaining
    /// capacity; with no destination set, the error `NoDestination`.
    pub fn increase_result_inner(&mut self, new_bytes: u32) -> (r: Result<(), SimError>)
        requires
            old(self).wf(),
        ensures
            final(self).handle_pc == old(self).handle_pc,
            match old(self).destination {
                Some(d) => {
                    &&& final(self).destination == Some(d.spec_after_append(new_bytes as int))
                    &&& r is Ok
                },
                None => {
                    &&& *final(self) == *old(self)
                    &&& r == Err::<(), SimError>(SimError::NoDestination)
                },
            },
    {
        match &mut self.destination {
            Some(destination) => {
                destination.append_data(new_bytes);
                Ok(())
            },
            None => Err(SimError::NoDestination),
        }
    }

    pub fn get_consumed_bytes(&self) -> (r: Result<u32, SimError>)
        ensures
            r == match self.destination {
                Some(d) => Ok::<u32, SimError>(d.consumed_bytes),
                None => Err::<u32, SimError>(SimError::NoDestination),
            },
    {
        match &self.destination {
            Some(destination) => Ok(destination.consumed_bytes),
            None => Err(SimError::NoDestination),
        }
    }

    /// Complete iff a destination is set and fully drained.
    pub fn is_completed(&self) -> (r: bool)
        ensures
            r == self.spec_is_completed(),
    {
        match &self.destination {
            Some(destination) => destination.consumed_bytes == destination.target_size,
            None => false,
        }
    }

    pub open spec fn spec_is_completed(self) -> bool {
        match self.destination {
            Some(d) => d.consumed_bytes == d.target_size,
            None => false,
        }
    }

    /// All target bytes are present (drained or not yet drained).
    pub fn all_data_ready(&self) -> (r: bool)
        ensures
            r == match self.destination {
                Some(d) => d.current_size == d.target_size,
                None => false,
            },
    {
        match &self.destination {
            Some(d) => d.current_size == d.target_size,
            None => false,
        }
    }
}

pub open spec fn spec_is_vector_resource(r: Resource) -> bool {
    match r.resource_type {
        ResourceType::Register(reg) => reg is VectorRegister,
        ResourceType::Memory => false,
    }
}

pub open spec fn spec_is_register_resource(r: Resource) -> bool {
    r.resource_type is Register
}

/// Whether any input resource is a vector register.
pub open spec fn spec_has_vector_input(s: Seq<Resource>) -> bool
    decreases s.len(),
{
    if s.len() == 0 {
        false
    } else {
        spec_is_vector_resource(s.last()) || spec_has_vector_input(s.drop_last())
    }
}

/// The least `current_size` among the vector-register resources; meaningful
/// when one exists.
pub open spec fn spec_min_vector_current(s: Seq<Resource>) -> int
    decreases s.len(),
{
    if s.len() == 0 {
        0
    } else if spec_is_vector_resource(s.last()) {
        if spec_has_vector_input(s.drop_last()) {
            spec_min(spec_min_vector_current(s.drop_last()), s.last().current_size as int)
        } else {
            s.last().current_size as int
        }
    } else {
        spec_min_vector_current(s.drop_last())
    }
}

/// The least `current_size` among all resources; zero for an empty list.
pub open spec fn spec_min_current(s: Seq<Resource>) -> int
    decreases s.len(),
{
    if s.len() == 0 {
        0
    } else if s.len() == 1 {
        s[0].current_size as int
    } else {
        spec_min(spec_min_current(s.drop_last()), s.last().current_size as int)
    }
}

/// The greatest `current_size` among all resources; zero for an empty list.
pub open spec fn spec_max_current(s: Seq<Resource>) -> int
    decreases s.len(),
{
    if s.len() == 0 {
        0
    } else {
        let rest = spec_max_current(s.drop_last());
        if s.last().current_size as int > rest {
            s.last().current_size as int
        } else {
            rest
        }
    }
}

/// Every resource that is not memory-typed is full.
pub open spec fn spec_non_memory_all_full(s: Seq<Resource>) -> bool
    decreases s.len(),
{
    if s.len() == 0 {
        true
    } else {
        (s.last().resource_type is Memory || s.last().current_size >= s.last().target_size)
            && spec_non_memory_all_full(s.drop_last())
    }
}

pub open spec fn spec_count_memory(s: Seq<Resource>) -> int
    decreases s.len(),
{
    if s.len() == 0 {
        0
    } else {
        spec_count_memory(s.drop_last()) + if s.last().resource_type is Memory {
            1int
        } else {
            0int
        }
    }
}

/// The `current_size` of the last memory-typed resource; meaningful when
/// exactly one exists.
pub open spec fn spec_last_memory_current(s: Seq<Resource>) -> int
    decreases s.len(),
{
    if s.len() == 0 {
        0
    } else if s.last().resource_type is Memory {
        s.last().current_size as int
    } else {
        spec_last_memory_current(s.drop_last())
    }
}

pub open spec fn spec_count_register(s: Seq<Resource>) -> int
    decreases s.len(),
{
    if s.len() == 0 {
        0
    } else {
        spec_count_register(s.drop_last()) + if spec_is_register_resource(s.last()) {
            1int
        } else {
            0int
        }
    }
}

/// The `current_size` of the last register-typed resource.
pub open spec fn spec_last_register_current(s: Seq<Resource>) -> int
    decreases s.len(),
{
    if s.len() == 0 {
        0
    } else if spec_is_register_resource(s.last()) {
        s.last().current_size as int
    } else {
        spec_last_register_current(s.drop_last())
    }
}

/// The bytes the slowest relevant input has received: the least current
/// size over the vector-register resources, or over all resources when no
/// vector register is among them.
pub open spec fn spec_current_input_bytes(s: Seq<Resource>) -> int {
    if spec_has_vector_input(s) {
        spec_min_vector_current(s)
    } else {
        spec_min_current(s)
    }
}

/// Which unit a buffer pair belongs to, for routing register events back.
#[derive(Clone, Copy, Debug, PartialEq, Eq, Structural)]
pub enum BufferOwnerType {
    FunctionUnit(FunctionUnitKeyType),
    MemoryUnit(MemoryUnitKeyType),
    Unassigned,
}

/// The buffer pair at the interface of every unit and port: ordered input
/// resources and a single result destination, plus the instruction being
/// handled, for the record.
#[derive(Debug, Clone, PartialEq, Eq)]
pub struct BufferPair {
    pub input_buffer: InputBuffer,
    pub result_buffer: ResultBuffer,
    pub current_instruction: Option<Inst>,
    pub owner: BufferOwnerType,
}

impl BufferPair {
    pub open spec fn wf(self) -> bool {
        &&& self.input_buffer.wf()
        &&& self.result_buffer.wf()
    }

    pub fn new() -> (r: BufferPair)
        ensures
            r.input_buffer.resource@.len() == 0,
            r.result_buffer == (ResultBuffer {
                destination: None::<EnhancedResource>,
                handle_pc: None::<usize>,
            }),
            r.current_instruction is None,
            r.owner == BufferOwnerType::Unassigned,
            r.wf(),
    {
        BufferPair {
            input_buffer: InputBuffer::new_from_global(),
            result_buffer: ResultBuffer::new_from_global(),
            current_instruction: None,
            owner: BufferOwnerType::Unassigned,
        }
    }

    pub fn new_with_owner(owner: BufferOwnerType) -> (r: BufferPair)
        ensures
            r.input_buffer.resource@.len() == 0,
            r.result_buffer == (ResultBuffer {
                destination: None::<EnhancedResource>,
                handle_pc: None::<usize>,
            }),
            r.current_instruction is None,
            r.owner == owner,
            r.wf(),
    {
        BufferPair {
            input_buffer: InputBuffer::new_from_global(),
            result_buffer: ResultBuffer::new_from_global(),
            current_instruction: None,
            owner,
        }
    }

    pub fn set_owner(&mut self, owner: BufferOwnerType)
        ensures
            *final(self) == (BufferPair { owner, ..*old(self) }),
    {
        self.owner = owner;
    }

    pub fn get_owner(&self) -> (r: &BufferOwnerType)
        ensures
            *r == self.owner,
    {
        &self.owner
    }

    /// Route a producer event to the input buffer and a consumer event to
    /// the result buffer; the buffers' own contracts say what happens.
    pub fn handle_buffer_event(&mut self, event: BufferEvent) -> (r: Result<
        BufferEventResult,
        SimError,
    >)
        requires
            old(self).wf(),
        ensures
            final(self).wf(),
            final(self).owner == old(self).owner,
            final(self).current_instruction == old(self).current_instruction,
            match event {
                BufferEvent::Producer(p) => {
                    &&& final(self).result_buffer == old(self).result_buffer
                    &&& p.resource_index < old(self).input_buffer.resource@.len() ==> {
                        &&& final(self).input_buffer.resource@ == old(
                            self,
                        ).input_buffer.spec_after_producer(p)
                        &&& r == Ok::<BufferEventResult, SimError>(BufferEventResult::Producer(
                            ProducerEventResult {
                                resource_index: p.resource_index,
                                accepted_length: old(self).input_buffer.spec_accepted(p) as u32,
                                remaining_bytes: (p.append_length - old(
                                    self,
                                ).input_buffer.spec_accepted(p)) as u32,
                            },
                        ))
                    }
                    &&& p.resource_index >= old(self).input_buffer.resource@.len() ==> {
                        &&& *final(self) == *old(self)
                        &&& r == Err::<BufferEventResult, SimError>(SimError::IndexOutOfRange)
                    }
                },
                BufferEvent::Consumer(c) => {
                    &&& final(self).input_buffer == old(self).input_buffer
                    &&& final(self).result_buffer.handle_pc == old(self).result_buffer.handle_pc
                    &&& match old(self).result_buffer.destination {
                        Some(d) => {
                            &&& final(self).result_buffer.destination == Some(
                                d.spec_after_consume(c.maximum_consume_length as int),
                            )
                            &&& r == Ok::<BufferEventResult, SimError>(BufferEventResult::Consumer(
                                ConsumerEventResult {
                                    consumed_bytes: d.spec_consumed(
                                        c.maximum_consume_length as int,
                                    ) as u32,
                                    remaining_bytes: (d.current_size - d.spec_consumed(
                                        c.maximum_consume_length as int,
                                    )) as u32,
                                },
                            ))
                        },
                        None => {
                            &&& *final(self) == *old(self)
                            &&& r == Err::<BufferEventResult, SimError>(SimError::NoDestination)
                        },
                    }
                },
            },
    {
        match event {
            BufferEvent::Producer(producer_event) => {
                let result = self.input_buffer.handle_producer_event(&producer_event);
                match result {
                    Ok(res) => Ok(BufferEventResult::Producer(res)),
                    Err(e) => Err(e),
                }
            },
            BufferEvent::Consumer(consumer_event) => {
                let result = self.result_buffer.handle_consumer_event(&consumer_event);
                match result {
                    Ok(res) => Ok(BufferEventResult::Consumer(res)),
                    Err(e) => Err(e),
                }
            },
        }
    }

    /// Deposit matured-event bytes into the result destination.
    pub fn increase_result(&mut self, new_bytes: u32) -> (r: Result<(), SimError>)
        requires
            old(self).wf(),
        ensures
            final(self).input_buffer == old(self).input_buffer,
            final(self).owner == old(self).owner,
            final(self).current_instruction == old(self).current_instruction,
            final(self).result_buffer.handle_pc == old(self).result_buffer.handle_pc,
            match old(self).result_buffer.destination {
                Some(d) => {
                    &&& final(self).result_buffer.destination == Some(
                        d.spec_after_append(new_bytes as int),
                    )
                    &&& r is Ok
                },
                None => {
                    &&& *final(self) == *old(self)
                    &&& r == Err::<(), SimError>(SimError::NoDestination)
                },
            },
    {
        self.result_buffer.increase_result_inner(new_bytes)
    }

    pub fn set_current_instruction(&mut self, instruction: Inst)
        ensures
            *final(self) == (BufferPair { current_instruction: Some(instruction), ..*old(self) }),
    {
        self.current_instruction = Some(instruction);
    }

    pub fn get_current_instruction(&self) -> (r: Option<&Inst>)
        ensures
            match r {
                Some(inst) => self.current_instruction == Some(*inst),
                None => self.current_instruction is None,
            },
    {
        self.current_instruction.as_ref()
    }

    pub fn is_result_completed(&self) -> (r: bool)
        ensures
            r == self.result_buffer.spec_is_completed(),
    {
        self.result_buffer.is_completed()
    }

    /// Reset the input resources and the current-instruction slot.  The
    /// result buffer is kept, so that late consumers can still drain it.
    pub fn clear(&mut self)
        ensures
            final(self).input_buffer.resource@.len() == 0,
            final(self).current_instruction is None,
            final(self).result_buffer == old(self).result_buffer,
            final(self).owner == old(self).owner,
    {
        self.current_instruction = None;
        self.input_buffer.resource.clear();
    }

    /// The bytes of the memory input, once every register input is full;
    /// zero while an address is still unresolved.  A malformed mix (no
    /// memory resource, or more than one) is `BufferStateViolation`.
    pub(crate) fn get_memory_input_current_bytes(&self) -> (r: Result<u32, SimError>)
        ensures
            ({
                let s = self.input_buffer.resource@;
                if !spec_non_memory_all_full(s) {
                    r matches Ok(v) && v == 0
                } else if spec_count_memory(s) == 1 {
                    r matches Ok(v) && v == spec_last_memory_current(s)
                } else {
                    r == Err::<u32, SimError>(SimError::BufferStateViolation)
                }
            }),
    {
        let s = &self.input_buffer.resource;
        let ghost sv = s@;
        let mut i: usize = 0;
        let mut all_full: bool = true;
        while i < s.len()
            invariant
                i <= sv.len(),
                s@ == sv,
                all_full == spec_non_memory_all_full(sv.subrange(0, i as int)),
            decreases sv.len() - i,
        {
            let r0 = s[i];
            proof {
                assert(sv.subrange(0, i + 1).drop_last() =~= sv.subrange(0, i as int));
                assert(sv.subrange(0, i + 1).last() == sv[i as int]);
            }
            if !matches!(r0.resource_type, ResourceType::Memory) && r0.current_size
                < r0.target_size {
                all_full = false;
            }
            i = i + 1;
        }
        proof {
            assert(sv.subrange(0, sv.len() as int) =~= sv);
        }
        if !all_full {
            return Ok(0);
        }
        let mut j: usize = 0;
        let mut count: usize = 0;
        let mut mem_current: u32 = 0;
        while j < s.len()
            invariant
                j <= sv.len(),
                s@ == sv,
                count == spec_count_memory(sv.subrange(0, j as int)),
                count > 0 ==> mem_current == spec_last_memory_current(sv.subrange(0, j as int)),
                count <= j,
            decreases sv.len() - j,
        {
            let r0 = s[j];
            proof {
                assert(sv.subrange(0, j + 1).drop_last() =~= sv.subrange(0, j as int));
                assert(sv.subrange(0, j + 1).last() == sv[j as int]);
            }
            if matches!(r0.resource_type, ResourceType::Memory) {
                count = count + 1;
                mem_current = r0.current_size;
            }
            j = j + 1;
        }
        proof {
            assert(sv.subrange(0, sv.len() as int) =~= sv);
        }
        if count == 1 {
            Ok(mem_current)
        } else {
            Err(SimError::BufferStateViolation)
        }
    }

    /// Whether every input resource that is not memory-typed is full.
    pub(crate) fn non_memory_inputs_full(&self) -> (r: bool)
        ensures
            r == spec_non_memory_all_full(self.input_buffer.resource@),
    {
        let s = &self.input_buffer.resource;
        let ghost sv = s@;
        let mut i: usize = 0;
        let mut all_full: bool = true;
        while i < s.len()
            invariant
                i <= sv.len(),
                s@ == sv,
                all_full == spec_non_memory_all_full(sv.subrange(0, i as int)),
            decreases sv.len() - i,
        {
            let r0 = s[i];
            proof {
                assert(sv.subrange(0, i + 1).drop_last() =~= sv.subrange(0, i as int));
                assert(sv.subrange(0, i + 1).last() == sv[i as int]);
            }
            if !matches!(r0.resource_type, ResourceType::Memory) && r0.current_size
                < r0.target_size {
                all_full = false;
            }
            i = i + 1;
        }
        proof {
            assert(sv.subrange(0, sv.len() as int) =~= sv);
        }
        all_full
    }

    /// The bytes of the second register input (the data register of a store
    /// port).  Anything but exactly two register resources is
    /// `BufferStateViolation`.
    pub(crate) fn get_register_input_current_bytes(&self) -> (r: Result<u32, SimError>)
        ensures
            ({
                let s = self.input_buffer.resource@;
                if spec_count_register(s) == 2 {
                    r matches Ok(v) && v == spec_last_register_current(s)
                } else {
                    r == Err::<u32, SimError>(SimError::BufferStateViolation)
                }
            }),
    {
        let s = &self.input_buffer.resource;
        let ghost sv = s@;
        let mut j: usize = 0;
        let mut count: usize = 0;
        let mut reg_current: u32 = 0;
        while j < s.len()
            invariant
                j <= sv.len(),
                s@ == sv,
                count == spec_count_register(sv.subrange(0, j as int)),
                count > 0 ==> reg_current == spec_last_register_current(sv.subrange(0, j as int)),
                count <= j,
            decreases sv.len() - j,
        {
            let r0 = s[j];
            proof {
                assert(sv.subrange(0, j + 1).drop_last() =~= sv.subrange(0, j as int));
                assert(sv.subrange(0, j + 1).last() == sv[j as int]);
            }
            if matches!(r0.resource_type, ResourceType::Register(_)) {
                count = count + 1;
                reg_current = r0.current_size;
            }
            j = j + 1;
        }
        proof {
            assert(sv.subrange(0, sv.len() as int) =~= sv);
        }
        if count == 2 {
            Ok(reg_current)
        } else {
            Err(SimError::BufferStateViolation)
        }
    }

    /// The largest byte count any input resource has received.
    pub(crate) fn get_longest_input_resource_bytes(&self) -> (r: Result<u32, SimError>)
        ensures
            r matches Ok(v) && v == spec_max_current(self.input_buffer.resource@),
    {
        let s = &self.input_buffer.resource;
        let ghost sv = s@;
        let mut j: usize = 0;
        let mut best: u32 = 0;
        while j < s.len()
            invariant
                j <= sv.len(),
                s@ == sv,
                best == spec_max_current(sv.subrange(0, j as int)),
            decreases sv.len() - j,
        {
            let r0 = s[j];
            proof {
                assert(sv.subrange(0, j + 1).drop_last() =~= sv.subrange(0, j as int));
                assert(sv.subrange(0, j + 1).last() == sv[j as int]);
            }
            if r0.current_size > best {
                best = r0.current_size;
            }
            j = j + 1;
        }
        proof {
            assert(sv.subrange(0, sv.len() as int) =~= sv);
        }
        Ok(best)
    }

    /// The bytes the slowest relevant input has received (see
    /// `spec_current_input_bytes`).
    pub fn get_current_input_bytes(&self) -> (r: Result<u32, SimError>)
        ensures
            match r {
                Ok(v) => v == spec_current_input_bytes(self.input_buffer.resource@),
                Err(_) => false,
            },
    {
        let s = &self.input_buffer.resource;
        let ghost sv = s@;
        let mut j: usize = 0;
        let mut has_vec: bool = false;
        let mut min_vec: u32 = 0;
        let mut min_all: u32 = 0;
        while j < s.len()
            invariant
                j <= sv.len(),
                s@ == sv,
                has_vec == spec_has_vector_input(sv.subrange(0, j as int)),
                has_vec ==> min_vec == spec_min_vector_current(sv.subrange(0, j as int)),
                j > 0 ==> min_all == spec_min_current(sv.subrange(0, j as int)),
                j == 0 ==> min_all == 0,
            decreases sv.len() - j,
        {
            let r0 = s[j];
            proof {
                assert(sv.subrange(0, j + 1).drop_last() =~= sv.subrange(0, j as int));
                assert(sv.subrange(0, j + 1).last() == sv[j as int]);
            }
            let is_vec = match r0.resource_type {
                ResourceType::Register(reg) => matches!(reg, crate::sim::register::RegisterType::VectorRegister(_)),
                ResourceType::Memory => false,
            };
            if is_vec {
                if has_vec {
                    if r0.current_size < min_vec {
                        min_vec = r0.current_size;
                    }
                } else {
                    has_vec = true;
                    min_vec = r0.current_size;
                }
            }
            if j == 0 {
                min_all = r0.current_size;
            } else {
                if r0.current_size < min_all {
                    min_all = r0.current_size;
                }
            }
            j = j + 1;
        }
        proof {
            assert(sv.subrange(0, sv.len() as int) =~= sv);
            if sv.len() == 0 {
                assert(spec_min_current(sv) == 0);
                assert(!spec_has_vector_input(sv));
            }
            assert(sv == self.input_buffer.resource@);
            assert(has_vec == spec_has_vector_input(sv));
            if has_vec {
                assert(min_vec == spec_min_vector_current(sv));
            } else if sv.len() > 0 {
                assert(min_all == spec_min_current(sv));
            }
        }
        let result = if has_vec {
            min_vec
        } else {
            min_all
        };
        proof {
            assert(result == spec_current_input_bytes(self.input_buffer.resource@));
        }
        Ok(result)
    }

    pub(crate) fn set_input(&mut self, resource: Vec<Resource>) -> (r: Result<(), SimError>)
        ensures
            final(self).input_buffer.resource@ == resource@,
            final(self).result_buffer == old(self).result_buffer,
            final(self).owner == old(self).owner,
            final(self).current_instruction == old(self).current_instruction,
            r is Ok,
    {
        self.input_buffer.set_resource(resource)
    }

    pub(crate) fn set_output(&mut self, destination: EnhancedResource, pc: usize)
        ensures
            final(self).result_buffer == (ResultBuffer {
                destination: Some(destination),
                handle_pc: Some(pc),
            }),
            final(self).input_buffer == old(self).input_buffer,
            final(self).owner == old(self).owner,
            final(self).current_instruction == old(self).current_instruction,
    {
        self.result_buffer.destination = Some(destination);
        self.result_buffer.handle_pc = Some(pc);
    }
}

} // verus!
