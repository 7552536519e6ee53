use vstd::prelude::*;
use crate::sim::unit::buffer::{
    BufferEvent, BufferEventResult, ConsumerEvent, ProducerEvent,
};
use crate::sim::unit::{UnitBehavior, UnitKeyType};

verus! {

/// A register-side record of one outstanding read or write against a unit,
/// tracked byte by byte: `current_place` bytes have been transported so far.
#[derive(Clone, Copy, Debug, PartialEq, Eq, Structural)]
pub struct RegisterTask {
    pub current_place: u32,
    pub resource_index: usize,
    pub behavior: UnitBehavior,
    pub unit_key: UnitKeyType,
}

/// The buffer event a task emits for `update_bytes` bytes: a `Read` task
/// feeds the unit's input resource, a `Write` task drains the unit's
/// result.
pub open spec fn spec_task_event(task: RegisterTask, update_bytes: u32) -> BufferEvent {
    match task.behavior {
        UnitBehavior::Read => BufferEvent::Producer(
            ProducerEvent { resource_index: task.resource_index, append_length: update_bytes },
        ),
        UnitBehavior::Write => BufferEvent::Consumer(
            ConsumerEvent { maximum_consume_length: update_bytes },
        ),
    }
}

/// The bytes a buffer-event result reports as transported.
pub open spec fn spec_result_delta(result: BufferEventResult) -> int {
    match result {
        BufferEventResult::Producer(p) => p.accepted_length as int,
        BufferEventResult::Consumer(c) => c.consumed_bytes as int,
    }
}

impl RegisterTask {
    pub fn new(resource_index: usize, behavior: UnitBehavior, unit_key: UnitKeyType) -> (r:
        RegisterTask)
        ensures
            r == (RegisterTask { current_place: 0u32, resource_index, behavior, unit_key }),
    {
        RegisterTask { current_place: 0, resource_index, behavior, unit_key }
    }

    pub fn generate_event(&self, update_bytes: u32) -> (r: BufferEvent)
        ensures
            r == spec_task_event(*self, update_bytes),
    {
        match self.behavior {
            UnitBehavior::Read => BufferEvent::Producer(
                ProducerEvent::new(self.resource_index, update_bytes),
            ),
            UnitBehavior::Write => BufferEvent::Consumer(ConsumerEvent::new(update_bytes)),
        }
    }

    /// Advance by the bytes the unit reports as transported.
    pub fn handle_result(&mut self, result: BufferEventResult)
        requires
            old(self).current_place + spec_result_delta(result) <= u32::MAX,
        ensures
            *final(self) == (RegisterTask {
                current_place: (old(self).current_place + spec_result_delta(result)) as u32,
                ..*old(self)
            }),
    {
        match result {
            BufferEventResult::Consumer(c) => {
                self.current_place = self.current_place + c.consumed_bytes;
            },
            BufferEventResult::Producer(p) => {
                self.current_place = self.current_place + p.accepted_length;
            },
        }
    }
}

} // verus!
