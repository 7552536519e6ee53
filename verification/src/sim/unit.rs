use vstd::prelude::*;
use crate::sim::unit::function_unit::FunctionUnitKeyType;
use crate::sim::unit::memory_unit::MemoryUnitKeyType;

pub mod buffer;
pub mod function_unit;
pub mod latency_calculator;
pub mod memory_unit;

verus! {

/// What a register task does with its unit: a `Read` task feeds the unit's
/// input buffer, a `Write` task drains the unit's result buffer.
#[derive(Clone, Copy, Debug, PartialEq, Eq, Structural)]
pub enum UnitBehavior {
    Read,
    Write,
}

/// The identity of the unit a buffer event is routed to.
#[derive(Clone, Copy, Debug, PartialEq, Eq, Structural)]
pub enum UnitKeyType {
    FuncKey(FunctionUnitKeyType),
    MemKey(MemoryUnitKeyType),
}

} // verus!
