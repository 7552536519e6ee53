use vstd::prelude::*;
use crate::config::SimulatorConfig;
use crate::inst::func::FuncInst;
use crate::sim::unit::function_unit::FunctionUnitKeyType;

verus! {

/// The latency, in cycles per event, of the unit behind `key`, for an
/// integer or a floating-point operation.  The vector units borrow the
/// latency of the matching scalar unit; the slide unit has a fixed latency
/// of one cycle.
pub open spec fn spec_func_cycle(
    key: FunctionUnitKeyType,
    is_float: bool,
    config: SimulatorConfig,
) -> int {
    match key {
        FunctionUnitKeyType::IntegerAlu => config.function_units.interger_alu.latency as int,
        FunctionUnitKeyType::IntergerDiv => config.function_units.interger_divider.latency as int,
        FunctionUnitKeyType::FloatAlu => config.function_units.float_alu.latency as int,
        FunctionUnitKeyType::FloatDiv => config.function_units.float_divider.latency as int,
        FunctionUnitKeyType::FloatMul => config.function_units.float_multiplier.latency as int,
        FunctionUnitKeyType::VectorAlu => if is_float {
            config.function_units.float_alu.latency as int
        } else {
            config.function_units.interger_alu.latency as int
        },
        FunctionUnitKeyType::VectorDiv => if is_float {
            config.function_units.float_divider.latency as int
        } else {
            config.function_units.interger_divider.latency as int
        },
        FunctionUnitKeyType::VectorMul => if is_float {
            config.function_units.float_multiplier.latency as int
        } else {
            config.function_units.interger_multiplier.latency as int
        },
        FunctionUnitKeyType::VectorMacc => if is_float {
            config.function_units.float_multiplier.latency as int
        } else {
            config.function_units.interger_multiplier.latency as int
        },
        FunctionUnitKeyType::VectorSlide => 1,
    }
}

/// A well-formed configuration gives every unit a latency of at least one.
pub proof fn lemma_func_cycle_pos(key: FunctionUnitKeyType, is_float: bool, config: SimulatorConfig)
    requires
        config.function_units.wf(),
    ensures
        spec_func_cycle(key, is_float, config) >= 1,
{
}

/// The cycles one event of `inst` spends in its functional unit.
pub fn calc_func_cycle(inst: &FuncInst, config: &SimulatorConfig) -> (r: u32)
    ensures
        r == spec_func_cycle(inst.func_unit_key, inst.is_float_op, *config),
{
    match inst.get_key_type() {
        FunctionUnitKeyType::IntegerAlu => config.function_units.interger_alu.latency,
        FunctionUnitKeyType::IntergerDiv => config.function_units.interger_divider.latency,
        FunctionUnitKeyType::FloatAlu => config.function_units.float_alu.latency,
        FunctionUnitKeyType::FloatDiv => config.function_units.float_divider.latency,
        FunctionUnitKeyType::FloatMul => config.function_units.float_multiplier.latency,
        FunctionUnitKeyType::VectorAlu => {
            if inst.is_float() {
                config.function_units.float_alu.latency
            } else {
                config.function_units.interger_alu.latency
            }
        },
        FunctionUnitKeyType::VectorDiv => {
            if inst.is_float() {
                config.function_units.float_divider.latency
            } else {
                config.function_units.interger_divider.latency
            }
        },
        FunctionUnitKeyType::VectorMul => {
            if inst.is_float() {
                config.function_units.float_multiplier.latency
            } else {
                config.function_units.interger_multiplier.latency
            }
        },
        FunctionUnitKeyType::VectorMacc => {
            if inst.is_float() {
                config.function_units.float_multiplier.latency
            } else {
                config.function_units.interger_multiplier.latency
            }
        },
        FunctionUnitKeyType::VectorSlide => 1,
    }
}

} // verus!
