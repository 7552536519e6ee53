use rvv_sim::config::SimulatorConfig;
use rvv_sim::error::SimError;
use rvv_sim::inst::func::FuncInst;
use rvv_sim::parens::Solution;
use rvv_sim::sim::register::task::RegisterTask;
use rvv_sim::sim::register::{RegisterType, VectorRegister};
use rvv_sim::sim::unit::buffer::{
    BufferEvent, BufferEventResult, BufferPair, ConsumerEvent, EnhancedResource, ProducerEvent,
    Resource, ResourceType,
};
use rvv_sim::sim::unit::function_unit::{
    CommonEventResult, CommonFunctionUnit, FunctionUnitKeyType, VectorFunctionUnit,
};
use rvv_sim::sim::unit::latency_calculator::calc_func_cycle;
use rvv_sim::sim::unit::{UnitBehavior, UnitKeyType};

fn test_config() -> SimulatorConfig {
    let mut config = SimulatorConfig::default();
    config.vector_config.software.vl = 4;
    config.vector_config.software.sew = 64;
    config.vector_config.hardware.vlen = 4096;
    config.vector_config.hardware.lane_number = 4;
    config.register.maximum_forward_bytes = 32;
    config.function_units.interger_alu.latency = 1;
    config.function_units.float_alu.latency = 3;
    config.memory_units.load_store_unit.max_access_width = 8;
    config
}

#[test]
fn resource_byte_counters() {
    let mut r = Resource::new(ResourceType::Memory, 10);
    assert_eq!(r.append_data(6), 6);
    assert_eq!(r.append_data(6), 4);
    assert!(r.is_full());
    assert_eq!(r.consume_data(3), 3);
    assert_eq!(r.remaining_capacity(), 3);
}

#[test]
fn enhanced_resource_completion() {
    let mut r = EnhancedResource::new(ResourceType::Memory, 8);
    assert_eq!(r.append_data(8), 8);
    assert!(r.is_full());
    assert!(!r.is_completed());
    assert_eq!(r.consume_data(8), 8);
    assert!(r.is_completed());
    assert_eq!(r.total_processed_bytes(), 0);
}

#[test]
fn producer_event_out_of_range() {
    let mut pair = BufferPair::new();
    let event = BufferEvent::Producer(ProducerEvent::new(0, 4));
    assert_eq!(pair.handle_buffer_event(event), Err(SimError::IndexOutOfRange));
}

#[test]
fn consumer_event_without_destination() {
    let mut pair = BufferPair::new();
    let event = BufferEvent::Consumer(ConsumerEvent::new(4));
    assert_eq!(pair.handle_buffer_event(event), Err(SimError::NoDestination));
}

#[test]
fn buffer_pair_round_trip() {
    let mut pair = BufferPair::new();
    pair.result_buffer.destination = Some(EnhancedResource::new(
        ResourceType::Register(RegisterType::VectorRegister(3)),
        32,
    ));
    pair.result_buffer.handle_pc = Some(0);
    pair.increase_result(12).unwrap();
    let res = pair
        .handle_buffer_event(BufferEvent::Consumer(ConsumerEvent::new(32)))
        .unwrap();
    match res {
        BufferEventResult::Consumer(c) => {
            assert_eq!(c.consumed_bytes, 12);
            assert_eq!(c.remaining_bytes, 0);
        }
        _ => unreachable!(),
    }
    assert!(!pair.is_result_completed());
}

/// Latency of a common unit, exactly: an instruction of latency three
/// reports its write-back on the third tick after issue and on no other.
#[test]
fn common_unit_retires_after_latency() {
    let config = test_config();
    let inst = FuncInst::new(
        RegisterType::FloatRegister(5),
        vec![RegisterType::FloatRegister(6)],
        FunctionUnitKeyType::FloatAlu,
        true,
    );
    assert_eq!(calc_func_cycle(&inst, &config), 3);
    let mut unit = CommonFunctionUnit::new(FunctionUnitKeyType::FloatAlu);
    unit.issue(inst, 0, &config).unwrap();
    assert!(!unit.is_empty());
    assert_eq!(unit.handle_event(), CommonEventResult::Nothing);
    assert_eq!(unit.handle_event(), CommonEventResult::Nothing);
    assert_eq!(
        unit.handle_event(),
        CommonEventResult::WriteResultTo(RegisterType::FloatRegister(5))
    );
    assert!(unit.is_empty());
}

/// Byte conservation on a vector unit: with full inputs, every byte the
/// generator dispatches shows up in the result buffer, and the total over
/// the instruction's lifetime equals its declared width.
#[test]
fn vector_unit_conserves_bytes() {
    let config = test_config();
    let inst = FuncInst::new(
        RegisterType::VectorRegister(3),
        vec![
            RegisterType::VectorRegister(1),
            RegisterType::VectorRegister(2),
        ],
        FunctionUnitKeyType::VectorAlu,
        true,
    );
    let mut unit = VectorFunctionUnit::new(32, FunctionUnitKeyType::VectorAlu);
    unit.issue(inst, 0, &config).unwrap();
    // Fill both inputs in full: 32 bytes each.
    for idx in 0..2 {
        let res = unit
            .handle_buffer_event(BufferEvent::Producer(ProducerEvent::new(idx, 32)))
            .unwrap();
        match res {
            BufferEventResult::Producer(p) => assert_eq!(p.accepted_length, 32),
            _ => unreachable!(),
        }
    }
    let mut deposited: u32 = 0;
    let mut consumed: u32 = 0;
    for _ in 0..8 {
        unit.handle_event().unwrap();
        let res = unit
            .handle_buffer_event(BufferEvent::Consumer(ConsumerEvent::new(32)))
            .unwrap();
        match res {
            BufferEventResult::Consumer(c) => {
                deposited += c.consumed_bytes;
                consumed += c.consumed_bytes;
            }
            _ => unreachable!(),
        }
    }
    // One lane-wide chunk of 32 bytes, latency 3: all 32 bytes arrive.
    assert_eq!(deposited, 32);
    assert_eq!(consumed, 32);
    unit.handle_event().unwrap();
    assert!(unit.can_accept_new_instruction());
}

/// The latency lower bound on a vector unit: with inputs already full and
/// one lane-wide chunk covering the whole width, the bytes arrive in the
/// result buffer exactly `ceil(total / bytes_per_event) + latency - 1`
/// ticks after issue — here 1 + 3 - 1 = 3 — and not a tick earlier.
#[test]
fn vector_unit_latency_formula() {
    let config = test_config();
    let inst = FuncInst::new(
        RegisterType::VectorRegister(3),
        vec![RegisterType::VectorRegister(1)],
        FunctionUnitKeyType::VectorAlu,
        true,
    );
    let mut unit = VectorFunctionUnit::new(32, FunctionUnitKeyType::VectorAlu);
    unit.issue(inst, 0, &config).unwrap();
    unit.handle_buffer_event(BufferEvent::Producer(ProducerEvent::new(0, 32)))
        .unwrap();
    let deposited = |u: &VectorFunctionUnit| {
        u.buffer_pair
            .result_buffer
            .destination
            .as_ref()
            .map(|d| d.current_size)
            .unwrap_or(0)
    };
    unit.handle_event().unwrap();
    assert_eq!(deposited(&unit), 0);
    unit.handle_event().unwrap();
    assert_eq!(deposited(&unit), 0);
    unit.handle_event().unwrap();
    assert_eq!(deposited(&unit), 32);
}

/// The forwarding bound on a register task: an emitted event never asks to
/// move more than the configured forwarding width.
#[test]
fn register_task_forwarding_bound() {
    let mut reg = VectorRegister {
        id: 1,
        total_bytes: 32,
        write_count: 1,
        read_count: 0,
        current_index: 0,
        task_queue: vec![RegisterTask::new(
            0,
            UnitBehavior::Write,
            UnitKeyType::FuncKey(FunctionUnitKeyType::VectorAlu),
        )],
    };
    let max_forward = 12;
    let event = reg.handle_one_task(0, max_forward).unwrap();
    match event {
        BufferEvent::Consumer(c) => assert!(c.maximum_consume_length <= max_forward),
        BufferEvent::Producer(_) => unreachable!(),
    }
    // The walk picks the same task and caps by the remaining bytes.
    reg.init_current_index();
    let walked = reg.generate_event(max_forward).unwrap();
    assert_eq!(walked, event);
}

#[test]
fn config_formulas() {
    let config = test_config();
    assert_eq!(config.get_vector_register_using_bytes(), 32);
    assert_eq!(config.get_data_length(), 32);
    assert_eq!(config.get_vector_register_bytes(), 512);
    assert_eq!(config.get_element_bytes(), 8);
    assert_eq!(config.get_total_vector_bytes(), 32);
    assert_eq!(config.get_maximum_forward_bytes(), 32);
    assert_eq!(config.get_max_access_width(), 8);
    assert!(config.vector_config.is_valid());
    let mut bad = config;
    bad.vector_config.software.vl = 4097;
    bad.vector_config.software.sew = 1;
    assert!(!bad.vector_config.is_valid());
}

#[test]
fn default_configuration_is_valid() {
    let config = SimulatorConfig::default();
    assert!(config.vector_config.is_valid());
    assert_eq!(config.function_units.interger_alu.latency, 1);
    assert_eq!(config.memory_units.load_store_unit.max_access_width, 64);
    assert_eq!(config.vector_register.ports.read_ports_limit, 2);
    assert_eq!(config.vector_register.ports.write_ports_limit, 1);
    assert_eq!(config.register.maximum_forward_bytes, 32);
    assert_eq!(config.buffer.input_maximum_size, 64);
    assert_eq!(config.get_vector_elements_count(), 64);
}

#[test]
fn front_end_walks_instructions() {
    let mut fetch = rvv_sim::sim::fetch::Fetch::new();
    assert!(fetch.is_empty());
    let ld = rvv_sim::inst::Inst::Mem(rvv_sim::inst::mem::MemInst::new(
        rvv_sim::inst::mem::Direction::Read,
        rvv_sim::inst::mem::MemAddr::new(RegisterType::ScalarRegister(8)),
        RegisterType::ScalarRegister(15),
    ));
    fetch.load(vec![ld]);
    assert!(!fetch.is_empty());
    assert_eq!(fetch.get_pc(), 0);
    assert!(fetch.fetch().is_some());
    // A stalled issue leaves the counter alone; an accepted one advances it.
    fetch.next_pc();
    assert_eq!(fetch.get_pc(), 1);
    assert!(fetch.fetch().is_none());
    assert!(fetch.is_empty());
}

#[test]
fn latency_table_follows_the_configuration() {
    let mut config = test_config();
    config.function_units.interger_multiplier.latency = 5;
    let vmul_int = FuncInst::new(
        RegisterType::VectorRegister(3),
        vec![RegisterType::VectorRegister(1)],
        FunctionUnitKeyType::VectorMul,
        false,
    );
    let vmul_float = FuncInst::new(
        RegisterType::VectorRegister(3),
        vec![RegisterType::VectorRegister(1)],
        FunctionUnitKeyType::VectorMul,
        true,
    );
    let slide = FuncInst::new(
        RegisterType::VectorRegister(3),
        vec![RegisterType::VectorRegister(1)],
        FunctionUnitKeyType::VectorSlide,
        true,
    );
    assert_eq!(calc_func_cycle(&vmul_int, &config), 5);
    assert_eq!(
        calc_func_cycle(&vmul_float, &config),
        config.function_units.float_multiplier.latency
    );
    assert_eq!(calc_func_cycle(&slide, &config), 1);
    assert!(vmul_float.is_float());
    assert_eq!(vmul_float.get_key_type(), FunctionUnitKeyType::VectorMul);
    assert_eq!(vmul_float.total_process_bytes(&config), 32);
}

#[test]
fn longest_valid_parentheses_examples() {
    assert_eq!(Solution::longest_valid_parentheses(String::new()), 0);
    assert_eq!(Solution::longest_valid_parentheses("(()".to_string()), 2);
    assert_eq!(Solution::longest_valid_parentheses(")()())".to_string()), 4);
    assert_eq!(Solution::longest_valid_parentheses("()(())".to_string()), 6);
    assert_eq!(Solution::longest_valid_parentheses("((((".to_string()), 0);
}

#[test]
fn register_bytes_by_kind() {
    let config = test_config();
    assert_eq!(RegisterType::ScalarRegister(3).get_bytes(&config), 8);
    assert_eq!(RegisterType::FloatRegister(3).get_bytes(&config), 8);
    assert_eq!(RegisterType::VectorRegister(3).get_bytes(&config), 32);
}
