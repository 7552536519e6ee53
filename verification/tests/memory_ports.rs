use rvv_sim::config::SimulatorConfig;
use rvv_sim::inst::mem::{Direction, MemAddr, MemInst};
use rvv_sim::sim::register::RegisterType;
use rvv_sim::sim::unit::buffer::{
    BufferEvent, BufferEventResult, ConsumerEvent, ProducerEvent, Resource, ResourceType,
};
use rvv_sim::sim::unit::memory_unit::{LoadStoreUnit, MemoryUnitKeyType};

fn test_config() -> SimulatorConfig {
    let mut config = SimulatorConfig::default();
    config.vector_config.software.vl = 4;
    config.vector_config.software.sew = 64;
    config.vector_config.hardware.vlen = 4096;
    config.vector_config.hardware.lane_number = 4;
    config.memory_units.load_store_unit.max_access_width = 8;
    config.memory_units.load_store_unit.read_ports_limit = 2;
    config.memory_units.load_store_unit.write_ports_limit = 2;
    config
}

/// A scalar load occupies the lowest free read port, streams one bandwidth
/// chunk per cycle once auto-refill has supplied the memory input, and is
/// released after retirement drains its destination.
#[test]
fn read_port_streams_and_releases() {
    let config = test_config();
    let mut lsu = LoadStoreUnit::new_from_config(&config);
    assert!(lsu.is_empty());
    assert!(lsu.can_accept_new_instruction(Direction::Read));
    let ld = MemInst::new(
        Direction::Read,
        MemAddr::new(RegisterType::ScalarRegister(8)),
        RegisterType::ScalarRegister(15),
    );
    let port = lsu.issue(ld, 0, &config).unwrap();
    assert_eq!(port, 0);
    assert!(!lsu.is_empty());
    // Cycle one: memory auto-refill, then the transfer.
    lsu.auto_increase_memory_data().unwrap();
    lsu.handle_event_queue().unwrap();
    // All eight bytes have arrived but nothing drained them yet.
    let gen = lsu.read_port_used[0].expect("port still busy");
    assert_eq!(gen.current_pos, 8);
    assert_eq!(gen.total_bytes, 8);
    // Retirement drains the scalar destination and names the register.
    let regs = lsu.clean_read_port_result_buffer().unwrap();
    assert_eq!(regs, vec![RegisterType::ScalarRegister(15)]);
    // The next tick releases the port.
    lsu.handle_event_queue().unwrap();
    assert!(lsu.read_port_used[0].is_none());
    assert!(lsu.is_empty());
}

/// A vector store: the data register streams in through producer events,
/// the memory-destined result is auto-consumed by the external sink, and
/// the port is released when everything has moved.
#[test]
fn write_port_consumes_vector_data() {
    let config = test_config();
    let mut lsu = LoadStoreUnit::new_from_config(&config);
    let vse = MemInst::new(
        Direction::Write,
        MemAddr::new(RegisterType::ScalarRegister(8)),
        RegisterType::VectorRegister(2),
    );
    let port = lsu.issue(vse, 0, &config).unwrap();
    assert_eq!(port, 0);
    // The register task delivers all 32 bytes of v2 into the data input.
    let res = lsu
        .handle_buffer_event(
            MemoryUnitKeyType::Store(0),
            BufferEvent::Producer(ProducerEvent::new(1, 32)),
        )
        .unwrap();
    match res {
        BufferEventResult::Producer(p) => assert_eq!(p.accepted_length, 32),
        _ => unreachable!(),
    }
    // Four cycles of transfer and auto-consume move all 32 bytes.
    for _ in 0..4 {
        lsu.handle_event_queue().unwrap();
        lsu.auto_increase_memory_write_consumed_bytes().unwrap();
    }
    lsu.handle_event_queue().unwrap();
    assert!(lsu.write_port_used[0].is_none());
}

/// With both read ports taken, a third load finds no port.
#[test]
fn read_ports_exhaust() {
    let config = test_config();
    let mut lsu = LoadStoreUnit::new_from_config(&config);
    let ld = |rd: u32| {
        MemInst::new(
            Direction::Read,
            MemAddr::new(RegisterType::ScalarRegister(8)),
            RegisterType::ScalarRegister(rd),
        )
    };
    assert_eq!(lsu.issue(ld(10), 0, &config).unwrap(), 0);
    assert_eq!(lsu.issue(ld(11), 1, &config).unwrap(), 1);
    assert!(!lsu.can_accept_new_instruction(Direction::Read));
    assert!(!lsu.has_free_port(Direction::Read));
    assert!(lsu.can_accept_new_instruction(Direction::Write));
}

/// A malformed resource mix — two memory resources on one input — is
/// reported as a buffer-state violation when the port tries to read its
/// source bytes.
#[test]
fn malformed_buffer_mix_is_reported() {
    let config = test_config();
    let mut lsu = LoadStoreUnit::new_from_config(&config);
    let ld = MemInst::new(
        Direction::Read,
        MemAddr::new(RegisterType::ScalarRegister(8)),
        RegisterType::ScalarRegister(15),
    );
    lsu.issue(ld, 0, &config).unwrap();
    lsu.read_port_buffer[0]
        .input_buffer
        .resource
        .push(Resource::new(ResourceType::Memory, 8));
    assert_eq!(
        lsu.handle_event_queue(),
        Err(rvv_sim::error::SimError::BufferStateViolation)
    );
}

/// A consumer event routed to an idle port with no result set reports the
/// missing destination.
#[test]
fn consumer_on_fresh_port_has_no_destination() {
    let config = test_config();
    let mut lsu = LoadStoreUnit::new_from_config(&config);
    let res = lsu.handle_buffer_event(
        MemoryUnitKeyType::Load(0),
        BufferEvent::Consumer(ConsumerEvent::new(8)),
    );
    assert_eq!(res, Err(rvv_sim::error::SimError::NoDestination));
    let oob = lsu.handle_buffer_event(
        MemoryUnitKeyType::Load(7),
        BufferEvent::Consumer(ConsumerEvent::new(8)),
    );
    assert_eq!(oob, Err(rvv_sim::error::SimError::IndexOutOfRange));
}
