use rvv_sim::config::SimulatorConfig;
use rvv_sim::error::SimError;
use rvv_sim::inst::Inst;
use rvv_sim::inst::func::FuncInst;
use rvv_sim::inst::mem::{Direction, MemAddr, MemInst};
use rvv_sim::sim::Simulator;
use rvv_sim::sim::register::RegisterType;
use rvv_sim::sim::unit::function_unit::FunctionUnitKeyType;

fn scenario_config() -> SimulatorConfig {
    let mut config = SimulatorConfig::default();
    config.vector_config.software.vl = 4;
    config.vector_config.software.sew = 64;
    config.vector_config.hardware.vlen = 4096;
    config.vector_config.hardware.lane_number = 4;
    config.register.maximum_forward_bytes = 32;
    config.function_units.interger_alu.latency = 1;
    config.function_units.float_alu.latency = 3;
    config.memory_units.load_store_unit.max_access_width = 8;
    config.memory_units.load_store_unit.read_ports_limit = 2;
    config.memory_units.load_store_unit.write_ports_limit = 2;
    config.vector_register.ports.read_ports_limit = 2;
    config.vector_register.ports.write_ports_limit = 2;
    config
}

fn vle(vd: u32, addr: u32) -> Inst {
    Inst::Mem(MemInst::new(
        Direction::Read,
        MemAddr::new(RegisterType::ScalarRegister(addr)),
        RegisterType::VectorRegister(vd),
    ))
}

fn vfadd(vd: u32, vs1: u32, vs2: u32) -> Inst {
    Inst::Func(FuncInst::new(
        RegisterType::VectorRegister(vd),
        vec![
            RegisterType::VectorRegister(vs1),
            RegisterType::VectorRegister(vs2),
        ],
        FunctionUnitKeyType::VectorAlu,
        true,
    ))
}

fn add(rd: u32, rs1: u32, rs2: u32) -> Inst {
    Inst::Func(FuncInst::new(
        RegisterType::ScalarRegister(rd),
        vec![
            RegisterType::ScalarRegister(rs1),
            RegisterType::ScalarRegister(rs2),
        ],
        FunctionUnitKeyType::IntegerAlu,
        false,
    ))
}

fn ld(rd: u32, rs1: u32) -> Inst {
    Inst::Mem(MemInst::new(
        Direction::Read,
        MemAddr::new(RegisterType::ScalarRegister(rs1)),
        RegisterType::ScalarRegister(rd),
    ))
}

/// Two vector loads feeding a vector add: the loads stream 32 bytes at 8
/// bytes per cycle, the add consumes its operands as they arrive and
/// drains its result through the register file.
#[test]
fn scenario_vector_load_add_schedule() {
    let config = scenario_config();
    let mut sim = Simulator::new(config);
    // vle64.v v1, (s1); vle64.v v2, (s0); vfadd.vv v3, v1, v2
    sim.load_instructions(vec![vle(1, 9), vle(2, 8), vfadd(3, 1, 2)]);
    let cycles = sim.main_sim_loop().unwrap();
    assert_eq!(cycles, 10);
    // Everything retired: no counters left, no markers, all ports idle.
    for i in 0..32 {
        assert_eq!(sim.register_file.vector_registers[i].get_read_count(), 0);
        assert_eq!(sim.register_file.vector_registers[i].get_write_count(), 0);
        assert!(sim.register_file.vector_registers[i].task_queue().is_empty());
    }
}

/// Two dependent scalar adds: the second waits for the first to retire.
#[test]
fn scenario_dependent_scalar_adds() {
    let config = scenario_config();
    let mut sim = Simulator::new(config);
    // add a0, a5, t6; add a5, a0, a0
    sim.load_instructions(vec![add(10, 15, 31), add(15, 10, 10)]);
    let cycles = sim.main_sim_loop().unwrap();
    assert_eq!(cycles, 3);
}

/// A scalar load followed by an add of the loaded register: the load
/// retires after latency plus one bandwidth chunk, the add stalls until
/// then.
#[test]
fn scenario_load_then_add() {
    let config = scenario_config();
    let mut sim = Simulator::new(config);
    // ld a5, 0(s0); add a0, a5, a5
    sim.load_instructions(vec![ld(15, 8), add(10, 15, 15)]);
    let cycles = sim.main_sim_loop().unwrap();
    assert_eq!(cycles, 4);
}

/// Three back-to-back vector adds all writing one register under a single
/// write port: the write-port counter caps at one, the issue check denies
/// the next add until the outstanding write task retires, and the whole
/// sequence still completes.
#[test]
fn scenario_single_write_port() {
    let mut config = scenario_config();
    config.vector_register.ports.write_ports_limit = 1;
    let mut sim = Simulator::new(config);
    sim.load_instructions(vec![vfadd(3, 1, 2), vfadd(3, 1, 2), vfadd(3, 1, 2)]);
    let cycles = sim.main_sim_loop().unwrap();
    assert!(cycles < 100);
    assert_eq!(sim.register_file.vector_registers[3].get_write_count(), 0);
}

/// The issue check itself under a saturated write port: after one
/// instruction takes the only write port of its destination, a second
/// instruction writing the same register is denied until the task retires.
#[test]
fn scenario_write_port_denial() {
    let mut config = scenario_config();
    config.vector_register.ports.write_ports_limit = 1;
    let mut rf = rvv_sim::sim::register::RegisterFile::new(&config);
    let first = match vfadd(10, 11, 12) {
        Inst::Func(f) => f,
        _ => unreachable!(),
    };
    // vfmul.vv v10, v11, v10
    let second = FuncInst::new(
        RegisterType::VectorRegister(10),
        vec![
            RegisterType::VectorRegister(11),
            RegisterType::VectorRegister(10),
        ],
        FunctionUnitKeyType::VectorMul,
        true,
    );
    assert!(rf.can_issue_vector_instruction(&first, &config));
    rf.add_vector_task(&first);
    assert_eq!(rf.vector_registers[10].get_write_count(), 1);
    // vfmul.vv v10, v11, v10 is denied while v10's write is outstanding.
    assert!(!rf.can_issue_vector_instruction(&second, &config));
    // Once the predecessor's write task completes, the port is free again.
    rf.vector_registers[10].decrease_write_count();
    let _ = rf.vector_registers[10].task_queue.pop();
    assert!(rf.can_issue_vector_instruction(&second, &config));
}

/// An invalid vector shape is rejected before any cycle executes.
#[test]
fn scenario_config_invalid() {
    let mut config = scenario_config();
    // vl * sew == vlen + 1
    config.vector_config.software.vl = 4097;
    config.vector_config.software.sew = 1;
    config.vector_config.hardware.vlen = 4096;
    let mut sim = Simulator::new(config);
    sim.load_instructions(vec![add(10, 15, 31)]);
    assert_eq!(sim.main_sim_loop(), Err(SimError::ConfigInvalid));
    // Nothing ran: the front end still stands at the first instruction.
    assert_eq!(sim.fetch_unit.get_pc(), 0);
}

/// Determinism: the same instruction sequence under the same
/// configuration twice gives the same cycle count and the same final
/// per-register state.
#[test]
fn determinism_same_run_twice() {
    let run = || {
        let config = scenario_config();
        let mut sim = Simulator::new(config);
        sim.load_instructions(vec![vle(1, 9), vle(2, 8), vfadd(3, 1, 2), add(10, 15, 31)]);
        let cycles = sim.main_sim_loop().unwrap();
        (cycles, sim.fetch_unit.get_pc())
    };
    let first = run();
    let second = run();
    assert_eq!(first, second);
}

/// An instruction the issue logic cannot map: a scalar-unit instruction
/// with a vector destination.
#[test]
fn unsupported_instruction_is_an_error() {
    let config = scenario_config();
    let mut sim = Simulator::new(config);
    let bad = Inst::Func(FuncInst::new(
        RegisterType::VectorRegister(1),
        vec![RegisterType::ScalarRegister(1)],
        FunctionUnitKeyType::IntegerAlu,
        false,
    ));
    sim.load_instructions(vec![bad]);
    assert_eq!(sim.main_sim_loop(), Err(SimError::UnsupportedInstruction));
}

/// A hazard blocks issue: after an instruction takes a scalar destination,
/// anything reading or overwriting that register is denied.
#[test]
fn hazard_blocks_common_issue() {
    let config = scenario_config();
    let mut rf = rvv_sim::sim::register::RegisterFile::new(&config);
    let first = match add(10, 15, 31) {
        Inst::Func(f) => f,
        _ => unreachable!(),
    };
    let reads_it = match add(11, 10, 12) {
        Inst::Func(f) => f,
        _ => unreachable!(),
    };
    let overwrites_it = match add(10, 12, 13) {
        Inst::Func(f) => f,
        _ => unreachable!(),
    };
    assert!(rf.can_issue_common_instruction(&first));
    rf.add_common_task(&first);
    assert!(!rf.can_issue_common_instruction(&reads_it));
    assert!(!rf.can_issue_common_instruction(&overwrites_it));
    rf.clean_write(&RegisterType::ScalarRegister(10));
    assert!(rf.can_issue_common_instruction(&reads_it));
}
