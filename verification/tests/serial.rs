use rvv_sim::cpu::execute::Execute;
use rvv_sim::cpu::fetch::Fetch;
use rvv_sim::inst::{Destination, Instruction, MemoryPlace, Resource};
use rvv_sim::sim::vector_config::{Configuration, HardwareConfig, VectorConfig};

#[test]
fn test_serial() {
    println!("This is a test for serial execution");

    let config = Configuration::new(
        VectorConfig::new(64, 64, 1),
        HardwareConfig::new(4096, 4),
    );

    let target_bytes = config.vector_config.total_length();

    let inst_memory = vec![
        Instruction::new(
            Destination::new(MemoryPlace::VectorRegister(1), target_bytes),
            vec![Resource::new(MemoryPlace::Memory, target_bytes)],
            1,
            "vle64.v v1, (s1)",
        ),
        Instruction::new(
            Destination::new(MemoryPlace::VectorRegister(2), target_bytes),
            vec![Resource::new(MemoryPlace::Memory, target_bytes)],
            1,
            "vle64.v v2, (s0)",
        ),
        Instruction::new(
            Destination::new(MemoryPlace::VectorRegister(3), target_bytes),
            vec![
                Resource::new(MemoryPlace::VectorRegister(1), target_bytes),
                Resource::new(MemoryPlace::VectorRegister(2), target_bytes),
            ],
            3,
            "vadd.vv v3, v1, v2",
        ),
    ];
    let mut fetch = Fetch::new();
    fetch.load(inst_memory);

    let mut execute = Execute::new(16, 32, config);

    let mut num_cycle: usize = 0;

    while !fetch.is_empty() || !execute.is_empty() {
        println!("Now simulate the cycle {}", num_cycle);

        execute.execute_serial();

        let inst = fetch.fetch();
        match inst {
            Some(inst) => {
                println!("Fetch instruction: {:?}", inst);
                match execute.push(inst) {
                    Ok(_) => {
                        println!("Push instruction to execute queue success");
                        fetch.next_pc();
                    }
                    Err(s) => {
                        println!("Push instruction to execute queue failed: {}", s);
                    }
                }
            }
            None => {}
        }
        num_cycle += 1;
    }

    println!("The simulation is finished");
    println!("The number of cycles is {num_cycle}");
}

#[test]
fn test_jaccobi() {}

#[test]
fn serial_queue_capacity() {
    let config = Configuration::new(VectorConfig::new(4, 64, 1), HardwareConfig::new(4096, 4));
    let mut execute = Execute::new(1, 32, config);
    let inst = |raw: &'static str| {
        Instruction::new(
            Destination::new(MemoryPlace::VectorRegister(1), 32),
            vec![Resource::new(MemoryPlace::Memory, 32)],
            1,
            raw,
        )
    };
    assert!(execute.push(inst("vle64.v v1, (s1)")).is_ok());
    let refused = execute.push(inst("vle64.v v2, (s0)"));
    assert_eq!(refused, Err("Execute queue is full"));
}

#[test]
fn serial_single_instruction_completes() {
    let config = Configuration::new(VectorConfig::new(4, 64, 1), HardwareConfig::new(4096, 4));
    let mut execute = Execute::new(16, 32, config);
    execute
        .push(Instruction::new(
            Destination::new(MemoryPlace::VectorRegister(1), 32),
            vec![Resource::new(MemoryPlace::Memory, 32)],
            1,
            "vle64.v v1, (s1)",
        ))
        .unwrap();
    assert!(!execute.is_empty());
    for _ in 0..10 {
        execute.execute_serial();
    }
    assert!(execute.is_empty());
}

#[test]
fn serial_forwarding_chain() {
    let config = Configuration::new(VectorConfig::new(4, 64, 1), HardwareConfig::new(4096, 4));
    let mut execute = Execute::new(16, 8, config);
    execute
        .push(Instruction::new(
            Destination::new(MemoryPlace::VectorRegister(1), 32),
            vec![Resource::new(MemoryPlace::Memory, 32)],
            1,
            "vle64.v v1, (s1)",
        ))
        .unwrap();
    execute
        .push(Instruction::new(
            Destination::new(MemoryPlace::VectorRegister(3), 32),
            vec![
                Resource::new(MemoryPlace::VectorRegister(1), 32),
                Resource::new(MemoryPlace::VectorRegister(2), 32),
            ],
            3,
            "vadd.vv v3, v1, v2",
        ))
        .unwrap();
    // The add's first source forwards from the load; its second has no
    // producer in the queue and streams freely.
    assert_eq!(execute.execute_queue[1].forwarding[0], Some(0));
    assert_eq!(execute.execute_queue[1].forwarding[1], None);
    for _ in 0..30 {
        execute.execute_serial();
    }
    assert!(execute.is_empty());
}
