use vstd::prelude::*;
use crate::config::SimulatorConfig;
use crate::sim::register::RegisterType;

verus! {

/// The direction of a memory access, seen from memory: `Read` loads from
/// memory into a register, `Write` stores a register into memory.
#[derive(Clone, Copy, Debug, PartialEq, Eq, Structural)]
pub enum Direction {
    Read,
    Write,
}

/// The address dependency of a memory access: the scalar register that must
/// be resolved before bytes can flow.
#[derive(Clone, Copy, Debug, PartialEq, Eq, Structural)]
pub struct MemAddr {
    pub dependency: RegisterType,
}

impl MemAddr {
    pub fn new(dependency: RegisterType) -> (r: MemAddr)
        ensures
            r.dependency == dependency,
    {
        MemAddr { dependency }
    }
}

/// A memory instruction: a direction, an address dependency, and the data
/// register whose bytes move.
#[derive(Clone, Copy, Debug, PartialEq, Eq, Structural)]
pub struct MemInst {
    pub dir: Direction,
    pub mem_addr: MemAddr,
    pub reg: RegisterType,
}

impl MemInst {
    pub fn new(dir: Direction, mem_addr: MemAddr, reg: RegisterType) -> (r: MemInst)
        ensures
            r == (MemInst { dir, mem_addr, reg }),
    {
        MemInst { dir, mem_addr, reg }
    }

    /// What the issue logic can map: register names in range, and a scalar
    /// or float address-dependency register.
    pub open spec fn spec_valid(self) -> bool {
        &&& self.reg.spec_id_ok()
        &&& self.mem_addr.dependency.spec_id_ok()
        &&& !(self.mem_addr.dependency is VectorRegister)
    }

    pub fn check_valid(&self) -> (r: bool)
        ensures
            r == self.spec_valid(),
    {
        let reg_ok = match self.reg {
            RegisterType::ScalarRegister(id) => id < 32,
            RegisterType::VectorRegister(id) => id < 32,
            RegisterType::FloatRegister(id) => id < 32,
        };
        let dep_ok = match self.mem_addr.dependency {
            RegisterType::ScalarRegister(id) => id < 32,
            RegisterType::FloatRegister(id) => id < 32,
            RegisterType::VectorRegister(_) => false,
        };
        reg_ok && dep_ok
    }

    /// Bytes the access moves: the byte width of the data register.
    pub fn get_total_bytes(&self, config: &SimulatorConfig) -> (r: u32)
        requires
            config.wf(),
        ensures
            r == self.reg.spec_get_bytes(*config),
    {
        self.reg.get_bytes(config)
    }
}

} // verus!
