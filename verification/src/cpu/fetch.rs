use vstd::prelude::*;
use crate::inst::Instruction;

verus! {

pub type Addr = u64;

/// The serial engine's front end: instructions are addressed in units of
/// four bytes, as in the machine's memory.
#[derive(Debug)]
pub struct Fetch {
    pub pc: Addr,
    pub inst_memory: Vec<Instruction>,
}

impl Fetch {
    pub fn new() -> (r: Fetch)
        ensures
            r.pc == 0,
            r.inst_memory@.len() == 0,
    {
        Fetch { pc: 0, inst_memory: Vec::new() }
    }

    pub fn load(&mut self, inst_memory: Vec<Instruction>)
        ensures
            final(self).pc == old(self).pc,
            final(self).inst_memory@ == inst_memory@,
    {
        self.inst_memory = inst_memory;
    }

    /// The instruction under the program counter, if the counter is still
    /// within the loaded sequence.
    pub fn fetch(&self) -> (r: Option<Instruction>)
        ensures
            match r {
                Some(inst) => self.pc as int / 4 < self.inst_memory@.len() && {
                    let orig = self.inst_memory@[self.pc as int / 4];
                    &&& inst.destination == orig.destination
                    &&& inst.resource@ == orig.resource@
                    &&& inst.operation_cycle == orig.operation_cycle
                    &&& inst.raw == orig.raw
                },
                None => self.pc as int / 4 >= self.inst_memory@.len(),
            },
    {
        let slot = self.pc / 4;
        if slot >= self.inst_memory.len() as u64 {
            return None;
        }
        Some(self.inst_memory[slot as usize].clone())
    }

    pub fn update_pc(&mut self, new_pc: Addr)
        ensures
            final(self).pc == new_pc,
            final(self).inst_memory@ == old(self).inst_memory@,
    {
        self.pc = new_pc;
    }

    pub fn next_pc(&mut self)
        requires
            old(self).pc + 4 <= u64::MAX,
        ensures
            final(self).pc == old(self).pc + 4,
            final(self).inst_memory@ == old(self).inst_memory@,
    {
        let new_pc = self.pc + 4;
        self.update_pc(new_pc);
    }

    pub fn is_empty(&self) -> (r: bool)
        ensures
            r == (self.pc as int / 4 >= self.inst_memory@.len()),
    {
        let slot = self.pc / 4;
        slot >= self.inst_memory.len() as u64
    }
}

} // verus!
