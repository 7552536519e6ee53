use vstd::prelude::*;
use crate::inst::Inst;

verus! {

/// The front end of the core: a decoded instruction sequence and the
/// program counter, one slot per instruction.
#[derive(Debug)]
pub struct Fetch {
    pub pc: usize,
    pub inst_memory: Vec<Inst>,
}

impl Fetch {
    pub fn new() -> (r: Fetch)
        ensures
            r.pc == 0,
            r.inst_memory@.len() == 0,
    {
        Fetch { pc: 0, inst_memory: Vec::new() }
    }

    pub fn load(&mut self, inst_memory: Vec<Inst>)
        ensures
            final(self).pc == old(self).pc,
            final(self).inst_memory@ == inst_memory@,
    {
        self.inst_memory = inst_memory;
    }

    /// The instruction at the program counter, if any is left.
    pub fn fetch(&self) -> (r: Option<Inst>)
        ensures
            match r {
                Some(inst) => self.pc < self.inst_memory@.len() && self.pc < usize::MAX
                    && inst.matches_spec(self.inst_memory@[self.pc as int]),
                None => self.pc >= self.inst_memory@.len(),
            },
    {
        if self.pc < self.inst_memory.len() {
            Some(self.inst_memory[self.pc].clone())
        } else {
            None
        }
    }

    pub fn update_pc(&mut self, new_pc: usize)
        ensures
            final(self).pc == new_pc,
            final(self).inst_memory@ == old(self).inst_memory@,
    {
        self.pc = new_pc;
    }

    pub fn next_pc(&mut self)
        requires
            old(self).pc < usize::MAX,
        ensures
            final(self).pc == old(self).pc + 1,
            final(self).inst_memory@ == old(self).inst_memory@,
    {
        let new_pc = self.pc + 1;
        self.update_pc(new_pc);
    }

    pub fn is_empty(&self) -> (r: bool)
        ensures
            r == (self.pc >= self.inst_memory@.len()),
    {
        self.pc >= self.inst_memory.len()
    }

    pub fn get_pc(&self) -> (r: usize)
        ensures
            r == self.pc,
    {
        self.pc
    }
}

} // verus!
