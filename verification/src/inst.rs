use vstd::prelude::*;
use crate::inst::func::FuncInst;
use crate::inst::mem::MemInst;

pub mod func;
pub mod mem;

verus! {

/// A place a byte counter can live in the serial execution model.
#[derive(Clone, Copy, Debug, PartialEq, Eq, Structural)]
pub enum MemoryPlace {
    VectorRegister(usize),
    ScalarRegister(usize),
    FloatingPointRegister(usize),
    Memory,
}

/// A source operand of the serial model: where it comes from and how many
/// bytes it must deliver.
#[derive(Clone, Copy, Debug, PartialEq, Eq, Structural)]
pub struct Resource {
    pub source: MemoryPlace,
    pub target_bytes: usize,
}

/// The destination of the serial model: where the result goes and how many
/// bytes it must receive.
#[derive(Clone, Copy, Debug, PartialEq, Eq, Structural)]
pub struct Destination {
    pub target: MemoryPlace,
    pub target_bytes: usize,
}

impl Resource {
    pub fn new(source: MemoryPlace, target_bytes: usize) -> (r: Resource)
        ensures
            r == (Resource { source, target_bytes }),
    {
        Resource { source, target_bytes }
    }
}

impl Destination {
    pub fn new(target: MemoryPlace, target_bytes: usize) -> (r: Destination)
        ensures
            r == (Destination { target, target_bytes }),
    {
        Destination { target, target_bytes }
    }
}

/// An instruction as the serial execution engine consumes it: a destination,
/// ordered sources, a fixed operation latency, and its mnemonic.
#[derive(Debug, PartialEq, Eq)]
pub struct Instruction {
    pub destination: Destination,
    pub resource: Vec<Resource>,
    pub operation_cycle: usize,
    pub raw: &'static str,
}

impl Instruction {
    pub fn new(
        destination: Destination,
        resource: Vec<Resource>,
        operation_cycle: usize,
        raw: &'static str,
    ) -> (r: Instruction)
        ensures
            r.destination == destination,
            r.resource@ == resource@,
            r.operation_cycle == operation_cycle,
            r.raw == raw,
    {
        Instruction { destination, resource, operation_cycle, raw }
    }
}

impl Clone for Instruction {
    fn clone(&self) -> (r: Self)
        ensures
            r.destination == self.destination,
            r.resource@ == self.resource@,
            r.operation_cycle == self.operation_cycle,
            r.raw == self.raw,
    {
        Instruction {
            destination: self.destination,
            resource: copy_resources(&self.resource),
            operation_cycle: self.operation_cycle,
            raw: self.raw,
        }
    }
}

fn copy_resources(v: &Vec<Resource>) -> (r: Vec<Resource>)
    ensures
        r@ == v@,
{
    let mut r: Vec<Resource> = Vec::new();
    let mut i: usize = 0;
    while i < v.len()
        invariant
            i <= v.len(),
            r@ == v@.subrange(0, i as int),
        decreases v.len() - i,
    {
        r.push(v[i]);
        i = i + 1;
        proof {
            assert(r@ =~= v@.subrange(0, i as int));
        }
    }
    proof {
        assert(r@ =~= v@);
    }
    r
}

/// An instruction as the core's issue logic consumes it: a functional
/// instruction or a memory access.
#[derive(Debug, PartialEq, Eq)]
pub enum Inst {
    Func(FuncInst),
    Mem(MemInst),
}

impl Clone for Inst {
    fn clone(&self) -> (r: Self)
        ensures
            r.matches_spec(*self),
    {
        match self {
            Inst::Func(f) => Inst::Func(f.clone()),
            Inst::Mem(m) => Inst::Mem(*m),
        }
    }
}

impl Inst {
    /// The clone carries the same fields; only the view of the source list is
    /// compared, as `Vec` equality in specifications goes through views.
    pub open spec fn matches_spec(self, other: Inst) -> bool {
        match (self, other) {
            (Inst::Func(a), Inst::Func(b)) => a.matches_spec(b),
            (Inst::Mem(a), Inst::Mem(b)) => a == b,
            _ => false,
        }
    }
}

} // verus!
