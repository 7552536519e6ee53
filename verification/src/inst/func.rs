use vstd::prelude::*;
use crate::config::SimulatorConfig;
use crate::sim::register::RegisterType;
use crate::sim::unit::function_unit::FunctionUnitKeyType;

verus! {

/// A functional (non-memory) instruction: destination register, ordered
/// source registers, the key of the unit that executes it, and whether the
/// operation is a floating-point one (which picks the float latency on the
/// vector units).
#[derive(Debug, PartialEq, Eq)]
pub struct FuncInst {
    pub destination: RegisterType,
    pub resource: Vec<RegisterType>,
    pub func_unit_key: FunctionUnitKeyType,
    pub is_float_op: bool,
}

impl FuncInst {
    pub fn new(
        destination: RegisterType,
        resource: Vec<RegisterType>,
        func_unit_key: FunctionUnitKeyType,
        is_float_op: bool,
    ) -> (r: FuncInst)
        ensures
            r.destination == destination,
            r.resource@ == resource@,
            r.func_unit_key == func_unit_key,
            r.is_float_op == is_float_op,
    {
        FuncInst { destination, resource, func_unit_key, is_float_op }
    }

    /// Field-wise equality, with the source list compared by view.
    pub open spec fn matches_spec(self, other: FuncInst) -> bool {
        &&& self.destination == other.destination
        &&& self.resource@ == other.resource@
        &&& self.func_unit_key == other.func_unit_key
        &&& self.is_float_op == other.is_float_op
    }

    pub fn get_key_type(&self) -> (r: FunctionUnitKeyType)
        ensures
            r == self.func_unit_key,
    {
        self.func_unit_key
    }

    pub fn is_float(&self) -> (r: bool)
        ensures
            r == self.is_float_op,
    {
        self.is_float_op
    }

    /// Whether any source is a vector register, in which case the
    /// instruction moves a whole vector's worth of bytes.
    pub open spec fn spec_is_vector(self) -> bool {
        exists|i: int| 0 <= i < self.resource@.len() && self.resource@[i] is VectorRegister
    }

    /// Bytes the instruction processes: the active vector width when any
    /// source is a vector register, else one scalar register of 8 bytes.
    pub open spec fn spec_total_bytes(self, config: SimulatorConfig) -> int {
        if self.spec_is_vector() {
            config.vector_config.spec_using_bytes()
        } else {
            8
        }
    }

    pub fn total_process_bytes(&self, config: &SimulatorConfig) -> (r: u32)
        requires
            config.wf(),
        ensures
            r == self.spec_total_bytes(*config),
    {
        let mut i: usize = 0;
        let mut has_vector: bool = false;
        while i < self.resource.len()
            invariant
                i <= self.resource.len(),
                has_vector == exists|j: int| 0 <= j < i && self.resource@[j] is VectorRegister,
            decreases self.resource.len() - i,
        {
            if matches!(self.resource[i], RegisterType::VectorRegister(_)) {
                has_vector = true;
            }
            i = i + 1;
        }
        if has_vector {
            config.get_vector_register_using_bytes()
        } else {
            8
        }
    }
}

impl FuncInst {
    /// What the issue logic can map: register names in range, and a shape
    /// that matches the instruction's unit — a vector-unit instruction
    /// moves exactly its destination's bytes, a scalar/float-unit
    /// instruction touches no vector register.
    pub open spec fn spec_valid(self, config: SimulatorConfig) -> bool {
        &&& self.destination.spec_id_ok()
        &&& forall|i: int|
            0 <= i < self.resource@.len() ==> (#[trigger] self.resource@[i]).spec_id_ok()
        &&& self.resource@.len() <= 32
        &&& if self.func_unit_key.is_vector_key() {
            self.spec_total_bytes(config) == self.destination.spec_get_bytes(config)
        } else {
            &&& !(self.destination is VectorRegister)
            &&& forall|i: int|
                0 <= i < self.resource@.len() ==> !((#[trigger] self.resource@[i])
                    is VectorRegister)
        }
    }

    pub fn check_valid(&self, config: &SimulatorConfig) -> (r: bool)
        requires
            config.wf(),
        ensures
            r == self.spec_valid(*config),
    {
        if !check_reg_id(&self.destination) {
            return false;
        }
        if self.resource.len() > 32 {
            return false;
        }
        let mut i: usize = 0;
        while i < self.resource.len()
            invariant
                i <= self.resource@.len(),
                forall|k: int|
                    0 <= k < i ==> (#[trigger] self.resource@[k]).spec_id_ok(),
            decreases self.resource@.len() - i,
        {
            if !check_reg_id(&self.resource[i]) {
                return false;
            }
            i = i + 1;
        }
        let vector_key = matches!(
            self.func_unit_key,
            FunctionUnitKeyType::VectorAlu
                | FunctionUnitKeyType::VectorMul
                | FunctionUnitKeyType::VectorDiv
                | FunctionUnitKeyType::VectorSlide
                | FunctionUnitKeyType::VectorMacc
        );
        if vector_key {
            let total = self.total_process_bytes(config);
            let dest_bytes = self.destination.get_bytes(config);
            total == dest_bytes
        } else {
            if matches!(self.destination, RegisterType::VectorRegister(_)) {
                return false;
            }
            let mut j: usize = 0;
            while j < self.resource.len()
                invariant
                    j <= self.resource@.len(),
                    !self.func_unit_key.is_vector_key(),
                    forall|k: int|
                        0 <= k < j ==> !((#[trigger] self.resource@[k]) is VectorRegister),
                decreases self.resource@.len() - j,
            {
                if matches!(self.resource[j], RegisterType::VectorRegister(_)) {
                    return false;
                }
                j = j + 1;
            }
            true
        }
    }
}

fn check_reg_id(reg: &RegisterType) -> (r: bool)
    ensures
        r == reg.spec_id_ok(),
{
    match reg {
        RegisterType::ScalarRegister(id) => *id < 32,
        RegisterType::VectorRegister(id) => *id < 32,
        RegisterType::FloatRegister(id) => *id < 32,
    }
}

impl Clone for FuncInst {
    fn clone(&self) -> (r: Self)
        ensures
            r.matches_spec(*self),
    {
        FuncInst {
            destination: self.destination,
            resource: copy_register_list(&self.resource),
            func_unit_key: self.func_unit_key,
            is_float_op: self.is_float_op,
        }
    }
}

fn copy_register_list(v: &Vec<RegisterType>) -> (r: Vec<RegisterType>)
    ensures
        r@ == v@,
{
    let mut r: Vec<RegisterType> = Vec::new();
    let mut i: usize = 0;
    while i < v.len()
        invariant
            i <= v.len(),
            r@ == v@.subrange(0, i as int),
        decreases v.len() - i,
    {
        r.push(v[i]);
        i = i + 1;
        proof {
            assert(r@ =~= v@.subrange(0, i as int));
        }
    }
    proof {
        assert(r@ =~= v@);
    }
    r
}

} // verus!
