use vstd::prelude::*;

verus! {

/// Latency of one functional unit, in cycles per event.
#[derive(Clone, Copy, Debug, PartialEq, Eq, Structural)]
pub struct Unit {
    pub latency: u32,
}

/// Latencies of the scalar and float functional units.
#[derive(Clone, Copy, Debug, PartialEq, Eq, Structural)]
pub struct FunctionUnits {
    pub interger_alu: Unit,
    pub interger_multiplier: Unit,
    pub float_alu: Unit,
    pub float_multiplier: Unit,
    pub interger_divider: Unit,
    pub float_divider: Unit,
    pub branch_unit: Unit,
}

/// Load/store unit shape: per-port bandwidth and the number of ports.
#[derive(Clone, Copy, Debug, PartialEq, Eq, Structural)]
pub struct LoadStoreUnit {
    pub latency: u32,
    pub max_access_width: u32,
    pub read_ports_limit: u32,
    pub write_ports_limit: u32,
}

#[derive(Clone, Copy, Debug, PartialEq, Eq, Structural)]
pub struct MemoryUnits {
    pub load_store_unit: LoadStoreUnit,
}

/// Active vector shape chosen by software: element count, element width in
/// bits, and the register-group multiplier.
#[derive(Clone, Copy, Debug, PartialEq, Eq, Structural)]
pub struct SoftwareConfig {
    pub vl: u32,
    pub sew: u32,
    pub lmul: u32,
}

/// Physical vector width in bits and the number of lanes.
#[derive(Clone, Copy, Debug, PartialEq, Eq, Structural)]
pub struct HardwareConfig {
    pub vlen: u32,
    pub lane_number: u32,
}

#[derive(Clone, Copy, Debug, PartialEq, Eq, Structural)]
pub struct VectorConfig {
    pub software: SoftwareConfig,
    pub hardware: HardwareConfig,
}

#[derive(Clone, Copy, Debug, PartialEq, Eq, Structural)]
pub struct VectorRegisterPorts {
    pub read_ports_limit: u32,
    pub write_ports_limit: u32,
}

#[derive(Clone, Copy, Debug, PartialEq, Eq, Structural)]
pub struct VectorRegister {
    pub ports: VectorRegisterPorts,
}

/// Per-resource byte caps of the unit buffers.
#[derive(Clone, Copy, Debug, PartialEq, Eq, Structural)]
pub struct BufferConfig {
    pub input_maximum_size: u32,
    pub result_maximum_size: u32,
}

/// Per-cycle, per-register forwarding width in bytes.
#[derive(Clone, Copy, Debug, PartialEq, Eq, Structural)]
pub struct RegisterConfig {
    pub maximum_forward_bytes: u32,
}

/// The immutable configuration value that the whole core reads.
#[derive(Clone, Copy, Debug, PartialEq, Eq, Structural)]
pub struct SimulatorConfig {
    pub function_units: FunctionUnits,
    pub memory_units: MemoryUnits,
    pub vector_config: VectorConfig,
    pub vector_register: VectorRegister,
    pub buffer: BufferConfig,
    pub register: RegisterConfig,
}

impl FunctionUnits {
    /// Every latency is at least one cycle: an event always spends at least
    /// one tick in a unit's queue before it matures.
    pub open spec fn wf(self) -> bool {
        &&& self.interger_alu.latency >= 1
        &&& self.interger_multiplier.latency >= 1
        &&& self.float_alu.latency >= 1
        &&& self.float_multiplier.latency >= 1
        &&& self.interger_divider.latency >= 1
        &&& self.float_divider.latency >= 1
        &&& self.branch_unit.latency >= 1
    }
}

impl VectorConfig {
    /// The bytes a vector instruction moves: `vl * sew / 8`.
    pub open spec fn spec_using_bytes(self) -> int {
        (self.software.sew as int / 8) * self.software.vl as int
    }

    /// The bytes one lane-wide event carries: `lane_number * sew / 8`.
    pub open spec fn spec_data_length(self) -> int {
        self.hardware.lane_number as int * self.software.sew as int / 8
    }

    /// Machine limits: the derived byte counts fit in `u32`.
    pub open spec fn fits(self) -> bool {
        &&& self.spec_using_bytes() <= u32::MAX
        &&& self.hardware.lane_number as int * self.software.sew as int <= u32::MAX
    }

    /// Total bytes of one physical vector register.
    pub fn get_vector_register_bytes(&self) -> (r: u32)
        ensures
            r == self.hardware.vlen as int / 8,
    {
        self.hardware.vlen / 8
    }

    /// Bytes of a vector register that the active shape uses.
    pub fn get_vector_register_using_bytes(&self) -> (r: u32)
        requires
            self.fits(),
        ensures
            r == self.spec_using_bytes(),
    {
        (self.software.sew / 8) * self.software.vl
    }

    pub fn get_vector_elements_count(&self) -> (r: u32)
        ensures
            r == self.software.vl,
    {
        self.software.vl
    }

    pub fn get_element_bytes(&self) -> (r: u32)
        ensures
            r == self.software.sew as int / 8,
    {
        self.software.sew / 8
    }

    /// Total bytes of one vector operation, `vl` elements of `sew / 8` bytes.
    pub fn get_total_bytes(&self) -> (r: u32)
        requires
            self.fits(),
        ensures
            r == self.software.vl as int * (self.software.sew as int / 8),
    {
        self.software.vl * (self.software.sew / 8)
    }

    /// The shape is valid iff `vl * sew <= vlen`.
    pub fn is_valid(&self) -> (r: bool)
        ensures
            r == self.spec_is_valid(),
    {
        proof {
            assert(self.software.vl as int * self.software.sew as int <= u32::MAX as int
                * u32::MAX as int) by (nonlinear_arith)
                requires
                    self.software.vl <= u32::MAX,
                    self.software.sew <= u32::MAX,
            ;
        }
        (self.software.vl as u64 * self.software.sew as u64) <= self.hardware.vlen as u64
    }

    pub open spec fn spec_is_valid(self) -> bool {
        self.software.vl as int * self.software.sew as int <= self.hardware.vlen as int
    }
}

impl SimulatorConfig {
    /// What the core demands of any configuration it runs under: latencies of
    /// at least one cycle, and derived byte counts that fit the machine.
    /// The vector-shape validity `vl * sew <= vlen` is deliberately not here:
    /// an invalid shape is representable and is rejected at run time.
    pub open spec fn wf(self) -> bool {
        &&& self.function_units.wf()
        &&& self.vector_config.fits()
    }

    pub fn get_vector_register_bytes(&self) -> (r: u32)
        ensures
            r == self.vector_config.hardware.vlen as int / 8,
    {
        self.vector_config.get_vector_register_bytes()
    }

    pub fn get_vector_register_using_bytes(&self) -> (r: u32)
        requires
            self.wf(),
        ensures
            r == self.vector_config.spec_using_bytes(),
    {
        self.vector_config.get_vector_register_using_bytes()
    }

    pub fn get_vector_elements_count(&self) -> (r: u32)
        ensures
            r == self.vector_config.software.vl,
    {
        self.vector_config.get_vector_elements_count()
    }

    pub fn get_element_bytes(&self) -> (r: u32)
        ensures
            r == self.vector_config.software.sew as int / 8,
    {
        self.vector_config.get_element_bytes()
    }

    pub fn get_total_vector_bytes(&self) -> (r: u32)
        requires
            self.wf(),
        ensures
            r == self.vector_config.software.vl as int * (self.vector_config.software.sew as int / 8),
    {
        self.vector_config.get_total_bytes()
    }

    pub fn get_vector_lane_number(&self) -> (r: u32)
        ensures
            r == self.vector_config.hardware.lane_number,
    {
        self.vector_config.hardware.lane_number
    }

    pub fn get_maximum_forward_bytes(&self) -> (r: u32)
        ensures
            r == self.register.maximum_forward_bytes,
    {
        self.register.maximum_forward_bytes
    }

    pub fn get_memory_read_ports_limit(&self) -> (r: usize)
        ensures
            r == self.memory_units.load_store_unit.read_ports_limit,
    {
        self.memory_units.load_store_unit.read_ports_limit as usize
    }

    pub fn get_memory_write_ports_limit(&self) -> (r: usize)
        ensures
            r == self.memory_units.load_store_unit.write_ports_limit,
    {
        self.memory_units.load_store_unit.write_ports_limit as usize
    }

    pub fn get_max_access_width(&self) -> (r: u32)
        ensures
            r == self.memory_units.load_store_unit.max_access_width,
    {
        self.memory_units.load_store_unit.max_access_width
    }

    /// Bytes one lane-wide vector event carries per cycle.
    pub fn get_data_length(&self) -> (r: u32)
        requires
            self.wf(),
        ensures
            r == self.vector_config.spec_data_length(),
    {
        self.vector_config.hardware.lane_number * self.vector_config.software.sew / 8
    }

    pub fn get_vector_register_read_ports_limit(&self) -> (r: u32)
        ensures
            r == self.vector_register.ports.read_ports_limit,
    {
        self.vector_register.ports.read_ports_limit
    }

    pub fn get_vector_register_write_ports_limit(&self) -> (r: u32)
        ensures
            r == self.vector_register.ports.write_ports_limit,
    {
        self.vector_register.ports.write_ports_limit
    }
}

impl Default for Unit {
    fn default() -> (r: Self)
        ensures
            r.latency == 1,
    {
        Unit { latency: 1 }
    }
}

impl Default for LoadStoreUnit {
    fn default() -> (r: Self)
        ensures
            r == (LoadStoreUnit {
                latency: 1,
                max_access_width: 64,
                read_ports_limit: 2,
                write_ports_limit: 2,
            }),
    {
        LoadStoreUnit { latency: 1, max_access_width: 64, read_ports_limit: 2, write_ports_limit: 2 }
    }
}

impl Default for MemoryUnits {
    fn default() -> (r: Self)
        ensures
            r.load_store_unit == (LoadStoreUnit {
                latency: 1,
                max_access_width: 64,
                read_ports_limit: 2,
                write_ports_limit: 2,
            }),
    {
        MemoryUnits { load_store_unit: LoadStoreUnit::default() }
    }
}

impl Default for FunctionUnits {
    fn default() -> (r: Self)
        ensures
            r.wf(),
            r.interger_alu.latency == 1,
            r.interger_multiplier.latency == 1,
            r.float_alu.latency == 1,
            r.float_multiplier.latency == 1,
            r.interger_divider.latency == 1,
            r.float_divider.latency == 1,
            r.branch_unit.latency == 1,
    {
        FunctionUnits {
            interger_alu: Unit::default(),
            interger_multiplier: Unit::default(),
            float_alu: Unit::default(),
            float_multiplier: Unit::default(),
            interger_divider: Unit::default(),
            float_divider: Unit::default(),
            branch_unit: Unit::default(),
        }
    }
}

impl Default for SoftwareConfig {
    fn default() -> (r: Self)
        ensures
            r == (SoftwareConfig { vl: 64, sew: 32, lmul: 1 }),
    {
        SoftwareConfig { vl: 64, sew: 32, lmul: 1 }
    }
}

impl Default for HardwareConfig {
    fn default() -> (r: Self)
        ensures
            r == (HardwareConfig { vlen: 4096, lane_number: 4 }),
    {
        HardwareConfig { vlen: 4096, lane_number: 4 }
    }
}

impl Default for VectorConfig {
    fn default() -> (r: Self)
        ensures
            r.software == (SoftwareConfig { vl: 64, sew: 32, lmul: 1 }),
            r.hardware == (HardwareConfig { vlen: 4096, lane_number: 4 }),
            r.fits(),
            r.spec_is_valid(),
    {
        VectorConfig { software: SoftwareConfig::default(), hardware: HardwareConfig::default() }
    }
}

impl Default for VectorRegisterPorts {
    fn default() -> (r: Self)
        ensures
            r == (VectorRegisterPorts { read_ports_limit: 2, write_ports_limit: 1 }),
    {
        VectorRegisterPorts { read_ports_limit: 2, write_ports_limit: 1 }
    }
}

impl Default for VectorRegister {
    fn default() -> (r: Self)
        ensures
            r.ports == (VectorRegisterPorts { read_ports_limit: 2, write_ports_limit: 1 }),
    {
        VectorRegister { ports: VectorRegisterPorts::default() }
    }
}

impl Default for BufferConfig {
    fn default() -> (r: Self)
        ensures
            r == (BufferConfig { input_maximum_size: 64, result_maximum_size: 64 }),
    {
        BufferConfig { input_maximum_size: 64, result_maximum_size: 64 }
    }
}

impl Default for RegisterConfig {
    fn default() -> (r: Self)
        ensures
            r.maximum_forward_bytes == 32,
    {
        RegisterConfig { maximum_forward_bytes: 32 }
    }
}

impl Default for SimulatorConfig {
    fn default() -> (r: Self)
        ensures
            r.wf(),
            r.vector_config.spec_is_valid(),
    {
        SimulatorConfig {
            function_units: FunctionUnits::default(),
            memory_units: MemoryUnits::default(),
            vector_config: VectorConfig::default(),
            vector_register: VectorRegister::default(),
            buffer: BufferConfig::default(),
            register: RegisterConfig::default(),
        }
    }
}

} // verus!
