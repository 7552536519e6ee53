use vstd::prelude::*;

verus! {

/// The software-chosen vector shape of the serial execution model:
/// element count, element width in bits, and the group multiplier.
#[derive(Clone, Copy, Debug, PartialEq, Eq, Structural)]
pub struct VectorConfig {
    pub vl: usize,
    pub sew: usize,
    pub lmul: usize,
}

/// The hardware shape of the serial execution model: register width in
/// bits and the number of lanes.
#[derive(Clone, Copy, Debug, PartialEq, Eq, Structural)]
pub struct HardwareConfig {
    pub vlen: usize,
    pub lane_number: usize,
}

/// The serial engine's configuration value.
#[derive(Clone, Copy, Debug, PartialEq, Eq, Structural)]
pub struct Configuration {
    pub vector_config: VectorConfig,
    pub hardware_config: HardwareConfig,
}

impl VectorConfig {
    pub fn new(vl: usize, sew: usize, lmul: usize) -> (r: VectorConfig)
        ensures
            r == (VectorConfig { vl, sew, lmul }),
    {
        VectorConfig { vl, sew, lmul }
    }

    pub fn bytes_per_element(&self) -> (r: usize)
        ensures
            r == self.sew as int / 8,
    {
        self.sew / 8
    }

    /// Total bytes one vector operation moves: `vl` elements of
    /// `sew / 8` bytes.
    pub fn total_length(&self) -> (r: usize)
        requires
            self.vl * (self.sew as int / 8) <= usize::MAX,
        ensures
            r == self.vl * (self.sew as int / 8),
    {
        self.vl * self.bytes_per_element()
    }
}

impl HardwareConfig {
    pub fn new(vlen: usize, lane_number: usize) -> (r: HardwareConfig)
        ensures
            r == (HardwareConfig { vlen, lane_number }),
    {
        HardwareConfig { vlen, lane_number }
    }
}

impl Configuration {
    pub fn new(vector_config: VectorConfig, hardware_config: HardwareConfig) -> (r: Configuration)
        ensures
            r == (Configuration { vector_config, hardware_config }),
    {
        Configuration { vector_config, hardware_config }
    }
}

} // verus!
