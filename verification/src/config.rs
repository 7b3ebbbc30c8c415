//! Public device / compute / threading configuration, and its translation
//! into the engine-native configuration shape.
//!
//! The public shapes are decoupled from the engine-native ones so that the
//! public surface can evolve without breaking the engine call signature;
//! the translation is a pure, exhaustive mapping with no fallible path.

use vstd::prelude::*;

verus! {

/// Device on which a model handle is placed. Immutable once the handle is built.
#[derive(Clone, Copy, Debug, PartialEq, Eq, Structural)]
pub enum Device {
    CPU,
    CUDA,
}

/// Model computation (precision / quantization) mode.
#[derive(Clone, Copy, Debug, PartialEq, Eq, Structural)]
pub enum ComputeType {
    Default,
    Auto,
    Float32,
    Int8,
    Int8Float16,
    Int16,
    Float16,
}

/// Whether a batch size cap counts examples or tokens.
#[derive(Clone, Copy, Debug, PartialEq, Eq, Structural)]
pub enum BatchType {
    Examples,
    Tokens,
}

impl Default for BatchType {
    fn default() -> (r: Self)
        ensures
            r is Examples,
    {
        BatchType::Examples
    }
}

/// User-facing model configuration, consumed once at model-handle construction.
pub struct Config {
    /// Model computation type.
    pub compute_type: ComputeType,
    /// Device IDs where to place the model replicas.
    pub device_indices: Vec<i32>,
    /// Number of worker threads per replica.
    pub num_threads_per_replica: usize,
    /// Maximum number of queued batches (a value of zero or less means
    /// unbounded / blocking-dependent behaviour).
    pub max_queued_batches: i64,
    /// CPU core pinning offset.
    pub cpu_core_offset: i32,
}

/// Engine-native computation mode.
#[derive(Clone, Copy, Debug, PartialEq, Eq, Structural)]
pub enum EngineComputeType {
    Default,
    Auto,
    Float32,
    Int8,
    Int8Float16,
    Int16,
    Float16,
}

/// Engine-native batch-size unit.
#[derive(Clone, Copy, Debug, PartialEq, Eq, Structural)]
pub enum EngineBatchType {
    Examples,
    Tokens,
}

/// Engine-native configuration value handed to model-handle construction.
pub struct EngineConfig {
    pub compute_type: EngineComputeType,
    pub device_indices: Vec<i32>,
    pub num_threads_per_replica: usize,
    pub max_queued_batches: i64,
    pub cpu_core_offset: i32,
}

/// The engine-native mode that each public computation mode maps to.
pub open spec fn engine_compute_type_of(ct: ComputeType) -> EngineComputeType {
    match ct {
        ComputeType::Default => EngineComputeType::Default,
        ComputeType::Auto => EngineComputeType::Auto,
        ComputeType::Float32 => EngineComputeType::Float32,
        ComputeType::Int8 => EngineComputeType::Int8,
        ComputeType::Int8Float16 => EngineComputeType::Int8Float16,
        ComputeType::Int16 => EngineComputeType::Int16,
        ComputeType::Float16 => EngineComputeType::Float16,
    }
}

/// The engine-native unit that each public batch-size unit maps to.
pub open spec fn engine_batch_type_of(bt: BatchType) -> EngineBatchType {
    match bt {
        BatchType::Examples => EngineBatchType::Examples,
        BatchType::Tokens => EngineBatchType::Tokens,
    }
}

/// Maps a public computation mode to the engine-native one; the match is
/// exhaustive, so a new public mode cannot be dropped silently.
pub fn compute_type_to_engine(ct: ComputeType) -> (r: EngineComputeType)
    ensures
        r == engine_compute_type_of(ct),
{
    match ct {
        ComputeType::Default => EngineComputeType::Default,
        ComputeType::Auto => EngineComputeType::Auto,
        ComputeType::Float32 => EngineComputeType::Float32,
        ComputeType::Int8 => EngineComputeType::Int8,
        ComputeType::Int8Float16 => EngineComputeType::Int8Float16,
        ComputeType::Int16 => EngineComputeType::Int16,
        ComputeType::Float16 => EngineComputeType::Float16,
    }
}

/// Maps a public batch-size unit to the engine-native one.
pub fn batch_type_to_engine(bt: BatchType) -> (r: EngineBatchType)
    ensures
        r == engine_batch_type_of(bt),
{
    match bt {
        BatchType::Examples => EngineBatchType::Examples,
        BatchType::Tokens => EngineBatchType::Tokens,
    }
}

/// Whether the device selects the accelerated back end.
pub fn device_is_cuda(device: Device) -> (r: bool)
    ensures
        r == (device is CUDA),
{
    match device {
        Device::CPU => false,
        Device::CUDA => true,
    }
}

impl Config {
    /// Translates the public configuration into the engine-native shape,
    /// carrying every field over unchanged but for the computation mode,
    /// which is mapped between the two enumerations.
    pub fn to_engine(self) -> (r: EngineConfig)
        ensures
            r.compute_type == engine_compute_type_of(self.compute_type),
            r.device_indices == self.device_indices,
            r.num_threads_per_replica == self.num_threads_per_replica,
            r.max_queued_batches == self.max_queued_batches,
            r.cpu_core_offset == self.cpu_core_offset,
    {
        EngineConfig {
            compute_type: compute_type_to_engine(self.compute_type),
            device_indices: self.device_indices,
            num_threads_per_replica: self.num_threads_per_replica,
            max_queued_batches: self.max_queued_batches,
            cpu_core_offset: self.cpu_core_offset,
        }
    }
}

} // verus!
