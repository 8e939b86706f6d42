//! The compute-backend interface and its CPU reference.
//!
//! A backend hands out device buffers, moves samples between host slices and
//! device buffers, and reports what it can do. The CPU reference keeps every
//! buffer in host memory, so that it is always there to fall back to.

use crate::error::{GpuError, VortexError, VortexResult};
use crate::ratio::Ratio;
use core::marker::PhantomData;
use vstd::prelude::*;
use vstd::string::StringExecFns;

verus! {

/// The kinds of backend.
#[derive(Debug, Clone, Copy, PartialEq, Eq, Structural)]
pub enum GpuBackendType {
    Cuda,
    OpenCL,
    Vulkan,
    Cpu,
}

/// The shapes of an equaliser band that a backend knows.
#[derive(Debug, Clone, Copy, PartialEq, Eq, Structural)]
pub enum EqFilterType {
    Peak,
    LowShelf,
    HighShelf,
    LowPass,
    HighPass,
}

/// What a backend reports of itself.
#[derive(Debug)]
pub struct GpuCapabilities {
    pub backend_type: GpuBackendType,
    pub device_name: String,
    pub compute_units: u32,
    pub max_memory_mb: usize,
    pub supports_fp64: bool,
    pub supports_async_transfer: bool,
}

impl Clone for GpuCapabilities {
    fn clone(&self) -> (copy: Self)
        ensures
            copy == *self,
    {
        GpuCapabilities {
            backend_type: self.backend_type,
            device_name: self.device_name.clone(),
            compute_units: self.compute_units,
            max_memory_mb: self.max_memory_mb,
            supports_fp64: self.supports_fp64,
            supports_async_transfer: self.supports_async_transfer,
        }
    }
}

impl GpuCapabilities {
    /// A backend has at least one compute unit and some memory.
    pub open spec fn is_valid(&self) -> bool {
        self.compute_units > 0 && self.max_memory_mb > 0
    }
}

/// Memory of a backend, in MiB, and the share of it that is in use as the
/// quotient of `100 * used_mb` and `total_mb`.
#[derive(Debug, Clone, Copy, PartialEq, Eq, Structural)]
pub struct GpuMemoryInfo {
    pub total_mb: usize,
    pub used_mb: usize,
    pub available_mb: usize,
    pub usage_percentage: Ratio,
}

/// A region of memory that a backend has handed out.
///
/// `spec_size`, `spec_alignment` and `spec_is_device_memory` name what the
/// three methods return. A buffer type written in verified code says what
/// they stand for; of one written in ordinary Rust the verifier takes them to
/// be unknown, and the bodies below are never relied on.
pub trait GpuBuffer {
    closed spec fn spec_size(&self) -> usize {
        arbitrary()
    }

    closed spec fn spec_alignment(&self) -> usize {
        arbitrary()
    }

    closed spec fn spec_is_device_memory(&self) -> bool {
        arbitrary()
    }

    /// Size of the region in bytes.
    fn size(&self) -> (bytes: usize)
        ensures
            bytes == self.spec_size(),
    ;

    /// Whether the region lies in device memory rather than in host memory.
    fn is_device_memory(&self) -> (device: bool)
        ensures
            device == self.spec_is_device_memory(),
    ;

    /// Alignment of the region in bytes.
    fn alignment(&self) -> (bytes: usize)
        ensures
            bytes == self.spec_alignment(),
    ;
}

/// Buffer of `size` bytes that holds samples of type `T`. A buffer in host
/// memory carries its samples; one in device memory is a description only.
pub struct DynGpuBuffer<T> {
    size: usize,
    alignment: usize,
    is_device: bool,
    data: Vec<T>,
}

impl<T> View for DynGpuBuffer<T> {
    type V = Seq<T>;

    /// The samples that the buffer holds in host memory.
    closed spec fn view(&self) -> Seq<T> {
        self.data@
    }
}

impl<T> DynGpuBuffer<T> {
    /// The description of a buffer without host storage.
    pub fn new(size: usize, alignment: usize, is_device: bool) -> (buffer: Self)
        ensures
            buffer.spec_size() == size,
            buffer.spec_alignment() == alignment,
            buffer.spec_is_device_memory() == is_device,
            buffer@.len() == 0,
    {
        DynGpuBuffer { size, alignment, is_device, data: Vec::new() }
    }
}

impl<T> GpuBuffer for DynGpuBuffer<T> {
    closed spec fn spec_size(&self) -> usize {
        self.size
    }

    closed spec fn spec_alignment(&self) -> usize {
        self.alignment
    }

    closed spec fn spec_is_device_memory(&self) -> bool {
        self.is_device
    }

    fn size(&self) -> (bytes: usize) {
        self.size
    }

    fn is_device_memory(&self) -> (device: bool) {
        self.is_device
    }

    fn alignment(&self) -> (bytes: usize) {
        self.alignment
    }
}

/// What every compute backend offers.
///
/// `spec_capabilities` names what `capabilities` returns. A backend written in
/// ordinary Rust leaves the body below as it is; the verifier never relies on it.
pub trait GpuBackend: Sized {
    /// The type of a sample.
    type Sample: Copy;

    /// The type of the buffers that the backend hands out.
    type Buffer: GpuBuffer;

    closed spec fn spec_capabilities(&self) -> GpuCapabilities {
        arbitrary()
    }

    /// Brings the backend up. A backend that comes up has valid capabilities.
    fn initialize() -> (r: VortexResult<Self>)
        ensures
            r matches Ok(backend) ==> backend.spec_capabilities().is_valid(),
    ;

    fn capabilities(&self) -> (capabilities: &GpuCapabilities)
        ensures
            *capabilities == self.spec_capabilities(),
    ;

    /// A buffer of `size_bytes` bytes, aligned to 64 bytes at least.
    fn allocate_buffer(&self, size_bytes: usize) -> (r: VortexResult<Self::Buffer>)
        ensures
            r matches Ok(buffer) ==> buffer.spec_size() == size_bytes && buffer.spec_alignment()
                >= 64,
    ;

    /// Gives `buffer` back. Taking it by value rules out a second release and
    /// any use afterwards.
    fn free_buffer(&self, buffer: Self::Buffer) -> (r: VortexResult<()>);

    /// Copies `host_data` to the start of `buffer`. The buffer keeps its size
    /// and its alignment.
    fn copy_to_device(&self, buffer: &mut Self::Buffer, host_data: &[Self::Sample]) -> (r:
        VortexResult<()>)
        ensures
            final(buffer).spec_size() == old(buffer).spec_size(),
            final(buffer).spec_alignment() == old(buffer).spec_alignment(),
            final(buffer).spec_is_device_memory() == old(buffer).spec_is_device_memory(),
    ;

    /// Copies the start of `buffer` to `host_data`, filling it.
    fn copy_from_device(&self, buffer: &Self::Buffer, host_data: &mut [Self::Sample]) -> (r:
        VortexResult<()>)
        ensures
            final(host_data)@.len() == old(host_data)@.len(),
    ;

    /// Returns when every operation issued before has completed.
    fn synchronize(&self) -> (r: VortexResult<()>);

    /// Memory in total, in use and free. What is free is no more than the total.
    fn memory_usage(&self) -> (info: GpuMemoryInfo)
        ensures
            info.available_mb <= info.total_mb,
    ;

    fn is_operational(&self) -> (operational: bool);
}

/// `num_cpus::get`: the number of logical cores that the process can use,
/// which is 1 at least.
#[verifier::external_body]
fn logical_cores() -> (n: usize)
    ensures
        n >= 1,
{
    num_cpus::get()
}

/// The backend that computes on the CPU and keeps its buffers in host memory.
pub struct CpuFallbackBackend<T> {
    capabilities: GpuCapabilities,
    sample_bytes: usize,
    sample: PhantomData<T>,
}

/// The samples that a buffer of `size_bytes` bytes holds when a sample takes
/// `sample_bytes` bytes.
pub open spec fn samples_in(size_bytes: nat, sample_bytes: nat) -> nat {
    if sample_bytes == 0 {
        0
    } else {
        size_bytes / sample_bytes
    }
}

/// `samples` written over the start of `contents`.
pub open spec fn overwritten<T>(contents: Seq<T>, samples: Seq<T>) -> Seq<T> {
    samples + contents.skip(samples.len() as int)
}

impl<T: Copy + Default> CpuFallbackBackend<T> {
    /// Bytes that one sample takes.
    pub closed spec fn spec_sample_bytes(&self) -> nat {
        self.sample_bytes as nat
    }

    /// The capabilities are those of the CPU reference, and a sample takes
    /// one byte at least.
    pub closed spec fn wf(&self) -> bool {
        &&& self.sample_bytes > 0
        &&& self.sample_bytes == vstd::layout::size_of::<T>()
        &&& self.capabilities.backend_type == GpuBackendType::Cpu
        &&& self.capabilities.device_name@ == "CPU Fallback"@
        &&& self.capabilities.compute_units > 0
        &&& self.capabilities.max_memory_mb == 1024
        &&& self.capabilities.supports_fp64
        &&& !self.capabilities.supports_async_transfer
    }

    /// What `wf` says of the capabilities.
    pub proof fn lemma_capabilities(&self)
        requires
            self.wf(),
        ensures
            self.spec_sample_bytes() > 0,
            self.spec_sample_bytes() == vstd::layout::size_of::<T>(),
            self.spec_capabilities().backend_type == GpuBackendType::Cpu,
            self.spec_capabilities().device_name@ == "CPU Fallback"@,
            self.spec_capabilities().compute_units > 0,
            self.spec_capabilities().max_memory_mb == 1024,
            self.spec_capabilities().supports_fp64,
            !self.spec_capabilities().supports_async_transfer,
    {
    }

    /// The CPU reference on a machine of `cores` logical cores: one compute
    /// unit for each core, as far as a `u32` counts. It does not come up for
    /// samples of no size nor without a core.
    pub fn with_cores(cores: usize) -> (r: VortexResult<Self>)
        ensures
            vstd::layout::size_of::<T>() > 0 && cores > 0 ==> (r matches Ok(backend)
                && backend.wf() && backend.spec_capabilities().compute_units == if cores
                > 0xffff_ffff {
                0xffff_ffff
            } else {
                cores
            }),
            !(vstd::layout::size_of::<T>() > 0 && cores > 0) ==> r matches Err(
                VortexError::Gpu(GpuError::InitializationFailed { .. }),
            ),
    {
        let sample_bytes = core::mem::size_of::<T>();
        if sample_bytes == 0 {
            return Err(
                VortexError::Gpu(
                    GpuError::InitializationFailed {
                        backend: String::from_str("CPU Fallback"),
                        reason: String::from_str("samples of no size"),
                    },
                ),
            );
        }
        if cores == 0 {
            return Err(
                VortexError::Gpu(
                    GpuError::InitializationFailed {
                        backend: String::from_str("CPU Fallback"),
                        reason: String::from_str("no logical core"),
                    },
                ),
            );
        }
        let compute_units: u32 = if cores > 0xffff_ffff {
            0xffff_ffff
        } else {
            cores as u32
        };
        Ok(
            CpuFallbackBackend {
                capabilities: GpuCapabilities {
                    backend_type: GpuBackendType::Cpu,
                    device_name: String::from_str("CPU Fallback"),
                    compute_units,
                    max_memory_mb: 1024,
                    supports_fp64: true,
                    supports_async_transfer: false,
                },
                sample_bytes,
                sample: PhantomData,
            },
        )
    }

    /// A buffer of this backend is in host memory, aligned to 64 bytes, and
    /// holds as many samples as its size has room for.
    pub open spec fn owns(&self, buffer: &DynGpuBuffer<T>) -> bool {
        &&& !buffer.spec_is_device_memory()
        &&& buffer.spec_alignment() == 64
        &&& buffer@.len() == samples_in(buffer.spec_size() as nat, self.spec_sample_bytes())
    }
}

impl<T: Copy + Default> GpuBackend for CpuFallbackBackend<T> {
    type Sample = T;

    type Buffer = DynGpuBuffer<T>;

    closed spec fn spec_capabilities(&self) -> GpuCapabilities {
        self.capabilities
    }

    /// The CPU reference comes up for every sample type that takes room: it
    /// reports the CPU kind, one compute unit for each logical core, 1024 MiB
    /// of memory, 64-bit floats and no asynchronous transfer.
    fn initialize() -> (r: VortexResult<Self>)
        ensures
            vstd::layout::size_of::<T>() > 0 ==> r is Ok,
            r matches Ok(backend) ==> backend.wf(),
            r matches Err(e) ==> e matches VortexError::Gpu(GpuError::InitializationFailed { .. }),
    {
        Self::with_cores(logical_cores())
    }

    fn capabilities(&self) -> (capabilities: &GpuCapabilities) {
        &self.capabilities
    }

    /// A host buffer with room for `size_bytes` bytes of samples, each of
    /// them the default sample.
    fn allocate_buffer(&self, size_bytes: usize) -> (r: VortexResult<DynGpuBuffer<T>>)
        ensures
            self.wf() ==> (r matches Ok(buffer) && self.owns(&buffer)),
    {
        let count = if self.sample_bytes == 0 {
            0
        } else {
            size_bytes / self.sample_bytes
        };
        let mut data: Vec<T> = Vec::with_capacity(count);
        let mut i: usize = 0;
        while i < count
            invariant
                i <= count,
                data@.len() == i,
            decreases count - i,
        {
            data.push(T::default());
            i += 1;
        }
        Ok(DynGpuBuffer { size: size_bytes, alignment: 64, is_device: false, data })
    }

    /// Frees the host memory of `buffer`.
    fn free_buffer(&self, buffer: DynGpuBuffer<T>) -> (r: VortexResult<()>)
        ensures
            r is Ok,
    {
        Ok(())
    }

    /// Writes `host_data` over the start of the buffer, if the buffer has
    /// room for it; a buffer that has not is left as it was.
    fn copy_to_device(&self, buffer: &mut DynGpuBuffer<T>, host_data: &[T]) -> (r: VortexResult<
        (),
    >)
        ensures
            host_data@.len() <= old(buffer)@.len() ==> r is Ok && final(buffer)@ == overwritten(
                old(buffer)@,
                host_data@,
            ),
            host_data@.len() > old(buffer)@.len() ==> final(buffer)@ == old(buffer)@ && (
            r matches Err(e) && e matches VortexError::Gpu(GpuError::MemoryTransferFailed { .. })),
    {
        if host_data.len() > buffer.data.len() {
            return Err(
                VortexError::Gpu(
                    GpuError::MemoryTransferFailed {
                        reason: String::from_str("host data exceeds the buffer"),
                    },
                ),
            );
        }
        let n = host_data.len();
        let mut i: usize = 0;
        while i < n
            invariant
                i <= n == host_data@.len() <= buffer.data@.len(),
                buffer.data@.len() == old(buffer).data@.len(),
                buffer.size == old(buffer).size,
                buffer.alignment == old(buffer).alignment,
                buffer.is_device == old(buffer).is_device,
                forall|k: int| 0 <= k < i ==> buffer.data@[k] == host_data@[k],
                forall|k: int| i <= k < buffer.data@.len() ==> buffer.data@[k] == old(
                    buffer,
                ).data@[k],
            decreases n - i,
        {
            buffer.data[i] = host_data[i];
            i += 1;
        }
        assert(buffer@ =~= overwritten(old(buffer)@, host_data@));
        Ok(())
    }

    /// Fills `host_data` from the start of the buffer, if the buffer holds as
    /// much; otherwise `host_data` is left as it was.
    fn copy_from_device(&self, buffer: &DynGpuBuffer<T>, host_data: &mut [T]) -> (r: VortexResult<
        (),
    >)
        ensures
            old(host_data)@.len() <= buffer@.len() ==> r is Ok && final(host_data)@
                == buffer@.take(old(host_data)@.len() as int),
            old(host_data)@.len() > buffer@.len() ==> final(host_data)@ == old(host_data)@ && (
            r matches Err(e) && e matches VortexError::Gpu(GpuError::MemoryTransferFailed { .. })),
    {
        if host_data.len() > buffer.data.len() {
            return Err(
                VortexError::Gpu(
                    GpuError::MemoryTransferFailed {
                        reason: String::from_str("host data exceeds the buffer"),
                    },
                ),
            );
        }
        let n = host_data.len();
        let mut i: usize = 0;
        while i < n
            invariant
                i <= n == host_data@.len() <= buffer.data@.len(),
                forall|k: int| 0 <= k < i ==> host_data@[k] == buffer.data@[k],
            decreases n - i,
        {
            host_data[i] = buffer.data[i];
            i += 1;
        }
        assert(host_data@ =~= buffer@.take(n as int));
        Ok(())
    }

    /// The CPU has nothing in flight.
    fn synchronize(&self) -> (r: VortexResult<()>)
        ensures
            r is Ok,
    {
        Ok(())
    }

    /// 1024 MiB, none of it counted as used.
    fn memory_usage(&self) -> (info: GpuMemoryInfo)
        ensures
            info.total_mb == 1024,
            info.used_mb == 0,
            info.available_mb == 1024,
            info.usage_percentage == (Ratio { numerator: 0, denominator: 1024 }),
    {
        GpuMemoryInfo {
            total_mb: 1024,
            used_mb: 0,
            available_mb: 1024,
            usage_percentage: Ratio { numerator: 0, denominator: 1024 },
        }
    }

    fn is_operational(&self) -> (operational: bool)
        ensures
            operational,
    {
        true
    }
}

/// What comes back from the reference backend is what went in: a host block
/// written over the start of a buffer and read back at its own length is unchanged.
pub proof fn lemma_copy_round_trip<T>(contents: Seq<T>, samples: Seq<T>)
    requires
        samples.len() <= contents.len(),
    ensures
        overwritten(contents, samples).take(samples.len() as int) == samples,
        overwritten(contents, samples).len() == contents.len(),
        overwritten(contents, samples).skip(samples.len() as int) == contents.skip(
            samples.len() as int,
        ),
{
    assert(overwritten(contents, samples).take(samples.len() as int) =~= samples);
    assert(overwritten(contents, samples).skip(samples.len() as int) =~= contents.skip(
        samples.len() as int,
    ));
}

/// The backend that serves when the accelerated ones were probed in the order
/// CUDA, Vulkan, OpenCL: the first that came up, and the CPU where none did.
pub open spec fn spec_select_backend(cuda: bool, vulkan: bool, opencl: bool) -> GpuBackendType {
    if cuda {
        GpuBackendType::Cuda
    } else if vulkan {
        GpuBackendType::Vulkan
    } else if opencl {
        GpuBackendType::OpenCL
    } else {
        GpuBackendType::Cpu
    }
}

/// Picks the backend from the outcomes of the three probes. A probe that
/// failed only moves the search on; the CPU reference is always left.
pub fn select_backend(cuda: bool, vulkan: bool, opencl: bool) -> (selected: GpuBackendType)
    ensures
        selected == spec_select_backend(cuda, vulkan, opencl),
{
    if cuda {
        GpuBackendType::Cuda
    } else if vulkan {
        GpuBackendType::Vulkan
    } else if opencl {
        GpuBackendType::OpenCL
    } else {
        GpuBackendType::Cpu
    }
}

/// A backend together with the capabilities that it reported when it came up.
pub struct GpuProcessor<B: GpuBackend> {
    backend: B,
    capabilities: GpuCapabilities,
}

impl<B: GpuBackend> GpuProcessor<B> {
    pub closed spec fn spec_backend(&self) -> B {
        self.backend
    }

    pub closed spec fn spec_capabilities(&self) -> GpuCapabilities {
        self.capabilities
    }

    /// The processor keeps a copy of what its backend reports.
    pub open spec fn wf(&self) -> bool {
        self.spec_capabilities() == self.spec_backend().spec_capabilities()
    }

    /// Wraps a backend that is up.
    pub fn with_backend(backend: B) -> (processor: Self)
        ensures
            processor.wf(),
            processor.spec_backend() == backend,
    {
        let capabilities = backend.capabilities().clone();
        GpuProcessor { backend, capabilities }
    }

    pub fn capabilities(&self) -> (capabilities: &GpuCapabilities)
        ensures
            *capabilities == self.spec_capabilities(),
    {
        &self.capabilities
    }

    pub fn backend(&self) -> (backend: &B)
        ensures
            *backend == self.spec_backend(),
    {
        &self.backend
    }
}

impl<T: Copy + Default> GpuProcessor<CpuFallbackBackend<T>> {
    /// A processor on the CPU reference, whatever kind was asked for: no
    /// accelerated backend is part of the core, and a kind that is not there
    /// is served by the CPU.
    pub fn new(backend_type: GpuBackendType) -> (r: VortexResult<Self>)
        ensures
            vstd::layout::size_of::<T>() > 0 ==> r is Ok,
            r matches Ok(processor) ==> processor.wf() && processor.spec_backend().wf(),
            r matches Err(e) ==> e matches VortexError::Gpu(GpuError::InitializationFailed { .. }),
    {
        match CpuFallbackBackend::<T>::initialize() {
            Ok(backend) => Ok(GpuProcessor::with_backend(backend)),
            Err(e) => Err(e),
        }
    }

    /// Probes the accelerated backends in their order and falls back to the
    /// CPU reference; with none of them in the core, the CPU serves.
    pub fn auto_detect() -> (r: VortexResult<Self>)
        ensures
            vstd::layout::size_of::<T>() > 0 ==> r is Ok,
            r matches Ok(processor) ==> processor.wf() && processor.spec_backend().wf(),
            r matches Err(e) ==> e matches VortexError::Gpu(GpuError::InitializationFailed { .. }),
    {
        Self::new(select_backend(false, false, false))
    }
}

} // verus!
