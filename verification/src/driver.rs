//! The boundary to the CUDA driver and run-time compiler.
//!
//! Everything here is taken on trust: the types are opaque to the verifier,
//! and each contract restates what the `cudarc` source shows of the function.
//! The rest of the crate is proved against these contracts.
//!
//! A precondition here keeps out the arguments on which the function behind
//! it would panic. What no precondition can keep out is a machine without
//! the driver: `cudarc` loads the CUDA libraries when they are first needed
//! and panics if they are not there, and it panics where the driver fails
//! to release a buffer or a device that is dropped.

use crate::device::CudaDevice;
use crate::launch::LaunchConfig;
use vstd::prelude::*;

verus! {

/// `cudarc::driver::CudaSlice`: an owned region of device memory.
#[verifier::external_type_specification]
#[verifier::external_body]
#[verifier::reject_recursive_types(T)]
pub struct ExCudaSlice<T>(cudarc::driver::CudaSlice<T>);

/// `cudarc::driver::CudaFunction`: a loaded kernel entry point.
#[verifier::external_type_specification]
#[verifier::external_body]
pub struct ExCudaFunction(cudarc::driver::CudaFunction);

/// `cudarc::driver::DriverError`: a status code of the CUDA driver.
#[verifier::external_type_specification]
#[verifier::external_body]
pub struct ExDriverError(cudarc::driver::DriverError);

/// `cudarc::nvrtc::Ptx`: a compiled program image.
#[verifier::external_type_specification]
#[verifier::external_body]
pub struct ExPtx(cudarc::nvrtc::Ptx);

/// `cudarc::nvrtc::CompileError`: a failure of the run-time compiler.
#[verifier::external_type_specification]
#[verifier::external_body]
pub struct ExCompileError(cudarc::nvrtc::CompileError);

/// The ordinal a device was opened with, as `cudarc`'s `CudaDevice::ordinal`
/// reports it.
pub uninterp spec fn device_ordinal(dev: CudaDevice) -> usize;

/// The 32-bit words of a device buffer, in order, as a read ordered after
/// all work already queued on the owning device's stream observes them.
pub uninterp spec fn words32(buf: cudarc::driver::CudaSlice<u32>) -> Seq<u32>;

/// The ordinal of the device a buffer of 32-bit words was allocated on.
pub uninterp spec fn home32(buf: cudarc::driver::CudaSlice<u32>) -> usize;

/// The 64-bit words of a device buffer, in order, as a read ordered after
/// all work already queued on the owning device's stream observes them.
pub uninterp spec fn words64(buf: cudarc::driver::CudaSlice<u64>) -> Seq<u64>;

/// The ordinal of the device a buffer of 64-bit words was allocated on.
pub uninterp spec fn home64(buf: cudarc::driver::CudaSlice<u64>) -> usize;

/// What a kernel handle stands for: the name of the entry point it was
/// registered under, and the ordinal of the device it is loaded on.
pub uninterp spec fn entry_point(func: cudarc::driver::CudaFunction) -> (Seq<char>, usize);

/// No character of `s` is NUL, so `s` can cross into C as a string.
pub open spec fn nul_free(s: Seq<char>) -> bool {
    forall|i: int| 0 <= i < s.len() ==> s[i] != '\0'
}

/// `cudarc`'s `CudaDevice::new` stores the ordinal it was given in the device
/// it returns. Whether it succeeds is up to the driver.
#[verifier::external_body]
pub(crate) fn open_device(ordinal: usize) -> (r: Result<CudaDevice, cudarc::driver::DriverError>)
    ensures
        r matches Ok(dev) ==> device_ordinal(dev) == ordinal,
{
    cudarc::driver::CudaDevice::new(ordinal).map(CudaDevice)
}

/// `cudarc`'s `CudaDevice::ordinal` returns the stored ordinal.
#[verifier::external_body]
pub(crate) fn ordinal_of(dev: &CudaDevice) -> (n: usize)
    ensures
        n == device_ordinal(*dev),
{
    dev.0.ordinal()
}

/// `cudarc`'s `CudaDevice::has_func` looks the pair up in the device's
/// registry. The registry is shared by every handle to the device, so
/// nothing is claimed of the answer.
#[verifier::external_body]
pub(crate) fn has_func(dev: &CudaDevice, module_name: &str, func_name: &str) -> bool {
    dev.0.has_func(module_name, func_name)
}

/// `cudarc`'s `CudaDevice::get_func` looks the pair up in the device's
/// registry. Whether it is there is not claimed. A handle that comes back
/// is the one kept under `func_name`, which is the one the driver gave for
/// that name when the module was loaded, and it is tied to a clone of `dev`.
#[verifier::external_body]
pub(crate) fn get_func(dev: &CudaDevice, module_name: &str, func_name: &str) -> (r: Option<
    cudarc::driver::CudaFunction,
>)
    ensures
        r matches Some(func) ==> entry_point(func) == (func_name@, device_ordinal(*dev)),
{
    dev.0.get_func(module_name, func_name)
}

/// `cudarc`'s `CudaDevice::load_ptx` loads the image as a module, looks up
/// each of `func_names` in it and registers the module under `module_name`.
/// Each function name is turned into a C string, which fails on a NUL
/// character. The image is always one that `compile_ptx` returned.
#[verifier::external_body]
pub(crate) fn load_ptx(
    dev: &CudaDevice,
    ptx: cudarc::nvrtc::Ptx,
    module_name: &str,
    func_names: &[&'static str],
) -> Result<(), cudarc::driver::DriverError>
    requires
        forall|i: int| 0 <= i < func_names@.len() ==> nul_free(#[trigger] func_names@[i]@),
{
    dev.0.load_ptx(ptx, module_name, func_names)
}

/// `cudarc`'s `CudaDevice::alloc_zeros` at 32-bit words: allocates `len`
/// words on the device and sets every byte to zero. The byte size is
/// computed without an overflow check, so it must fit in `usize`.
#[verifier::external_body]
pub(crate) fn alloc_zeros32(dev: &CudaDevice, len: usize) -> (r: Result<
    cudarc::driver::CudaSlice<u32>,
    cudarc::driver::DriverError,
>)
    requires
        len * 4 <= usize::MAX,
    ensures
        r matches Ok(buf) ==> words32(buf) == Seq::new(len as nat, |i: int| 0u32) && home32(buf)
            == device_ordinal(*dev),
{
    dev.0.alloc_zeros::<u32>(len)
}

/// `cudarc`'s `CudaDevice::alloc_zeros` at 64-bit words: allocates `len`
/// words on the device and sets every byte to zero. The byte size is
/// computed without an overflow check, so it must fit in `usize`.
#[verifier::external_body]
pub(crate) fn alloc_zeros64(dev: &CudaDevice, len: usize) -> (r: Result<
    cudarc::driver::CudaSlice<u64>,
    cudarc::driver::DriverError,
>)
    requires
        len * 8 <= usize::MAX,
    ensures
        r matches Ok(buf) ==> words64(buf) == Seq::new(len as nat, |i: int| 0u64) && home64(buf)
            == device_ordinal(*dev),
{
    dev.0.alloc_zeros::<u64>(len)
}

/// `cudarc`'s `CudaDevice::htod_sync_copy` at 32-bit words: allocates a
/// buffer as long as `src` on the device, copies `src` into it and waits for
/// the copy.
#[verifier::external_body]
pub(crate) fn htod_sync_copy32(dev: &CudaDevice, src: &[u32]) -> (r: Result<
    cudarc::driver::CudaSlice<u32>,
    cudarc::driver::DriverError,
>)
    ensures
        r matches Ok(buf) ==> words32(buf) == src@ && home32(buf) == device_ordinal(*dev),
{
    dev.0.htod_sync_copy(src)
}

/// `cudarc`'s `CudaDevice::htod_sync_copy` at 64-bit words: allocates a
/// buffer as long as `src` on the device, copies `src` into it and waits for
/// the copy.
#[verifier::external_body]
pub(crate) fn htod_sync_copy64(dev: &CudaDevice, src: &[u64]) -> (r: Result<
    cudarc::driver::CudaSlice<u64>,
    cudarc::driver::DriverError,
>)
    ensures
        r matches Ok(buf) ==> words64(buf) == src@ && home64(buf) == device_ordinal(*dev),
{
    dev.0.htod_sync_copy(src)
}

/// `cudarc`'s `CudaDevice::dtoh_sync_copy` at 32-bit words, on the device
/// that `CudaSlice::device` gives for the buffer: copies the whole buffer
/// into a new vector and waits for the device's stream, so the vector holds
/// what the buffer held once all earlier work was done. The vector is
/// reserved in one piece, which a vector of more than `isize::MAX` bytes
/// cannot be.
#[verifier::external_body]
pub(crate) fn dtoh_sync_copy32(buf: &cudarc::driver::CudaSlice<u32>) -> (r: Result<
    Vec<u32>,
    cudarc::driver::DriverError,
>)
    requires
        words32(*buf).len() * 4 <= isize::MAX,
    ensures
        r matches Ok(host) ==> host@ == words32(*buf),
{
    buf.device().dtoh_sync_copy(buf)
}

/// `cudarc`'s `CudaDevice::dtoh_sync_copy` at 64-bit words, on the device
/// that `CudaSlice::device` gives for the buffer: copies the whole buffer
/// into a new vector and waits for the device's stream, so the vector holds
/// what the buffer held once all earlier work was done. The vector is
/// reserved in one piece, which a vector of more than `isize::MAX` bytes
/// cannot be.
#[verifier::external_body]
pub(crate) fn dtoh_sync_copy64(buf: &cudarc::driver::CudaSlice<u64>) -> (r: Result<
    Vec<u64>,
    cudarc::driver::DriverError,
>)
    requires
        words64(*buf).len() * 8 <= isize::MAX,
    ensures
        r matches Ok(host) ==> host@ == words64(*buf),
{
    buf.device().dtoh_sync_copy(buf)
}

/// `DeviceSlice::len` for a `CudaSlice` of 32-bit words: the number of words
/// the buffer was allocated with.
#[verifier::external_body]
pub(crate) fn len32(buf: &cudarc::driver::CudaSlice<u32>) -> (n: usize)
    ensures
        n == words32(*buf).len(),
{
    cudarc::driver::DeviceSlice::len(buf)
}

/// `DeviceSlice::len` for a `CudaSlice` of 64-bit words: the number of words
/// the buffer was allocated with.
#[verifier::external_body]
pub(crate) fn len64(buf: &cudarc::driver::CudaSlice<u64>) -> (n: usize)
    ensures
        n == words64(*buf).len(),
{
    cudarc::driver::DeviceSlice::len(buf)
}

/// `CudaSlice::device` at 32-bit words: another handle to the device the
/// buffer was allocated on.
#[verifier::external_body]
pub(crate) fn device_of32(buf: &cudarc::driver::CudaSlice<u32>) -> (dev: CudaDevice)
    ensures
        device_ordinal(dev) == home32(*buf),
{
    CudaDevice(buf.device())
}

/// `CudaSlice::device` at 64-bit words: another handle to the device the
/// buffer was allocated on.
#[verifier::external_body]
pub(crate) fn device_of64(buf: &cudarc::driver::CudaSlice<u64>) -> (dev: CudaDevice)
    ensures
        device_ordinal(dev) == home64(*buf),
{
    CudaDevice(buf.device())
}

/// `cudarc::nvrtc::compile_ptx` compiles CUDA source text with the default
/// options. The text is turned into a C string, which fails on a NUL
/// character. Whether it compiles is up to the compiler found at run time.
#[verifier::external_body]
pub(crate) fn compile_ptx(source: &str) -> (r: Result<
    cudarc::nvrtc::Ptx,
    cudarc::nvrtc::CompileError,
>)
    requires
        nul_free(source@),
{
    cudarc::nvrtc::compile_ptx(source)
}

/// `LaunchConfig::for_num_elems` gives blocks of 1024 threads, enough of
/// them in a one-dimensional grid to reach `n` threads, and no shared memory.
/// It adds 1024 to `n` before it takes 1 off again, without an overflow
/// check.
#[verifier::external_body]
pub(crate) fn for_num_elems(n: u32) -> (cfg: LaunchConfig)
    requires
        n + 1024 <= u32::MAX,
    ensures
        cfg.grid_dim == (((n + 1023) / 1024) as u32, 1u32, 1u32),
        cfg.block_dim == (1024u32, 1u32, 1u32),
        cfg.shared_mem_bytes == 0,
{
    let cfg = cudarc::driver::LaunchConfig::for_num_elems(n);
    LaunchConfig {
        grid_dim: cfg.grid_dim,
        block_dim: cfg.block_dim,
        shared_mem_bytes: cfg.shared_mem_bytes,
    }
}

} // verus!
