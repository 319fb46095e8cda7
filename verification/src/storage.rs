//! Typed buffers on the host and on the device, and the copy from device to
//! host.

use crate::device::CudaDevice;
use crate::driver::{device_of32, device_of64, dtoh_sync_copy32, dtoh_sync_copy64};
use crate::driver::{entry_point, home32, home64, len32, len64, words32, words64};
use crate::dtype::{DType, Elements};
use crate::error::CudaError;
use crate::kernels::KernelOp;
use crate::launch::{LaunchPlan, MAX_LAUNCH_ELEMS};
use crate::shape::{contiguous, Shape};
use vstd::prelude::*;

verus! {

/// A flat typed buffer in host memory, each element as its bit pattern.
#[derive(Debug, Clone, PartialEq, Eq)]
pub enum CpuStorage {
    F32(Vec<u32>),
    F64(Vec<u64>),
}

impl View for CpuStorage {
    type V = Elements;

    open spec fn view(&self) -> Elements {
        match self {
            CpuStorage::F32(bits) => Elements::F32(bits@),
            CpuStorage::F64(bits) => Elements::F64(bits@),
        }
    }
}

/// A typed buffer in device memory. The variant is the element type of the
/// buffer it wraps: single-precision elements live in a buffer of 32-bit
/// words, double-precision elements in a buffer of 64-bit words.
#[derive(Debug)]
pub enum CudaStorage {
    F32(cudarc::driver::CudaSlice<u32>),
    F64(cudarc::driver::CudaSlice<u64>),
}

impl View for CudaStorage {
    type V = Elements;

    open spec fn view(&self) -> Elements {
        match self {
            CudaStorage::F32(buf) => Elements::F32(words32(*buf)),
            CudaStorage::F64(buf) => Elements::F64(words64(*buf)),
        }
    }
}

impl CudaStorage {
    /// The ordinal of the device the buffer was allocated on.
    pub open spec fn home(&self) -> usize {
        match self {
            CudaStorage::F32(buf) => home32(*buf),
            CudaStorage::F64(buf) => home64(*buf),
        }
    }

    /// The element type. Reads the tag only.
    pub fn dtype(&self) -> (d: DType)
        ensures
            d == self@.dtype(),
    {
        match self {
            CudaStorage::F32(_) => DType::F32,
            CudaStorage::F64(_) => DType::F64,
        }
    }

    /// The number of elements. Reads the buffer's own record of its length.
    pub fn len(&self) -> (n: usize)
        ensures
            n == self@.len(),
    {
        match self {
            CudaStorage::F32(buf) => len32(buf),
            CudaStorage::F64(buf) => len64(buf),
        }
    }

    /// Whether the buffer's bytes fit in one host allocation.
    pub open spec fn fits_on_host(&self) -> bool {
        self@.len() * self@.dtype().size_in_bytes_spec() <= isize::MAX
    }

    /// A handle to the device the buffer was allocated on, as the buffer
    /// itself remembers it.
    pub fn device(&self) -> (dev: CudaDevice)
        ensures
            dev@ == self.home(),
    {
        match self {
            CudaStorage::F32(buf) => device_of32(buf),
            CudaStorage::F64(buf) => device_of64(buf),
        }
    }

    /// Copies the whole buffer to the host and waits for it. The copy is
    /// ordered after everything queued on the device before it, so it sees
    /// every write that produced the buffer. Fails only if the driver does.
    ///
    /// The buffer has to fit in one host allocation.
    pub fn to_cpu_storage(&self) -> (r: Result<CpuStorage, CudaError>)
        requires
            self.fits_on_host(),
        ensures
            match r {
                Ok(host) => host@ == self@,
                Err(e) => e is Cuda,
            },
    {
        match self {
            CudaStorage::F32(buf) => match dtoh_sync_copy32(buf) {
                Ok(bits) => Ok(CpuStorage::F32(bits)),
                Err(e) => Err(CudaError::Cuda(e)),
            },
            CudaStorage::F64(buf) => match dtoh_sync_copy64(buf) {
                Ok(bits) => Ok(CpuStorage::F64(bits)),
                Err(e) => Err(CudaError::Cuda(e)),
            },
        }
    }

    /// Copies the buffer to the host if its bytes fit in one host
    /// allocation, and says so if they do not.
    pub fn to_cpu_storage_if_it_fits(&self) -> (r: Option<Result<CpuStorage, CudaError>>)
        ensures
            match r {
                Some(Ok(host)) => self.fits_on_host() && host@ == self@,
                Some(Err(e)) => self.fits_on_host() && e is Cuda,
                None => !self.fits_on_host(),
            },
    {
        let most = (isize::MAX as usize) / self.dtype().size_in_bytes();
        if self.len() <= most {
            Some(self.to_cpu_storage())
        } else {
            None
        }
    }

    /// Everything of the affine map `x * mul + add` that comes before its
    /// launch: the layout is checked, the launch is planned, and the kernel
    /// for this buffer's element type is resolved on the buffer's device. The
    /// handle returned is the affine entry point for that type on that device.
    ///
    /// A stride that is not contiguous is refused before the device is
    /// asked for anything. With a contiguous stride the shape has to be the
    /// buffer's own, since the kernel reads one element per element of the
    /// shape, and small enough for one launch.
    pub fn prepare_affine(&self, shape: &Shape, stride: &[usize]) -> (r: Result<
        (cudarc::driver::CudaFunction, LaunchPlan),
        CudaError,
    >)
        requires
            contiguous(shape@, stride@) ==> shape.elem_count_spec() == self@.len()
                && shape.elem_count_spec() <= MAX_LAUNCH_ELEMS,
        ensures
            match r {
                Ok((func, plan)) => contiguous(shape@, stride@) && plan == LaunchPlan::of(
                    KernelOp::Affine,
                    self@.dtype(),
                    self@.len(),
                ) && entry_point(func) == (KernelOp::Affine.name_spec(self@.dtype()), self.home()),
                Err(e) => if contiguous(shape@, stride@) {
                    e is Compiler || e is Cuda || (e matches CudaError::MissingKernel {
                        module_name,
                    } && module_name@ == KernelOp::Affine.name_spec(self@.dtype()))
                } else {
                    e == (CudaError::RequiresContiguous { op: "affine" })
                },
            },
    {
        let plan = match LaunchPlan::affine(self.dtype(), shape, stride) {
            Ok(plan) => plan,
            Err(e) => {
                return Err(e);
            },
        };
        let dev = self.device();
        match dev.load_kernel(plan.op, plan.dtype) {
            Ok(func) => Ok((func, plan)),
            Err(e) => Err(e),
        }
    }
}

/// Read back from the device, a buffer of zeros has the shape's element
/// count, the element type it was asked for, and no bit set in any element.
///
/// `stored` stands for what `CudaDevice::zeros_impl` returned for `shape`
/// and `dtype`, and `host` for what `CudaStorage::to_cpu_storage` then
/// returned for `stored`.
pub proof fn lemma_zeros_read_back(
    shape: Shape,
    dtype: DType,
    stored: CudaStorage,
    host: CpuStorage,
)
    requires
        stored@ == Elements::zeros(dtype, shape.elem_count_spec()),
        host@ == stored@,
    ensures
        host@.dtype() == dtype,
        host@.len() == shape.elem_count_spec(),
        forall|i: int| 0 <= i < host@.len() ==> host@.bits(i) == 0,
{
}

/// A host buffer copied to the device and back comes back as it went:
/// the same element type and, element for element, the same bits.
///
/// `stored` stands for what `CudaDevice::cuda_from_cpu_storage` returned for
/// `sent`, and `back` for what `CudaStorage::to_cpu_storage` then returned
/// for `stored`.
pub proof fn lemma_round_trip(sent: CpuStorage, stored: CudaStorage, back: CpuStorage)
    requires
        stored@ == sent@,
        back@ == stored@,
    ensures
        back@.dtype() == sent@.dtype(),
        back@.len() == sent@.len(),
        forall|i: int| 0 <= i < sent@.len() ==> back@.bits(i) == sent@.bits(i),
        back@ == sent@,
{
}

} // verus!
