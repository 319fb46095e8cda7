//! The device handle: buffers are made through it, and kernels are resolved
//! through its registry of loaded modules.

use crate::driver::{alloc_zeros32, alloc_zeros64, htod_sync_copy32, htod_sync_copy64};
use crate::driver::{compile_ptx, get_func, has_func, load_ptx, open_device, ordinal_of};
use crate::driver::{device_ordinal, entry_point, nul_free};
use crate::dtype::{DType, Elements};
use crate::error::CudaError;
use crate::kernels::{lemma_name_nul_free, lemma_source_names_entry_point, KernelOp};
use crate::shape::Shape;
use crate::storage::{CpuStorage, CudaStorage};
use std::sync::Arc;
use vstd::prelude::*;

verus! {

/// A shared handle to one device. A clone is another handle to the same
/// device, with the same stream and the same registry of loaded modules.
///
/// The handle is opaque to the verifier: what is known of a device is what
/// the driver boundary states of it.
#[derive(Debug)]
#[verifier::external_body]
pub struct CudaDevice(pub Arc<cudarc::driver::CudaDevice>);

impl Clone for CudaDevice {
    /// `Arc::clone` on the handle inside: the clone points at the same
    /// device, which is not duplicated.
    #[verifier::external_body]
    fn clone(&self) -> (dev: CudaDevice)
        ensures
            dev == *self,
    {
        CudaDevice(Arc::clone(&self.0))
    }
}

impl View for CudaDevice {
    type V = usize;

    /// A device is known by its ordinal.
    open spec fn view(&self) -> usize {
        device_ordinal(*self)
    }
}

/// What a look-up in the registry comes to. An entry point that is not
/// there after its module was loaded under the same name means that the
/// source does not define what the name promises.
pub fn found_or_missing(
    found: Option<cudarc::driver::CudaFunction>,
    module_name: &'static str,
) -> (r: Result<cudarc::driver::CudaFunction, CudaError>)
    ensures
        r == match found {
            Some(func) => Ok::<cudarc::driver::CudaFunction, CudaError>(func),
            None => Err(CudaError::MissingKernel { module_name }),
        },
{
    match found {
        Some(func) => Ok(func),
        None => Err(CudaError::MissingKernel { module_name }),
    }
}

impl CudaDevice {
    /// Opens the device with the given ordinal. Fails only if the driver
    /// does.
    pub fn new(ordinal: usize) -> (r: Result<CudaDevice, CudaError>)
        ensures
            match r {
                Ok(dev) => dev@ == ordinal,
                Err(e) => e is Cuda,
            },
    {
        match open_device(ordinal) {
            Ok(dev) => Ok(dev),
            Err(e) => Err(CudaError::Cuda(e)),
        }
    }

    /// The ordinal the device was opened with.
    pub fn ordinal(&self) -> (n: usize)
        ensures
            n == self@,
    {
        ordinal_of(self)
    }

    /// Allocates a buffer of the given shape and element type on this device
    /// with every bit zero. No kernel runs. Fails only if the driver does.
    ///
    /// The buffer's size in bytes has to fit in `usize`.
    pub fn zeros_impl(&self, shape: &Shape, dtype: DType) -> (r: Result<CudaStorage, CudaError>)
        requires
            shape.elem_count_spec() * dtype.size_in_bytes_spec() <= usize::MAX,
        ensures
            match r {
                Ok(stored) => stored@ == Elements::zeros(dtype, shape.elem_count_spec())
                    && stored.home() == self@,
                Err(e) => e is Cuda,
            },
    {
        let elem_count = shape.elem_count();
        match dtype {
            DType::F32 => match alloc_zeros32(self, elem_count) {
                Ok(buf) => Ok(CudaStorage::F32(buf)),
                Err(e) => Err(CudaError::Cuda(e)),
            },
            DType::F64 => match alloc_zeros64(self, elem_count) {
                Ok(buf) => Ok(CudaStorage::F64(buf)),
                Err(e) => Err(CudaError::Cuda(e)),
            },
        }
    }

    /// Copies a host buffer into a new buffer on this device and waits for
    /// the copy. The new buffer has the element type, the length and the
    /// bits of the host buffer. Fails only if the driver does.
    pub fn cuda_from_cpu_storage(&self, storage: &CpuStorage) -> (r: Result<
        CudaStorage,
        CudaError,
    >)
        ensures
            match r {
                Ok(stored) => stored@ == storage@ && stored.home() == self@,
                Err(e) => e is Cuda,
            },
    {
        match storage {
            CpuStorage::F32(bits) => match htod_sync_copy32(self, bits.as_slice()) {
                Ok(buf) => Ok(CudaStorage::F32(buf)),
                Err(e) => Err(CudaError::Cuda(e)),
            },
            CpuStorage::F64(bits) => match htod_sync_copy64(self, bits.as_slice()) {
                Ok(buf) => Ok(CudaStorage::F64(buf)),
                Err(e) => Err(CudaError::Cuda(e)),
            },
        }
    }

    /// Resolves the entry point `module_name` through the device's registry.
    /// If it is not registered, `source` is compiled and loaded as a module
    /// of that name, with that one entry point, before it is looked up.
    ///
    /// Both strings cross into C, so neither may hold a NUL character.
    ///
    /// Whether the registry has the entry point, and whether compiling and
    /// loading succeed, is decided outside this crate. A handle that comes
    /// back is the entry point of that name on this device; the compiler's
    /// and the driver's failures are passed on, and an entry point still
    /// missing after the look-up is reported under its name.
    pub fn get_or_load_func(&self, module_name: &'static str, source: &'static str) -> (r: Result<
        cudarc::driver::CudaFunction,
        CudaError,
    >)
        requires
            nul_free(module_name@),
            nul_free(source@),
        ensures
            r matches Ok(func) ==> entry_point(func) == (module_name@, self@),
            r matches Err(e) ==> e is Compiler || e is Cuda || e == (CudaError::MissingKernel {
                module_name,
            }),
    {
        let registered = has_func(self, module_name, module_name);
        self.load_unless(registered, module_name, source)
    }

    /// What follows the registry's answer. Only an entry point that is not
    /// registered is compiled and loaded; for one that is, neither step can
    /// fail. A handle that comes back is that entry point on this device.
    pub fn load_unless(
        &self,
        registered: bool,
        module_name: &'static str,
        source: &'static str,
    ) -> (r: Result<cudarc::driver::CudaFunction, CudaError>)
        requires
            nul_free(module_name@),
            nul_free(source@),
        ensures
            r matches Ok(func) ==> entry_point(func) == (module_name@, self@),
            r matches Err(e) ==> e == (CudaError::MissingKernel { module_name }) || (!registered
                && (e is Compiler || e is Cuda)),
    {
        if !registered {
            let ptx = match compile_ptx(source) {
                Ok(ptx) => ptx,
                Err(e) => {
                    return Err(CudaError::Compiler(e));
                },
            };
            let entry_points: [&'static str; 1] = [module_name];
            match load_ptx(self, ptx, module_name, &entry_points) {
                Ok(()) => {},
                Err(e) => {
                    return Err(CudaError::Cuda(e));
                },
            }
        }
        found_or_missing(get_func(self, module_name, module_name), module_name)
    }

    /// Resolves the kernel of `op` for `dtype`, compiled on first use.
    pub fn load_kernel(&self, op: KernelOp, dtype: DType) -> (r: Result<
        cudarc::driver::CudaFunction,
        CudaError,
    >)
        ensures
            r matches Ok(func) ==> entry_point(func) == (op.name_spec(dtype), self@),
            r matches Err(e) ==> e is Compiler || e is Cuda || (e matches CudaError::MissingKernel {
                module_name,
            } && module_name@ == op.name_spec(dtype)),
    {
        proof {
            lemma_name_nul_free(op, dtype);
            lemma_source_names_entry_point(op, dtype);
        }
        self.get_or_load_func(op.name(dtype), op.source())
    }
}

} // verus!
