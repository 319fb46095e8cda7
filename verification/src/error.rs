//! The ways an operation on the device can fail.

use vstd::prelude::*;
use vstd::string::StringExecFns;

verus! {

/// A failed operation. No operation retries, and none leaves a usable
/// partial result behind.
#[derive(Debug)]
pub enum CudaError {
    /// The driver refused an allocation, a copy, a launch or a module load.
    Cuda(cudarc::driver::DriverError),
    /// The run-time compiler rejected a kernel's source text.
    Compiler(cudarc::nvrtc::CompileError),
    /// The named operation was asked to work on a layout with gaps.
    RequiresContiguous { op: &'static str },
    /// A module was loaded, but the entry point of the same name is not in it.
    MissingKernel { module_name: &'static str },
}

impl CudaError {
    /// The text of the two errors that this crate raises itself.
    pub open spec fn own_message(self) -> Seq<char> {
        match self {
            CudaError::RequiresContiguous { op } => op@ + " only supports contiguous tensors"@,
            CudaError::MissingKernel { module_name } => "missing kernel '"@ + module_name@ + "'"@,
            _ => Seq::empty(),
        }
    }

    /// A description of the failure for people. The driver's and the
    /// compiler's errors speak for themselves: their text is what they
    /// display as, and the driver is asked for the text of its own.
    pub fn message(&self) -> (s: String)
        ensures
            self is RequiresContiguous || self is MissingKernel ==> s@ == self.own_message(),
            self matches CudaError::Cuda(e) ==> vstd::string::to_string_from_display_ensures::<
                cudarc::driver::DriverError,
            >(&e, s),
            self matches CudaError::Compiler(e) ==> vstd::string::to_string_from_display_ensures::<
                cudarc::nvrtc::CompileError,
            >(&e, s),
    {
        match self {
            CudaError::Cuda(e) => e.to_string(),
            CudaError::Compiler(e) => e.to_string(),
            CudaError::RequiresContiguous { op } => {
                String::from_str(op).concat(" only supports contiguous tensors")
            },
            CudaError::MissingKernel { module_name } => {
                String::from_str("missing kernel '").concat(module_name).concat("'")
            },
        }
    }
}

impl From<cudarc::driver::DriverError> for CudaError {
    fn from(e: cudarc::driver::DriverError) -> (r: CudaError) {
        CudaError::Cuda(e)
    }
}

impl vstd::std_specs::convert::FromSpecImpl<cudarc::driver::DriverError> for CudaError {
    open spec fn obeys_from_spec() -> bool {
        true
    }

    open spec fn from_spec(e: cudarc::driver::DriverError) -> CudaError {
        CudaError::Cuda(e)
    }
}

impl From<cudarc::nvrtc::CompileError> for CudaError {
    fn from(e: cudarc::nvrtc::CompileError) -> (r: CudaError) {
        CudaError::Compiler(e)
    }
}

impl vstd::std_specs::convert::FromSpecImpl<cudarc::nvrtc::CompileError> for CudaError {
    open spec fn obeys_from_spec() -> bool {
        true
    }

    open spec fn from_spec(e: cudarc::nvrtc::CompileError) -> CudaError {
        CudaError::Compiler(e)
    }
}

} // verus!
