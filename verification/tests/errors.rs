use cuda_backend::device::found_or_missing;
use cuda_backend::CudaError;
use cudarc::driver::sys::CUresult;
use cudarc::driver::DriverError;
use cudarc::nvrtc::result::NvrtcError;
use cudarc::nvrtc::sys::nvrtcResult;
use cudarc::nvrtc::CompileError;

#[test]
fn a_contiguity_error_names_the_operation() {
    let e = CudaError::RequiresContiguous { op: "affine" };
    assert_eq!(e.message(), "affine only supports contiguous tensors");
}

#[test]
fn a_missing_kernel_error_names_the_kernel() {
    let e = CudaError::MissingKernel { module_name: "fill_f64" };
    assert_eq!(e.message(), "missing kernel 'fill_f64'");
}

#[test]
fn a_compiler_error_speaks_for_itself() {
    let inner = CompileError::GetPtxError(NvrtcError(nvrtcResult::NVRTC_ERROR_COMPILATION));
    let e = CudaError::Compiler(inner.clone());
    assert_eq!(e.message(), inner.to_string());
}

#[test]
fn a_driver_error_becomes_a_cuda_error() {
    let inner = DriverError(CUresult::CUDA_ERROR_OUT_OF_MEMORY);
    match CudaError::from(inner) {
        CudaError::Cuda(e) => assert!(e == inner),
        _ => panic!("expected a driver error"),
    }
}

#[test]
fn a_compile_error_becomes_a_compiler_error() {
    let inner = CompileError::CreationError(NvrtcError(nvrtcResult::NVRTC_ERROR_INVALID_INPUT));
    match CudaError::from(inner.clone()) {
        CudaError::Compiler(e) => assert!(e == inner),
        _ => panic!("expected a compiler error"),
    }
}

#[test]
fn an_entry_point_that_is_not_found_is_a_missing_kernel() {
    match found_or_missing(None, "affine_f32") {
        Err(CudaError::MissingKernel { module_name }) => assert_eq!(module_name, "affine_f32"),
        _ => panic!("expected a missing kernel"),
    }
}
