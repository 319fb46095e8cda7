//! Device-resident tensor storage on CUDA: typed buffers in device memory,
//! kernels compiled on first use, and the host/device transfers around them.
//!
//! Element values travel through this crate as their IEEE-754 bit patterns
//! (`u32` for single precision, `u64` for double precision), so every
//! contract about buffer contents is a statement about exact bits.
//!
//! - [`shape`]: element counts and the row-major layout check.
//! - [`dtype`]: the element types, and the model of what a buffer holds.
//! - [`error`]: the ways an operation can fail.
//! - [`kernels`]: the names and the source text of the kernels.
//! - [`launch`]: launch geometry and launch plans.
//! - [`device`]: the device handle, zeroed and copied buffers, kernel
//!   resolution.
//! - [`storage`]: host and device buffers, and the copy back to the host.
//! - [`driver`]: the contracts that are assumed of the CUDA driver.

pub mod device;
pub mod driver;
pub mod dtype;
pub mod error;
pub mod kernels;
pub mod launch;
pub mod shape;
pub mod storage;

pub use device::CudaDevice;
pub use dtype::{DType, Elements};
pub use error::CudaError;
pub use kernels::KernelOp;
pub use launch::{LaunchConfig, LaunchPlan};
pub use shape::Shape;
pub use storage::{CpuStorage, CudaStorage};

