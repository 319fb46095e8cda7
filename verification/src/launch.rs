//! Launch geometry, and the plan of a kernel launch: everything about a
//! launch that is decided before the device is touched.
//!
//! Carrying a plan out takes the driver's launch call, which is `unsafe`
//! and so is left to the caller: allocate the output for `elem_count`
//! elements, resolve the kernel with `CudaDevice::load_kernel`, and launch
//! it in the plan's geometry. The output may be wrapped in a `CudaStorage`
//! once the launch has been accepted, and not before.

use crate::driver::for_num_elems;
use crate::dtype::DType;
use crate::error::CudaError;
use crate::kernels::KernelOp;
use crate::shape::{contiguous, Shape};
use vstd::prelude::*;

verus! {

/// The largest element count a launch can be sized for: the block count is
/// computed in 32 bits, from the count and the block size added up.
pub const MAX_LAUNCH_ELEMS: usize = 4_294_966_271;

/// The grid and block extents of a kernel launch.
#[derive(Clone, Copy, Debug, PartialEq, Eq)]
pub struct LaunchConfig {
    /// Blocks in the grid, by axis.
    pub grid_dim: (u32, u32, u32),
    /// Threads in a block, by axis.
    pub block_dim: (u32, u32, u32),
    /// Dynamic shared memory per block, in bytes.
    pub shared_mem_bytes: u32,
}

impl LaunchConfig {
    /// The geometry for `n` elements: a row of 1024-thread blocks, as many
    /// as it takes to give every element a thread.
    pub open spec fn covering(n: nat) -> LaunchConfig {
        LaunchConfig {
            grid_dim: (((n + 1023) / 1024) as u32, 1, 1),
            block_dim: (1024, 1, 1),
            shared_mem_bytes: 0,
        }
    }

    /// The number of threads the launch starts.
    pub open spec fn threads(self) -> nat {
        let (gx, gy, gz) = self.grid_dim;
        let (bx, by, bz) = self.block_dim;
        (gx as nat) * (gy as nat) * (gz as nat) * (bx as nat) * (by as nat) * (bz as nat)
    }

    /// The geometry for a launch over `elem_count` elements. It starts at
    /// least one thread per element.
    pub fn for_elem_count(elem_count: usize) -> (cfg: LaunchConfig)
        requires
            elem_count <= MAX_LAUNCH_ELEMS,
        ensures
            cfg == LaunchConfig::covering(elem_count as nat),
            cfg.threads() >= elem_count,
    {
        let cfg = for_num_elems(elem_count as u32);
        proof {
            lemma_covering_threads(elem_count as nat);
        }
        cfg
    }
}

/// The covering geometry starts at least one thread per element, and fewer
/// than a block more.
pub proof fn lemma_covering_threads(n: nat)
    requires
        n <= MAX_LAUNCH_ELEMS,
    ensures
        n <= LaunchConfig::covering(n).threads() < n + 1024,
{
    let blocks = (n + 1023) / 1024;
    assert(LaunchConfig::covering(n).grid_dim.0 == blocks);
    assert(LaunchConfig::covering(n).threads() == blocks * 1024) by (nonlinear_arith)
        requires
            LaunchConfig::covering(n).grid_dim == (blocks as u32, 1u32, 1u32),
            blocks as u32 == blocks,
            LaunchConfig::covering(n).block_dim == (1024u32, 1u32, 1u32),
    ;
}

/// A kernel launch, planned: which entry point runs, over how many elements
/// and in what geometry.
#[derive(Clone, Copy, Debug, PartialEq, Eq)]
pub struct LaunchPlan {
    /// The operation to run.
    pub op: KernelOp,
    /// The element type of the buffers it runs on.
    pub dtype: DType,
    /// The number of elements in each buffer.
    pub elem_count: usize,
    /// The launch geometry.
    pub cfg: LaunchConfig,
}

impl LaunchPlan {
    /// The plan of `op` on `elem_count` elements of type `dtype`.
    pub open spec fn of(op: KernelOp, dtype: DType, elem_count: nat) -> LaunchPlan {
        LaunchPlan {
            op,
            dtype,
            elem_count: elem_count as usize,
            cfg: LaunchConfig::covering(elem_count),
        }
    }

    /// Plans the launch that fills a new buffer of the given shape and
    /// element type with one value.
    pub fn fill(dtype: DType, shape: &Shape) -> (plan: LaunchPlan)
        requires
            shape.elem_count_spec() <= MAX_LAUNCH_ELEMS,
        ensures
            plan == LaunchPlan::of(KernelOp::Fill, dtype, shape.elem_count_spec()),
            plan.cfg.threads() >= plan.elem_count,
    {
        let elem_count = shape.elem_count();
        LaunchPlan {
            op: KernelOp::Fill,
            dtype,
            elem_count,
            cfg: LaunchConfig::for_elem_count(elem_count),
        }
    }

    /// Plans the launch that maps every element `x` of a buffer of the given
    /// shape and element type to `x * mul + add` in a new buffer.
    ///
    /// The kernel addresses both buffers linearly, so the layout must be
    /// contiguous: any other stride is refused, whatever the shape, and
    /// nothing is planned.
    pub fn affine(dtype: DType, shape: &Shape, stride: &[usize]) -> (r: Result<
        LaunchPlan,
        CudaError,
    >)
        requires
            contiguous(shape@, stride@) ==> shape.elem_count_spec() <= MAX_LAUNCH_ELEMS,
        ensures
            match r {
                Ok(plan) => contiguous(shape@, stride@) && plan == LaunchPlan::of(
                    KernelOp::Affine,
                    dtype,
                    shape.elem_count_spec(),
                ) && plan.cfg.threads() >= plan.elem_count,
                Err(e) => !contiguous(shape@, stride@) && e == (CudaError::RequiresContiguous {
                    op: "affine",
                }),
            },
    {
        if !shape.is_contiguous(stride) {
            return Err(CudaError::RequiresContiguous { op: "affine" });
        }
        let elem_count = shape.elem_count();
        Ok(
            LaunchPlan {
                op: KernelOp::Affine,
                dtype,
                elem_count,
                cfg: LaunchConfig::for_elem_count(elem_count),
            },
        )
    }
}

} // verus!
