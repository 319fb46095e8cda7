use cuda_backend::launch::MAX_LAUNCH_ELEMS;
use cuda_backend::{CudaError, DType, KernelOp, LaunchConfig, LaunchPlan, Shape};

fn threads(cfg: &LaunchConfig) -> u64 {
    let (gx, gy, gz) = cfg.grid_dim;
    let (bx, by, bz) = cfg.block_dim;
    gx as u64 * gy as u64 * gz as u64 * bx as u64 * by as u64 * bz as u64
}

#[test]
fn one_block_covers_up_to_1024_elements() {
    for n in [1usize, 2, 4, 1023, 1024] {
        let cfg = LaunchConfig::for_elem_count(n);
        assert_eq!(cfg.grid_dim, (1, 1, 1));
        assert_eq!(cfg.block_dim, (1024, 1, 1));
        assert_eq!(cfg.shared_mem_bytes, 0);
    }
}

#[test]
fn the_grid_grows_by_a_block_every_1024_elements() {
    assert_eq!(LaunchConfig::for_elem_count(1025).grid_dim, (2, 1, 1));
    assert_eq!(LaunchConfig::for_elem_count(2048).grid_dim, (2, 1, 1));
    assert_eq!(LaunchConfig::for_elem_count(2049).grid_dim, (3, 1, 1));
    assert_eq!(LaunchConfig::for_elem_count(1_000_000).grid_dim, (977, 1, 1));
}

#[test]
fn no_elements_need_no_blocks() {
    let cfg = LaunchConfig::for_elem_count(0);
    assert_eq!(cfg.grid_dim, (0, 1, 1));
    assert_eq!(cfg.block_dim, (1024, 1, 1));
}

#[test]
fn the_largest_launch_fits_in_32_bits() {
    let cfg = LaunchConfig::for_elem_count(MAX_LAUNCH_ELEMS);
    assert_eq!(cfg.grid_dim, (4_194_303, 1, 1));
    assert_eq!(cfg.block_dim, (1024, 1, 1));
    assert_eq!(MAX_LAUNCH_ELEMS as u64 + 1024, u32::MAX as u64);
}

#[test]
fn every_element_gets_a_thread() {
    for n in [0usize, 1, 1023, 1024, 1025, 4096, 123_457, MAX_LAUNCH_ELEMS] {
        let cfg = LaunchConfig::for_elem_count(n);
        assert!(threads(&cfg) >= n as u64);
        assert!(threads(&cfg) < n as u64 + 1024);
    }
}

#[test]
fn affine_on_four_single_precision_elements_is_one_block_of_affine_f32() {
    let shape = Shape::new(vec![4]).unwrap();
    let plan = LaunchPlan::affine(DType::F32, &shape, &[1]).unwrap();
    assert_eq!(plan.op, KernelOp::Affine);
    assert_eq!(plan.dtype, DType::F32);
    assert_eq!(plan.elem_count, 4);
    assert_eq!(plan.cfg, LaunchConfig::for_elem_count(4));
    assert_eq!(plan.cfg.grid_dim, (1, 1, 1));
    assert_eq!(plan.op.name(plan.dtype), "affine_f32");
}

#[test]
fn affine_on_double_precision_runs_affine_f64() {
    let shape = Shape::new(vec![3, 3]).unwrap();
    let plan = LaunchPlan::affine(DType::F64, &shape, &[3, 1]).unwrap();
    assert_eq!(plan.elem_count, 9);
    assert_eq!(plan.op.name(plan.dtype), "affine_f64");
}

#[test]
fn affine_on_a_transposed_square_is_refused() {
    let shape = Shape::new(vec![2, 2]).unwrap();
    let refused = LaunchPlan::affine(DType::F32, &shape, &[1, 2]);
    match refused {
        Err(CudaError::RequiresContiguous { op }) => assert_eq!(op, "affine"),
        other => panic!("expected a contiguity error, got {:?}", other),
    }
}

#[test]
fn affine_is_refused_for_every_stride_but_the_row_major_one() {
    let shape = Shape::new(vec![2, 3]).unwrap();
    for stride in [vec![1, 2], vec![3, 2], vec![6, 1], vec![3], vec![3, 1, 1], vec![]] {
        for dtype in [DType::F32, DType::F64] {
            assert!(matches!(
                LaunchPlan::affine(dtype, &shape, &stride),
                Err(CudaError::RequiresContiguous { op: "affine" })
            ));
        }
    }
    assert!(LaunchPlan::affine(DType::F32, &shape, &[3, 1]).is_ok());
}

#[test]
fn a_stride_with_gaps_is_refused_whatever_the_size() {
    let shape = Shape::new(vec![usize::MAX]).unwrap();
    assert!(matches!(
        LaunchPlan::affine(DType::F64, &shape, &[2]),
        Err(CudaError::RequiresContiguous { op: "affine" })
    ));
}

#[test]
fn filling_two_single_precision_elements_is_one_block_of_fill_f32() {
    let shape = Shape::new(vec![2]).unwrap();
    let plan = LaunchPlan::fill(DType::F32, &shape);
    assert_eq!(plan.op, KernelOp::Fill);
    assert_eq!(plan.dtype, DType::F32);
    assert_eq!(plan.elem_count, 2);
    assert_eq!(plan.cfg.grid_dim, (1, 1, 1));
    assert_eq!(plan.cfg.block_dim, (1024, 1, 1));
    assert_eq!(plan.op.name(plan.dtype), "fill_f32");
}

#[test]
fn filling_a_large_double_precision_buffer_takes_many_blocks() {
    let shape = Shape::new(vec![1000, 1000]).unwrap();
    let plan = LaunchPlan::fill(DType::F64, &shape);
    assert_eq!(plan.elem_count, 1_000_000);
    assert_eq!(plan.cfg.grid_dim, (977, 1, 1));
    assert_eq!(plan.op.name(plan.dtype), "fill_f64");
}
