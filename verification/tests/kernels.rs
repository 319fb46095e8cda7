use cuda_backend::kernels::{AFFINE_CU, FILL_CU};
use cuda_backend::{DType, KernelOp};

const OPS: [KernelOp; 2] = [KernelOp::Fill, KernelOp::Affine];
const DTYPES: [DType; 2] = [DType::F32, DType::F64];

#[test]
fn a_kernel_is_named_after_its_operation_and_element_type() {
    assert_eq!(KernelOp::Fill.name(DType::F32), "fill_f32");
    assert_eq!(KernelOp::Fill.name(DType::F64), "fill_f64");
    assert_eq!(KernelOp::Affine.name(DType::F32), "affine_f32");
    assert_eq!(KernelOp::Affine.name(DType::F64), "affine_f64");
}

#[test]
fn no_two_kernels_share_a_name() {
    for op1 in OPS {
        for dtype1 in DTYPES {
            for op2 in OPS {
                for dtype2 in DTYPES {
                    let same_name = op1.name(dtype1) == op2.name(dtype2);
                    assert_eq!(same_name, op1 == op2 && dtype1 == dtype2);
                }
            }
        }
    }
}

#[test]
fn each_operation_has_its_own_source() {
    assert_eq!(KernelOp::Fill.source(), FILL_CU);
    assert_eq!(KernelOp::Affine.source(), AFFINE_CU);
    assert_ne!(FILL_CU, AFFINE_CU);
}

#[test]
fn a_source_declares_the_entry_point_of_every_element_type() {
    for op in OPS {
        for dtype in DTYPES {
            let declaration = format!("__global__ void {}(", op.name(dtype));
            assert!(op.source().contains(&declaration));
        }
    }
}

#[test]
fn names_and_sources_hold_no_nul() {
    for op in OPS {
        assert!(!op.source().contains('\0'));
        for dtype in DTYPES {
            assert!(!op.name(dtype).contains('\0'));
        }
    }
}

#[test]
fn elements_are_four_or_eight_bytes_wide() {
    assert_eq!(DType::F32.size_in_bytes(), 4);
    assert_eq!(DType::F64.size_in_bytes(), 8);
    assert_eq!(DType::F32.size_in_bytes(), std::mem::size_of::<f32>());
    assert_eq!(DType::F64.size_in_bytes(), std::mem::size_of::<f64>());
}
