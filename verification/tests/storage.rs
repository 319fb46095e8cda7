use cuda_backend::CpuStorage;

#[test]
fn host_buffers_hold_bit_patterns() {
    let values = [1.0f32, 2.0, 3.0, 4.0];
    let host = CpuStorage::F32(values.iter().map(|v| v.to_bits()).collect());
    match &host {
        CpuStorage::F32(bits) => {
            assert_eq!(bits.len(), 4);
            assert_eq!(bits[0], 0x3f80_0000);
            let back: Vec<f32> = bits.iter().map(|b| f32::from_bits(*b)).collect();
            assert_eq!(back, values);
        }
        CpuStorage::F64(_) => panic!("wrong element type"),
    }
    assert_eq!(host.clone(), host);
}

#[test]
fn zero_bits_are_zero_in_both_element_types() {
    assert_eq!(f32::from_bits(0), 0.0);
    assert_eq!(f64::from_bits(0), 0.0);
    assert!(f32::from_bits(0).is_sign_positive());
    assert!(f64::from_bits(0).is_sign_positive());
}

#[test]
fn a_three_by_three_buffer_of_doubles_has_nine_elements_of_eight_bytes() {
    let shape = cuda_backend::Shape::new(vec![3, 3]).unwrap();
    assert_eq!(shape.elem_count(), 9);
    assert_eq!(cuda_backend::DType::F64.size_in_bytes(), 8);
    let zeros = CpuStorage::F64(vec![0; shape.elem_count()]);
    match zeros {
        CpuStorage::F64(bits) => {
            let values: Vec<f64> = bits.iter().map(|b| f64::from_bits(*b)).collect();
            assert_eq!(values, vec![0.0; 9]);
        }
        CpuStorage::F32(_) => panic!("wrong element type"),
    }
}

#[test]
fn one_has_the_same_bits_everywhere() {
    let ones = CpuStorage::F32(vec![1.0f32.to_bits(); 2]);
    assert_eq!(ones, CpuStorage::F32(vec![0x3f80_0000, 0x3f80_0000]));
    assert_eq!(1.0f64.to_bits(), 0x3ff0_0000_0000_0000);
}
