use cuda_backend::Shape;

#[test]
fn elem_count_is_the_product_of_the_extents() {
    let shape = Shape::new(vec![2, 3, 4]).unwrap();
    assert_eq!(shape.elem_count(), 24);
    assert_eq!(shape.rank(), 3);
    assert_eq!(shape.dims(), &vec![2, 3, 4]);
}

#[test]
fn a_scalar_has_one_element() {
    let shape = Shape::new(vec![]).unwrap();
    assert_eq!(shape.elem_count(), 1);
    assert_eq!(shape.rank(), 0);
    assert!(shape.is_contiguous(&[]));
    assert!(!shape.is_contiguous(&[1]));
}

#[test]
fn a_zero_extent_empties_the_shape() {
    let shape = Shape::new(vec![3, 0, 5]).unwrap();
    assert_eq!(shape.elem_count(), 0);
    assert!(shape.is_contiguous(&[0, 5, 1]));
    assert!(!shape.is_contiguous(&[15, 5, 1]));
}

#[test]
fn an_element_count_beyond_usize_is_refused() {
    assert!(Shape::new(vec![usize::MAX, 2]).is_none());
    assert!(Shape::new(vec![2, usize::MAX]).is_none());
    assert!(Shape::new(vec![1 << (usize::BITS / 2), 1 << (usize::BITS / 2)]).is_none());
    assert!(Shape::new(vec![usize::MAX, 1]).is_some());
}

#[test]
fn a_zero_extent_absorbs_extents_that_would_overflow() {
    let trailing = Shape::new(vec![usize::MAX, usize::MAX, 0]).unwrap();
    assert_eq!(trailing.elem_count(), 0);
    assert!(trailing.is_contiguous(&[0, 0, 1]));

    let leading = Shape::new(vec![0, usize::MAX, usize::MAX]).unwrap();
    assert_eq!(leading.elem_count(), 0);
    // The outermost row-major stride is larger than any `usize`.
    assert!(!leading.is_contiguous(&[usize::MAX, usize::MAX, 1]));
    assert!(!leading.is_contiguous(&[1, usize::MAX, 1]));
    assert!(!leading.is_contiguous(&[0, usize::MAX, 1]));

    let middle = Shape::new(vec![usize::MAX, 0, usize::MAX, usize::MAX]).unwrap();
    assert_eq!(middle.elem_count(), 0);
    // The stride of the empty dimension is larger than any `usize`.
    assert!(!middle.is_contiguous(&[0, 1, usize::MAX, 1]));
    assert!(!middle.is_contiguous(&[0, 0, usize::MAX, 1]));
    assert!(!middle.is_contiguous(&[0, usize::MAX, usize::MAX, 1]));
}

#[test]
fn a_clone_is_the_same_shape() {
    let shape = Shape::new(vec![2, 3, 4]).unwrap();
    let copy = shape.clone();
    assert_eq!(copy.dims(), shape.dims());
    assert_eq!(copy.elem_count(), 24);
    assert!(copy.is_contiguous(&[12, 4, 1]));
}

#[test]
fn row_major_strides_are_contiguous() {
    let shape = Shape::new(vec![2, 3, 4]).unwrap();
    assert!(shape.is_contiguous(&[12, 4, 1]));
    let vector = Shape::new(vec![4]).unwrap();
    assert!(vector.is_contiguous(&[1]));
    let square = Shape::new(vec![3, 3]).unwrap();
    assert!(square.is_contiguous(&[3, 1]));
}

#[test]
fn any_other_stride_is_not_contiguous() {
    let shape = Shape::new(vec![2, 3, 4]).unwrap();
    assert!(!shape.is_contiguous(&[12, 4, 2]));
    assert!(!shape.is_contiguous(&[12, 8, 1]));
    assert!(!shape.is_contiguous(&[24, 4, 1]));
    assert!(!shape.is_contiguous(&[1, 2, 6]));
    assert!(!shape.is_contiguous(&[12, 4]));
    assert!(!shape.is_contiguous(&[12, 4, 1, 1]));
    assert!(!shape.is_contiguous(&[]));
}

#[test]
fn a_transposed_square_is_not_contiguous() {
    let shape = Shape::new(vec![2, 2]).unwrap();
    assert!(shape.is_contiguous(&[2, 1]));
    assert!(!shape.is_contiguous(&[1, 2]));
}

#[test]
fn extents_of_one_still_need_their_row_major_stride() {
    let shape = Shape::new(vec![1, 5]).unwrap();
    assert!(shape.is_contiguous(&[5, 1]));
    assert!(!shape.is_contiguous(&[1, 1]));
}
