use matrix_rings::{Matrix, MatrixRef, Negate, Plus, Times};

#[test]
fn trace_of_two_by_two() {
    let a = Matrix::new([[1, 2], [3, 4]]);
    assert_eq!(a.trace(), 5);
    assert_eq!(a.as_ref().trace(), 5);
}

#[test]
fn trace_of_other_sizes() {
    let empty: Matrix<i32, 0, 0> = Matrix::new([]);
    assert_eq!(empty.trace(), 0);
    assert_eq!(Matrix::new([[-9i64]]).trace(), -9);
    assert_eq!(Matrix::new([[1u8, 200, 200], [200, 2, 200], [200, 200, 3]]).trace(), 6);
}

#[test]
fn trace_of_blocks_is_the_sum_of_the_diagonal_blocks() {
    let a: Matrix<Matrix<i32, 2, 2>, 2, 2> = Matrix::new([
        [Matrix::new([[1, 2], [3, 4]]), Matrix::new([[5, 6], [7, 8]])],
        [Matrix::new([[9, 10], [11, 12]]), Matrix::new([[13, 14], [15, 16]])],
    ]);
    assert_eq!(a.trace(), Matrix::new([[14, 16], [18, 20]]));
}

#[test]
fn negation_of_two_by_two() {
    let a = Matrix::new([[1, 2], [3, 4]]);
    let expected = Matrix::new([[-1, -2], [-3, -4]]);
    assert_eq!(-a.as_ref(), expected);
    assert_eq!(-&a, expected);
    assert_eq!(-a, expected);
}

#[test]
fn negation_twice_is_the_matrix() {
    let a = Matrix::new([[0, -7, 9], [i32::MAX, 1, -1]]);
    assert_eq!(-(-a), a);
}

#[test]
fn sum_of_two_by_two() {
    let a = Matrix::new([[1, 2], [3, 4]]);
    let b = Matrix::new([[5, 6], [7, 8]]);
    assert_eq!(a + b, Matrix::new([[6, 8], [10, 12]]));
}

#[test]
fn product_of_two_by_two() {
    let a = Matrix::new([[1, 2], [3, 4]]);
    let b = Matrix::new([[5, 6], [7, 8]]);
    assert_eq!(a * b, Matrix::new([[19, 22], [43, 50]]));
    assert_eq!(b * a, Matrix::new([[23, 34], [31, 46]]));
}

#[test]
fn difference_is_the_sum_with_the_negation() {
    let a = Matrix::new([[10, 8], [12, 6]]);
    let b = Matrix::new([[5, 6], [7, 8]]);
    assert_eq!(a - b, Matrix::new([[5, 2], [5, -2]]));
    assert_eq!(a - b, a + (-b));
}

#[test]
fn the_three_forms_of_a_sum_agree() {
    let a = Matrix::new([[1, 2, 3], [4, 5, 6]]);
    let b = Matrix::new([[-6, 5, -4], [3, -2, 1]]);
    let of_views = a.as_ref() + b.as_ref();
    assert_eq!(&a + &b, of_views);
    assert_eq!(a + b, of_views);
    assert_eq!(a.plus(&b), of_views);
    assert_eq!(of_views, Matrix::new([[-5, 7, -1], [7, 3, 7]]));
}

#[test]
fn the_three_forms_of_a_difference_agree() {
    let a = Matrix::new([[1, 2, 3], [4, 5, 6]]);
    let b = Matrix::new([[-6, 5, -4], [3, -2, 1]]);
    let of_views = a.as_ref() - b.as_ref();
    assert_eq!(&a - &b, of_views);
    assert_eq!(a - b, of_views);
    assert_eq!(of_views, Matrix::new([[7, -3, 7], [1, 7, 5]]));
}

#[test]
fn the_three_forms_of_a_negation_agree() {
    let a = Matrix::new([[1, -2], [0, 4], [-5, 6]]);
    let of_view = -a.as_ref();
    assert_eq!(-&a, of_view);
    assert_eq!(-a, of_view);
    assert_eq!(a.negate(), of_view);
}

#[test]
fn the_three_forms_of_a_product_agree() {
    let a = Matrix::new([[1, 2, 3], [4, 5, 6]]);
    let b = Matrix::new([[7, 8], [9, 10], [11, 12]]);
    let of_views = a.as_ref() * b.as_ref();
    assert_eq!(&a * &b, of_views);
    assert_eq!(a * b, of_views);
    assert_eq!(a.times(&b), of_views);
    assert_eq!(of_views, Matrix::new([[58, 64], [139, 154]]));
}

#[test]
fn operands_behind_references_stay_usable() {
    let a = Matrix::new([[Matrix::new([[1, 2]])]]);
    let b = Matrix::new([[Matrix::new([[3, 4]])]]);
    let sum = &a + &b;
    let difference = &a - &b;
    assert_eq!(sum[(0, 0)], Matrix::new([[4, 6]]));
    assert_eq!(difference[(0, 0)], Matrix::new([[-2, -2]]));
    assert_eq!(a[(0, 0)][(0, 1)], 2);
    assert_eq!(b[(0, 0)][(0, 0)], 3);
}

#[test]
fn shapes_of_sums_and_products() {
    let a: Matrix<i32, 2, 3> = Matrix::new([[1, 2, 3], [4, 5, 6]]);
    let b: Matrix<i32, 3, 4> = Matrix::new([[1, 0, 0, 1], [0, 1, 0, 1], [0, 0, 1, 1]]);
    let sum: Matrix<i32, 2, 3> = a + a;
    assert_eq!(sum.vals.len(), 2);
    assert_eq!(sum.vals[0].len(), 3);
    let product: Matrix<i32, 2, 4> = a * b;
    assert_eq!(product.vals.len(), 2);
    assert_eq!(product.vals[0].len(), 4);
    assert_eq!(product, Matrix::new([[1, 2, 3, 6], [4, 5, 6, 15]]));
}

#[test]
fn unsigned_entries() {
    let a = Matrix::new([[1u8, 2], [3, 4]]);
    let b = Matrix::new([[5u8, 6], [7, 8]]);
    assert_eq!(a + b, Matrix::new([[6, 8], [10, 12]]));
    assert_eq!(a * b, Matrix::new([[19, 22], [43, 50]]));
}

#[test]
fn wide_entries() {
    let a = Matrix::new([[3_000_000_000i64, 1], [0, -2]]);
    let b = Matrix::new([[2i64, 0], [5, 1_000_000_000_000]]);
    assert_eq!(a * b, Matrix::new([[6_000_000_005, 1_000_000_000_000], [-10, -2_000_000_000_000]]));
}

#[test]
fn to_matrix_copies_every_entry() {
    let vals = [[1, 2, 3], [4, 5, 6]];
    let view = MatrixRef::new(&vals);
    let owned = view.to_matrix();
    assert_eq!(owned, Matrix::new(vals));
    assert_eq!(owned.as_ref(), view);
}

#[test]
fn clone_copies_every_entry() {
    let a = Matrix::new([[vec![1], vec![2, 3]], [vec![], vec![4]]]);
    let b = a.clone();
    assert_eq!(a, b);
    assert_eq!(b[(0, 1)], vec![2, 3]);
    let view = a.as_ref();
    let again = view.clone();
    assert_eq!(again[(1, 1)], vec![4]);
}

#[test]
fn index_reads_rows_then_columns() {
    let a = Matrix::new([[1, 2, 3], [4, 5, 6]]);
    assert_eq!(a[(0, 2)], 3);
    assert_eq!(a[(1, 0)], 4);
    assert_eq!(a.as_ref()[(1, 2)], 6);
}
