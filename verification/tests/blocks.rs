use matrix_rings::Matrix;

fn blocks_of(flat: [[i32; 4]; 4]) -> Matrix<Matrix<i32, 2, 2>, 2, 2> {
    let block = |bi: usize, bj: usize| {
        Matrix::new([
            [flat[2 * bi][2 * bj], flat[2 * bi][2 * bj + 1]],
            [flat[2 * bi + 1][2 * bj], flat[2 * bi + 1][2 * bj + 1]],
        ])
    };
    Matrix::new([[block(0, 0), block(0, 1)], [block(1, 0), block(1, 1)]])
}

fn flat_of(blocks: &Matrix<Matrix<i32, 2, 2>, 2, 2>) -> Matrix<i32, 4, 4> {
    let mut flat = [[0; 4]; 4];
    for x in 0..4 {
        for y in 0..4 {
            flat[x][y] = blocks[(x / 2, y / 2)][(x % 2, y % 2)];
        }
    }
    Matrix::new(flat)
}

const LEFT: [[i32; 4]; 4] = [[1, 2, 3, 4], [5, 6, 7, 8], [9, 10, 11, 12], [13, 14, 15, 16]];

const RIGHT: [[i32; 4]; 4] = [[2, 0, -1, 3], [1, 1, 0, -2], [4, -3, 2, 0], [0, 5, 1, 1]];

#[test]
fn flattening_and_cutting_into_blocks_are_inverse() {
    assert_eq!(flat_of(&blocks_of(LEFT)), Matrix::new(LEFT));
    assert_eq!(blocks_of(LEFT)[(1, 0)], Matrix::new([[9, 10], [13, 14]]));
}

#[test]
fn sum_by_blocks_is_the_sum_of_the_flat_matrices() {
    let by_blocks = blocks_of(LEFT) + blocks_of(RIGHT);
    let flat = Matrix::new(LEFT) + Matrix::new(RIGHT);
    assert_eq!(flat_of(&by_blocks), flat);
    assert_eq!(
        flat,
        Matrix::new([[3, 2, 2, 7], [6, 7, 7, 6], [13, 7, 13, 12], [13, 19, 16, 17]])
    );
}

#[test]
fn product_by_blocks_is_the_product_of_the_flat_matrices() {
    let by_blocks = blocks_of(LEFT) * blocks_of(RIGHT);
    let flat = Matrix::new(LEFT) * Matrix::new(RIGHT);
    assert_eq!(flat_of(&by_blocks), flat);
    assert_eq!(
        flat,
        Matrix::new([
            [16, 13, 9, 3],
            [44, 25, 17, 11],
            [72, 37, 25, 19],
            [100, 49, 33, 27]
        ])
    );
}

#[test]
fn product_of_blocks_of_different_shapes() {
    // two by one blocks of shape 1x2, times one by one block of shape 2x1
    let a: Matrix<Matrix<i32, 1, 2>, 2, 1> =
        Matrix::new([[Matrix::new([[1, 2]])], [Matrix::new([[3, 4]])]]);
    let b: Matrix<Matrix<i32, 2, 1>, 1, 1> = Matrix::new([[Matrix::new([[5], [6]])]]);
    let product: Matrix<Matrix<i32, 1, 1>, 2, 1> = a * b;
    assert_eq!(product[(0, 0)], Matrix::new([[17]]));
    assert_eq!(product[(1, 0)], Matrix::new([[39]]));
}
