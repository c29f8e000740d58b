use cgmath::{perspective, Deg, Matrix4, Point3, SquareMatrix, Vector3};

fn assert_close(actual: Matrix4<f32>, expected: [[f32; 4]; 4]) {
    let columns: [[f32; 4]; 4] = actual.into();
    for column in 0..4 {
        for row in 0..4 {
            let difference = (columns[column][row] - expected[column][row]).abs();
            assert!(
                difference < 1e-5,
                "column {} row {}: {} is not {}",
                column,
                row,
                columns[column][row],
                expected[column][row]
            );
        }
    }
}

#[test]
fn model_matrix_is_the_identity() {
    assert_close(
        Matrix4::identity(),
        [
            [1.0, 0.0, 0.0, 0.0],
            [0.0, 1.0, 0.0, 0.0],
            [0.0, 0.0, 1.0, 0.0],
            [0.0, 0.0, 0.0, 1.0],
        ],
    );
}

#[test]
fn view_matrix_is_the_closed_form_look_at() {
    let view = Matrix4::look_at_rh(
        Point3 { x: 0.0, y: 0.0, z: 5.0 },
        Point3 { x: 0.0, y: 0.0, z: 0.0 },
        Vector3 { x: 0.0, y: 1.0, z: 0.0 },
    );
    assert_close(
        view,
        [
            [1.0, 0.0, 0.0, 0.0],
            [0.0, 1.0, 0.0, 0.0],
            [0.0, 0.0, 1.0, 0.0],
            [0.0, 0.0, -5.0, 1.0],
        ],
    );
}

#[test]
fn projection_matrix_is_the_closed_form_perspective() {
    let aspect = 640.0f32 / 480.0f32;
    let projection: Matrix4<f32> = perspective(Deg(45.0f32), aspect, 0.1, 100.0);
    let focal = 1.0 / (45.0f64.to_radians() / 2.0).tan();
    let near = 0.1f64;
    let far = 100.0f64;
    assert_close(
        projection,
        [
            [(focal / (640.0 / 480.0)) as f32, 0.0, 0.0, 0.0],
            [0.0, focal as f32, 0.0, 0.0],
            [0.0, 0.0, ((far + near) / (near - far)) as f32, -1.0],
            [0.0, 0.0, ((2.0 * far * near) / (near - far)) as f32, 0.0],
        ],
    );
    assert_close(
        projection,
        [
            [1.810_660_2, 0.0, 0.0, 0.0],
            [0.0, 2.414_213_6, 0.0, 0.0],
            [0.0, 0.0, -1.002_002, -1.0],
            [0.0, 0.0, -0.200_200_2, 0.0],
        ],
    );
}
