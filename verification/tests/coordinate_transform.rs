use geotiff::{
    AffineTransform, CoordinateTransform, FormatError, Point, TiePointAndPixelScale,
};

fn resolve(
    pixel_scale: Option<Vec<f64>>,
    tie_points: Option<Vec<f64>>,
    matrix: Option<Vec<f64>>,
) -> Result<CoordinateTransform<f64>, FormatError> {
    CoordinateTransform::from_tag_data(pixel_scale, tie_points, matrix)
}

fn matrix() -> Vec<f64> {
    vec![
        2.0, 0.5, 0.0, 100.0, //
        0.25, -3.0, 0.0, 200.0, //
        0.0, 0.0, 1.0, 0.0, //
        0.0, 0.0, 0.0, 1.0,
    ]
}

fn tie_point() -> Vec<f64> {
    vec![10.0, 20.0, 0.0, 500.0, 600.0, 0.0]
}

fn scale() -> Vec<f64> {
    vec![0.5, 0.25, 0.0]
}

#[test]
fn matrix_alone_gives_affine_transform() {
    let t = resolve(None, None, Some(matrix())).unwrap();
    assert_eq!(
        t,
        CoordinateTransform::AffineTransform(AffineTransform {
            transform: [2.0, 0.5, 100.0, 0.25, -3.0, 200.0],
        })
    );
}

#[test]
fn coefficients_are_picked_by_position() {
    let m: [f64; 16] = [
        0.0, 1.0, 2.0, 3.0, 4.0, 5.0, 6.0, 7.0, 8.0, 9.0, 10.0, 11.0, 12.0, 13.0, 14.0, 15.0,
    ];
    let affine = AffineTransform::from_tag_matrix(m);
    assert_eq!(affine.transform, [0.0, 1.0, 3.0, 4.0, 5.0, 7.0]);
    let t = resolve(None, None, Some(m.to_vec())).unwrap();
    assert_eq!(
        t,
        CoordinateTransform::AffineTransform(AffineTransform {
            transform: [0.0, 1.0, 3.0, 4.0, 5.0, 7.0],
        })
    );
}

#[test]
fn matrix_of_zeros_is_selected_here() {
    // whether the matrix can be inverted is decided by the arithmetic that
    // uses the coefficients
    let t = resolve(None, None, Some(vec![0.0; 16])).unwrap();
    assert_eq!(
        t,
        CoordinateTransform::AffineTransform(AffineTransform { transform: [0.0; 6] })
    );
}

#[test]
fn single_tie_point_with_scale() {
    let t = resolve(Some(scale()), Some(tie_point()), None).unwrap();
    assert_eq!(
        t,
        CoordinateTransform::TiePointAndPixelScale(TiePointAndPixelScale {
            raster_point: Point { x: 10.0, y: 20.0 },
            model_point: Point { x: 500.0, y: 600.0 },
            pixel_scale: Point { x: 0.5, y: 0.25 },
        })
    );
}

#[test]
fn tie_point_and_scale_from_slices() {
    let t = TiePointAndPixelScale::from_tag_data(
        &[1.0, 2.0, 3.0, 4.0, 5.0, 6.0],
        &[7.0, 8.0, 9.0],
    );
    assert_eq!(t.raster_point, Point { x: 1.0, y: 2.0 });
    assert_eq!(t.model_point, Point { x: 4.0, y: 5.0 });
    assert_eq!(t.pixel_scale, Point { x: 7.0, y: 8.0 });
}

#[test]
fn pixel_scale_must_hold_three_values() {
    assert_eq!(
        resolve(Some(vec![1.0, 1.0]), Some(tie_point()), None),
        Err(FormatError::PixelScaleLength { len: 2 })
    );
    assert_eq!(
        resolve(Some(vec![1.0; 4]), Some(tie_point()), None),
        Err(FormatError::PixelScaleLength { len: 4 })
    );
    assert_eq!(
        resolve(Some(Vec::new()), None, Some(matrix())),
        Err(FormatError::PixelScaleLength { len: 0 })
    );
}

#[test]
fn tie_points_must_not_be_empty() {
    assert_eq!(
        resolve(Some(scale()), Some(Vec::new()), None),
        Err(FormatError::TiePointsEmpty)
    );
    assert_eq!(resolve(None, Some(Vec::new()), Some(matrix())), Err(FormatError::TiePointsEmpty));
}

#[test]
fn tie_points_must_come_in_sixes() {
    assert_eq!(
        resolve(Some(scale()), Some(vec![0.0; 5]), None),
        Err(FormatError::TiePointsNotDivisibleBySix { len: 5 })
    );
    assert_eq!(
        resolve(Some(scale()), Some(vec![0.0; 7]), None),
        Err(FormatError::TiePointsNotDivisibleBySix { len: 7 })
    );
    assert_eq!(
        resolve(None, Some(vec![0.0; 13]), None),
        Err(FormatError::TiePointsNotDivisibleBySix { len: 13 })
    );
}

#[test]
fn matrix_must_hold_sixteen_values() {
    assert_eq!(
        resolve(None, None, Some(vec![1.0; 15])),
        Err(FormatError::TransformationLength { len: 15 })
    );
    assert_eq!(
        resolve(None, None, Some(vec![1.0; 17])),
        Err(FormatError::TransformationLength { len: 17 })
    );
    assert_eq!(
        resolve(None, None, Some(Vec::new())),
        Err(FormatError::TransformationLength { len: 0 })
    );
}

#[test]
fn lengths_are_checked_in_order() {
    assert_eq!(
        resolve(Some(vec![1.0]), Some(vec![0.0; 5]), Some(vec![0.0; 3])),
        Err(FormatError::PixelScaleLength { len: 1 })
    );
    assert_eq!(
        resolve(Some(scale()), Some(vec![0.0; 5]), Some(vec![0.0; 3])),
        Err(FormatError::TiePointsNotDivisibleBySix { len: 5 })
    );
    assert_eq!(
        resolve(Some(scale()), Some(tie_point()), Some(vec![0.0; 3])),
        Err(FormatError::TransformationLength { len: 3 })
    );
}

#[test]
fn matrix_excludes_pixel_scale() {
    assert_eq!(
        resolve(Some(scale()), None, Some(matrix())),
        Err(FormatError::PixelScaleWithTransformation)
    );
    // also with a matrix of zeros, and with both other tags
    assert_eq!(
        resolve(Some(scale()), None, Some(vec![0.0; 16])),
        Err(FormatError::PixelScaleWithTransformation)
    );
    assert_eq!(
        resolve(Some(scale()), Some(tie_point()), Some(matrix())),
        Err(FormatError::PixelScaleWithTransformation)
    );
}

#[test]
fn matrix_excludes_tie_points() {
    assert_eq!(
        resolve(None, Some(tie_point()), Some(matrix())),
        Err(FormatError::TiePointsWithTransformation)
    );
    assert_eq!(
        resolve(None, Some(vec![0.0; 12]), Some(vec![0.0; 16])),
        Err(FormatError::TiePointsWithTransformation)
    );
}

#[test]
fn matrix_or_tie_points_are_required() {
    assert_eq!(resolve(None, None, None), Err(FormatError::TiePointsMissing));
    assert_eq!(resolve(Some(scale()), None, None), Err(FormatError::TiePointsMissing));
}

#[test]
fn single_tie_point_needs_pixel_scale() {
    assert_eq!(resolve(None, Some(tie_point()), None), Err(FormatError::PixelScaleMissing));
}

#[test]
fn several_tie_points_are_not_supported() {
    assert_eq!(
        resolve(Some(scale()), Some(vec![0.0; 12]), None),
        Err(FormatError::TiePointsNotSupported)
    );
    assert_eq!(resolve(None, Some(vec![0.0; 12]), None), Err(FormatError::TiePointsNotSupported));
    assert_eq!(
        resolve(Some(scale()), Some(vec![0.0; 600]), None),
        Err(FormatError::TiePointsNotSupported)
    );
}
