//! Which raster-to-model transform the tags of an image describe.
//!
//! The three tags are checked one by one and against each other, and the
//! values that the selected transform is made of are picked out. `D` is the
//! type of a tag value: it is copied and never computed with here, so that
//! the arithmetic of a transform is left to the user of these types.

use vstd::prelude::*;

use crate::error::FormatError;

verus! {

/// A pair of values along the two axes.
#[derive(Debug, PartialEq)]
pub struct Point<D> {
    pub x: D,
    pub y: D,
}

/// The six coefficients `a0 .. a5` of the affine map
/// `x' = x*a0 + y*a1 + a2`, `y' = x*a3 + y*a4 + a5`.
#[derive(Debug, PartialEq)]
pub struct AffineTransform<D> {
    pub transform: [D; 6],
}

/// One tie point with the scale of a pixel along each axis.
#[derive(Debug, PartialEq)]
pub struct TiePointAndPixelScale<D> {
    pub raster_point: Point<D>,
    pub model_point: Point<D>,
    pub pixel_scale: Point<D>,
}

/// The transform between raster space and model space.
#[derive(Debug, PartialEq)]
pub enum CoordinateTransform<D> {
    AffineTransform(AffineTransform<D>),
    TiePointAndPixelScale(TiePointAndPixelScale<D>),
}

/// What a transform holds.
pub enum TransformView<D> {
    /// The six coefficients of an affine map.
    AffineTransform(Seq<D>),
    /// A tie point and a pixel scale.
    TiePointAndPixelScale(TiePointAndPixelScale<D>),
}

/// The six coefficients that a row-major 4×4 matrix gives to a map of the
/// plane: of its first two rows, all but the third column.
pub open spec fn affine_coefficients<D>(matrix: Seq<D>) -> Seq<D> {
    seq![matrix[0], matrix[1], matrix[3], matrix[4], matrix[5], matrix[7]]
}

/// The tie point and scale that a tie point of six values (raster x, y, z,
/// model x, y, z) and a pixel scale (x, y, z) give.
pub open spec fn tie_point_and_scale<D>(tie_points: Seq<D>, pixel_scale: Seq<D>)
    -> TiePointAndPixelScale<D> {
    TiePointAndPixelScale {
        raster_point: Point { x: tie_points[0], y: tie_points[1] },
        model_point: Point { x: tie_points[3], y: tie_points[4] },
        pixel_scale: Point { x: pixel_scale[0], y: pixel_scale[1] },
    }
}

/// The first defect in the length of a tag, taken in the order pixel scale,
/// tie points, transformation matrix.
pub open spec fn length_defect<D>(
    pixel_scale: Option<Seq<D>>,
    tie_points: Option<Seq<D>>,
    matrix: Option<Seq<D>>,
) -> Option<FormatError> {
    if pixel_scale is Some && pixel_scale.unwrap().len() != 3 {
        Some(FormatError::PixelScaleLength { len: pixel_scale.unwrap().len() as usize })
    } else if tie_points is Some && tie_points.unwrap().len() == 0 {
        Some(FormatError::TiePointsEmpty)
    } else if tie_points is Some && tie_points.unwrap().len() % 6 != 0 {
        Some(FormatError::TiePointsNotDivisibleBySix { len: tie_points.unwrap().len() as usize })
    } else if matrix is Some && matrix.unwrap().len() != 16 {
        Some(FormatError::TransformationLength { len: matrix.unwrap().len() as usize })
    } else {
        None
    }
}

/// The transform that the three tags describe, or their first defect.
pub open spec fn resolve<D>(
    pixel_scale: Option<Seq<D>>,
    tie_points: Option<Seq<D>>,
    matrix: Option<Seq<D>>,
) -> Result<TransformView<D>, FormatError> {
    if length_defect(pixel_scale, tie_points, matrix) is Some {
        Err(length_defect(pixel_scale, tie_points, matrix).unwrap())
    } else if matrix is Some {
        if pixel_scale is Some {
            Err(FormatError::PixelScaleWithTransformation)
        } else if tie_points is Some {
            Err(FormatError::TiePointsWithTransformation)
        } else {
            Ok(TransformView::AffineTransform(affine_coefficients(matrix.unwrap())))
        }
    } else if tie_points is None {
        Err(FormatError::TiePointsMissing)
    } else if tie_points.unwrap().len() == 6 {
        if pixel_scale is None {
            Err(FormatError::PixelScaleMissing)
        } else {
            Ok(
                TransformView::TiePointAndPixelScale(
                    tie_point_and_scale(tie_points.unwrap(), pixel_scale.unwrap()),
                ),
            )
        }
    } else {
        Err(FormatError::TiePointsNotSupported)
    }
}

/// A transform is selected in exactly two situations: a matrix of 16 values
/// stands alone, or a single tie point stands beside a pixel scale of 3
/// values and no matrix.
pub proof fn lemma_resolve_succeeds_exactly<D>(
    pixel_scale: Option<Seq<D>>,
    tie_points: Option<Seq<D>>,
    matrix: Option<Seq<D>>,
)
    ensures
        resolve(pixel_scale, tie_points, matrix) is Ok <==> {
            ||| (matrix is Some && matrix.unwrap().len() == 16 && pixel_scale is None
                && tie_points is None)
            ||| (matrix is None && tie_points is Some && tie_points.unwrap().len() == 6
                && pixel_scale is Some && pixel_scale.unwrap().len() == 3)
        },
{
}

/// A pixel scale that does not hold 3 values is rejected for its length,
/// whatever the other two tags hold.
pub proof fn lemma_pixel_scale_length_rejected<D>(
    pixel_scale: Seq<D>,
    tie_points: Option<Seq<D>>,
    matrix: Option<Seq<D>>,
)
    requires
        pixel_scale.len() != 3,
    ensures
        resolve(Some(pixel_scale), tie_points, matrix) == Err::<TransformView<D>, FormatError>(
            FormatError::PixelScaleLength { len: pixel_scale.len() as usize },
        ),
{
}

/// Tie points that hold no value, or a number of values that 6 does not
/// divide, are rejected, whatever the other two tags hold.
pub proof fn lemma_tie_points_length_rejected<D>(
    pixel_scale: Option<Seq<D>>,
    tie_points: Seq<D>,
    matrix: Option<Seq<D>>,
)
    requires
        tie_points.len() == 0 || tie_points.len() % 6 != 0,
    ensures
        resolve(pixel_scale, Some(tie_points), matrix) is Err,
        pixel_scale is None || pixel_scale.unwrap().len() == 3 ==> resolve(
            pixel_scale,
            Some(tie_points),
            matrix,
        ) == Err::<TransformView<D>, FormatError>(
            if tie_points.len() == 0 {
                FormatError::TiePointsEmpty
            } else {
                FormatError::TiePointsNotDivisibleBySix { len: tie_points.len() as usize }
            },
        ),
{
}

/// A transformation matrix that does not hold 16 values is rejected,
/// whatever the other two tags hold.
pub proof fn lemma_matrix_length_rejected<D>(
    pixel_scale: Option<Seq<D>>,
    tie_points: Option<Seq<D>>,
    matrix: Seq<D>,
)
    requires
        matrix.len() != 16,
    ensures
        resolve(pixel_scale, tie_points, Some(matrix)) is Err,
        length_defect(pixel_scale, tie_points, None) is None ==> resolve(
            pixel_scale,
            tie_points,
            Some(matrix),
        ) == Err::<TransformView<D>, FormatError>(
            FormatError::TransformationLength { len: matrix.len() as usize },
        ),
{
}

/// A transformation matrix beside a pixel scale or beside tie points is
/// rejected, whatever the matrix holds.
pub proof fn lemma_matrix_excludes_other_tags<D>(
    pixel_scale: Option<Seq<D>>,
    tie_points: Option<Seq<D>>,
    matrix: Seq<D>,
)
    requires
        pixel_scale is Some || tie_points is Some,
    ensures
        resolve(pixel_scale, tie_points, Some(matrix)) is Err,
{
}

/// Without a transformation matrix and without tie points nothing is
/// selected, whatever the pixel scale holds.
pub proof fn lemma_matrix_or_tie_points_required<D>(pixel_scale: Option<Seq<D>>)
    ensures
        resolve(pixel_scale, None, None) is Err,
        pixel_scale is None || pixel_scale.unwrap().len() == 3 ==> resolve(pixel_scale, None, None)
            == Err::<TransformView<D>, FormatError>(FormatError::TiePointsMissing),
{
}

/// A single tie point without a pixel scale is rejected, with or without a
/// matrix; without one the error says that the pixel scale is missing.
pub proof fn lemma_single_tie_point_needs_pixel_scale<D>(
    tie_points: Seq<D>,
    matrix: Option<Seq<D>>,
)
    requires
        tie_points.len() == 6,
    ensures
        resolve(None, Some(tie_points), matrix) is Err,
        resolve(None, Some(tie_points), None) == Err::<TransformView<D>, FormatError>(
            FormatError::PixelScaleMissing,
        ),
{
}

/// Two or more tie points are never turned into a transform; where the tags
/// are otherwise in order the error says that such transforms are not
/// supported.
pub proof fn lemma_several_tie_points_not_supported<D>(
    pixel_scale: Option<Seq<D>>,
    tie_points: Seq<D>,
    matrix: Option<Seq<D>>,
)
    requires
        tie_points.len() >= 12,
    ensures
        resolve(pixel_scale, Some(tie_points), matrix) is Err,
        tie_points.len() % 6 == 0 && (pixel_scale is None || pixel_scale.unwrap().len() == 3)
            ==> resolve(pixel_scale, Some(tie_points), None) == Err::<TransformView<D>, FormatError>(
            FormatError::TiePointsNotSupported,
        ),
{
}

/// What is selected is made of the tags' own values: the coefficients of an
/// affine transform are six values of the matrix, and a tie point and scale
/// is made of the first tie point and the pixel scale.
pub proof fn lemma_selected_values<D>(
    pixel_scale: Option<Seq<D>>,
    tie_points: Option<Seq<D>>,
    matrix: Option<Seq<D>>,
)
    requires
        resolve(pixel_scale, tie_points, matrix) is Ok,
    ensures
        matrix is Some ==> resolve(pixel_scale, tie_points, matrix) == Ok::<
            TransformView<D>,
            FormatError,
        >(TransformView::AffineTransform(affine_coefficients(matrix.unwrap()))),
        matrix is None ==> resolve(pixel_scale, tie_points, matrix) == Ok::<
            TransformView<D>,
            FormatError,
        >(
            TransformView::TiePointAndPixelScale(
                tie_point_and_scale(tie_points.unwrap(), pixel_scale.unwrap()),
            ),
        ),
{
}

/// The values of a tag, if the tag is there.
pub open spec fn values_of<D>(tag: Option<Vec<D>>) -> Option<Seq<D>> {
    match tag {
        None => None,
        Some(values) => Some(values@),
    }
}

impl<D> View for AffineTransform<D> {
    type V = Seq<D>;

    open spec fn view(&self) -> Seq<D> {
        self.transform@
    }
}

impl<D> View for CoordinateTransform<D> {
    type V = TransformView<D>;

    open spec fn view(&self) -> TransformView<D> {
        match *self {
            CoordinateTransform::AffineTransform(affine) => TransformView::AffineTransform(affine@),
            CoordinateTransform::TiePointAndPixelScale(tie) => TransformView::TiePointAndPixelScale(
                tie,
            ),
        }
    }
}

impl<D: Copy> AffineTransform<D> {
    /// Picks the coefficients of the affine map out of a row-major 4×4
    /// matrix.
    pub fn from_tag_matrix(matrix: [D; 16]) -> (affine: Self)
        ensures
            affine@ == affine_coefficients(matrix@),
    {
        let transform = [matrix[0], matrix[1], matrix[3], matrix[4], matrix[5], matrix[7]];
        assert(transform@ =~= affine_coefficients(matrix@));
        AffineTransform { transform }
    }
}

impl<D: Copy> TiePointAndPixelScale<D> {
    /// Takes the anchor from the first tie point in `tie_points` and the
    /// scale from `pixel_scale`.
    pub fn from_tag_data(tie_points: &[D], pixel_scale: &[D]) -> (tie: Self)
        requires
            tie_points@.len() >= 5,
            pixel_scale@.len() >= 2,
        ensures
            tie == tie_point_and_scale(tie_points@, pixel_scale@),
    {
        TiePointAndPixelScale {
            raster_point: Point { x: tie_points[0], y: tie_points[1] },
            model_point: Point { x: tie_points[3], y: tie_points[4] },
            pixel_scale: Point { x: pixel_scale[0], y: pixel_scale[1] },
        }
    }
}

impl<D: Copy> CoordinateTransform<D> {
    /// Checks the three tags and selects the transform that they describe.
    ///
    /// Each tag that is there must have its length: 3 values for the pixel
    /// scale, a positive multiple of 6 for the tie points, 16 for the matrix.
    /// A matrix stands alone and gives an affine transform. Without one there
    /// must be tie points: a single one, with a pixel scale, gives a tie point
    /// and scale; more than one are not supported.
    pub fn from_tag_data(
        pixel_scale_data: Option<Vec<D>>,
        model_tie_points_data: Option<Vec<D>>,
        model_transformation_data: Option<Vec<D>>,
    ) -> (result: Result<Self, FormatError>)
        ensures
            match result {
                Ok(transform) => resolve(
                    values_of(pixel_scale_data),
                    values_of(model_tie_points_data),
                    values_of(model_transformation_data),
                ) == Ok::<TransformView<D>, FormatError>(transform@),
                Err(e) => resolve(
                    values_of(pixel_scale_data),
                    values_of(model_tie_points_data),
                    values_of(model_transformation_data),
                ) == Err::<TransformView<D>, FormatError>(e),
            },
    {
        if let Some(pixel_scale) = &pixel_scale_data {
            if pixel_scale.len() != 3 {
                return Err(FormatError::PixelScaleLength { len: pixel_scale.len() });
            }
        }
        if let Some(tie_points) = &model_tie_points_data {
            let len: usize = tie_points.len();
            if len == 0 {
                return Err(FormatError::TiePointsEmpty);
            }
            if len % 6 != 0 {
                return Err(FormatError::TiePointsNotDivisibleBySix { len });
            }
        }
        if let Some(matrix) = &model_transformation_data {
            if matrix.len() != 16 {
                return Err(FormatError::TransformationLength { len: matrix.len() });
            }
        }
        if let Some(m) = &model_transformation_data {
            if pixel_scale_data.is_some() {
                return Err(FormatError::PixelScaleWithTransformation);
            }
            if model_tie_points_data.is_some() {
                return Err(FormatError::TiePointsWithTransformation);
            }
            let matrix = [
                m[0], m[1], m[2], m[3], m[4], m[5], m[6], m[7],
                m[8], m[9], m[10], m[11], m[12], m[13], m[14], m[15],
            ];
            assert(affine_coefficients(matrix@) =~= affine_coefficients(m@));
            Ok(CoordinateTransform::AffineTransform(AffineTransform::from_tag_matrix(matrix)))
        } else {
            let tie_points = match &model_tie_points_data {
                None => { return Err(FormatError::TiePointsMissing); },
                Some(tie_points) => tie_points,
            };
            if tie_points.len() == 6 {
                let pixel_scale = match &pixel_scale_data {
                    None => { return Err(FormatError::PixelScaleMissing); },
                    Some(pixel_scale) => pixel_scale,
                };
                Ok(
                    CoordinateTransform::TiePointAndPixelScale(
                        TiePointAndPixelScale::from_tag_data(
                            tie_points.as_slice(),
                            pixel_scale.as_slice(),
                        ),
                    ),
                )
            } else {
                Err(FormatError::TiePointsNotSupported)
            }
        }
    }
}

} // verus!
