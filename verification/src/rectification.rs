//! Image rectification against a pinhole camera model.
//!
//! The parameters and coordinates are double-precision numbers, the samples
//! and weights single-precision ones. The arithmetic on them is the caller's;
//! this module decides which model applies and which samples make up each
//! pixel.

use vstd::prelude::*;
use crate::error::Error;
use crate::image::{GrayFloatImage, pixel_index, lemma_pixel_index};
use crate::numeric::{Double, Single, BLACK};

verus! {

/// Rectification parameters of one camera.
#[derive(Debug, Clone, Copy, PartialEq)]
pub struct RectifParams {
    /// Focal lengths, in units of the pixel's width and height.
    pub focals: [Double; 2],
    /// Principal point, in pixel coordinates.
    pub principal_point: [Double; 2],
    /// Skew between the two pixel axes.
    pub skew: Double,
    /// First radial distortion coefficient, where the lens needs one.
    pub k1: Option<Double>,
}

/// Rectification parameters of a stereo pair.
#[derive(Debug, Clone, Copy, PartialEq)]
pub struct StereoRectifParams {
    /// The left camera's parameters.
    pub left: RectifParams,
    /// The right camera's parameters.
    pub right: RectifParams,
}

/// A linear pinhole projection.
#[derive(Debug, Clone, Copy, PartialEq)]
pub struct CameraIntrinsics {
    pub focals: [Double; 2],
    pub principal_point: [Double; 2],
    pub skew: Double,
}

/// A pinhole projection behind a lens with one radial distortion term.
#[derive(Debug, Clone, Copy, PartialEq)]
pub struct CameraIntrinsicsK1Distortion {
    pub simple_intrinsics: CameraIntrinsics,
    pub k1: Double,
}

/// The camera model that a set of parameters stands for.
#[derive(Debug, Clone, Copy, PartialEq)]
pub enum Intrisics {
    Simple(CameraIntrinsics),
    K1(CameraIntrinsicsK1Distortion),
}

impl RectifParams {
    /// The parameters without the distortion coefficient.
    pub open spec fn linear_part(&self) -> CameraIntrinsics {
        CameraIntrinsics {
            focals: self.focals,
            principal_point: self.principal_point,
            skew: self.skew,
        }
    }

    /// The model that these parameters select: the distorted one exactly when
    /// they carry a coefficient.
    pub open spec fn model(&self) -> Intrisics {
        match self.k1 {
            Some(k1) => Intrisics::K1(
                CameraIntrinsicsK1Distortion { simple_intrinsics: self.linear_part(), k1 },
            ),
            None => Intrisics::Simple(self.linear_part()),
        }
    }

    /// What the conversion to plain pinhole intrinsics gives: the linear part
    /// of parameters without a distortion coefficient, and a refusal that
    /// encloses the coefficient otherwise.
    pub open spec fn simple_conversion(&self) -> Result<CameraIntrinsics, Error> {
        match self.k1 {
            None => Ok(self.linear_part()),
            Some(_) => Err(Error::RectifToCamIntrisicsError(self.k1)),
        }
    }

    /// What the conversion to distorted intrinsics gives: the linear part
    /// with the coefficient, and a refusal where there is none.
    pub open spec fn k1_conversion(&self) -> Result<CameraIntrinsicsK1Distortion, Error> {
        match self.k1 {
            Some(k1) => Ok(
                CameraIntrinsicsK1Distortion { simple_intrinsics: self.linear_part(), k1 },
            ),
            None => Err(Error::RectifToCamIntrisicsK1DistortionError),
        }
    }

    /// The plain pinhole intrinsics of these parameters.
    ///
    /// Refused when a distortion coefficient is present, since the result
    /// could not hold it.
    pub fn to_pinhole_intrisics(&self) -> (r: Result<CameraIntrinsics, Error>)
        ensures
            r == self.simple_conversion(),
            r is Ok <==> self.k1 is None,
    {
        if self.k1.is_none() {
            Ok(
                CameraIntrinsics {
                    focals: self.focals,
                    principal_point: self.principal_point,
                    skew: self.skew,
                },
            )
        } else {
            Err(Error::RectifToCamIntrisicsError(self.k1))
        }
    }

    /// The intrinsics of these parameters with their distortion coefficient.
    ///
    /// Refused when there is no coefficient.
    pub fn to_pinhole_intrisics_k1(&self) -> (r: Result<CameraIntrinsicsK1Distortion, Error>)
        ensures
            r == self.k1_conversion(),
            r is Ok <==> self.k1 is Some,
    {
        match self.k1 {
            Some(k1) => Ok(
                CameraIntrinsicsK1Distortion {
                    simple_intrinsics: CameraIntrinsics {
                        focals: self.focals,
                        principal_point: self.principal_point,
                        skew: self.skew,
                    },
                    k1,
                },
            ),
            None => Err(Error::RectifToCamIntrisicsK1DistortionError),
        }
    }

    /// The camera model of these parameters.
    pub fn intrinsics(&self) -> (m: Intrisics)
        ensures
            m == self.model(),
    {
        let simple = CameraIntrinsics {
            focals: self.focals,
            principal_point: self.principal_point,
            skew: self.skew,
        };
        match self.k1 {
            Some(k1) => Intrisics::K1(
                CameraIntrinsicsK1Distortion { simple_intrinsics: simple, k1 },
            ),
            None => Intrisics::Simple(simple),
        }
    }
}

/// Every parameter set has exactly one of the two conversions, and it is the
/// one that yields the model the parameters select: with a distortion
/// coefficient only the distorted intrinsics can be had, without one only the
/// plain ones.
pub proof fn lemma_conversions_exclusive(params: RectifParams)
    ensures
        params.simple_conversion() is Ok <==> params.k1 is None,
        params.k1_conversion() is Ok <==> params.k1 is Some,
        params.simple_conversion() is Ok <==> params.k1_conversion() is Err,
        params.simple_conversion() matches Ok(simple) ==> params.model() == Intrisics::Simple(
            simple,
        ),
        params.k1_conversion() matches Ok(distorted) ==> params.model() == Intrisics::K1(
            distorted,
        ),
{
}

/// Where in the source image a destination pixel takes its light from.
#[derive(Debug, Clone, Copy, PartialEq)]
pub enum SourcePoint {
    /// One of the two coordinates is below zero.
    Negative,
    /// Neither coordinate is below zero.
    Cell {
        /// The whole part of the horizontal coordinate.
        col: usize,
        /// The whole part of the vertical coordinate.
        row: usize,
        /// The fractional part of the horizontal coordinate, in single
        /// precision.
        fract_x: Single,
        /// The fractional part of the vertical coordinate, in single
        /// precision.
        fract_y: Single,
    },
}

impl SourcePoint {
    /// Whether nothing can be sampled at this point in an image of the given
    /// size: the point is negative, or its cell lies in the last column or
    /// row, or beyond, where no neighbour to the right or below exists.
    pub open spec fn dark(&self, width: usize, height: usize) -> bool {
        match *self {
            SourcePoint::Negative => true,
            SourcePoint::Cell { col, row, .. } => col + 1 >= width || row + 1 >= height,
        }
    }
}

/// Whether `value` is a sample that `blend` may return for the source point
/// `at` of `img`: black where the point is dark, and otherwise a blend of the
/// cell's own sample, its right neighbour and its lower neighbour, weighted by
/// the point's fractional parts.
pub open spec fn resampled<B: Fn(Single, Single, Single, Single, Single) -> Single>(
    img: &GrayFloatImage,
    at: SourcePoint,
    blend: B,
    value: Single,
) -> bool {
    match at {
        SourcePoint::Negative => value == BLACK,
        SourcePoint::Cell { col, row, fract_x, fract_y } => if at.dark(
            img.spec_width(),
            img.spec_height(),
        ) {
            value == BLACK
        } else {
            call_ensures(
                blend,
                (
                    img.pixel(col as int, row as int),
                    img.pixel(col + 1, row as int),
                    img.pixel(col as int, row + 1),
                    fract_x,
                    fract_y,
                ),
                value,
            )
        },
    }
}

/// A sample taken at a dark point is exactly black, whatever the image holds
/// and whatever the blend does.
pub proof fn lemma_dark_is_black<B: Fn(Single, Single, Single, Single, Single) -> Single>(
    img: &GrayFloatImage,
    at: SourcePoint,
    blend: B,
    value: Single,
)
    requires
        resampled(img, at, blend, value),
        at.dark(img.spec_width(), img.spec_height()),
    ensures
        value == BLACK,
{
}

/// The sample of `img` at the source point `at`.
///
/// `blend` receives the samples of the cell, of its right neighbour and of its
/// lower neighbour, then the two fractional parts.
pub fn linterp_pixels<B: Fn(Single, Single, Single, Single, Single) -> Single>(
    at: SourcePoint,
    img: &GrayFloatImage,
    blend: &B,
) -> (value: Single)
    requires
        forall|p00: Single, p10: Single, p01: Single, fract_x: Single, fract_y: Single|
            call_requires(*blend, (p00, p10, p01, fract_x, fract_y)),
    ensures
        resampled(img, at, *blend, value),
{
    match at {
        SourcePoint::Negative => BLACK,
        SourcePoint::Cell { col, row, fract_x, fract_y } => {
            let width = img.width();
            let height = img.height();
            if col >= width - 1 || row >= height - 1 {
                BLACK
            } else {
                blend(
                    img.get(col, row),
                    img.get(col + 1, row),
                    img.get(col, row + 1),
                    fract_x,
                    fract_y,
                )
            }
        },
    }
}

/// Whether `locate` and `blend` can be called on whatever rectifying `img`
/// under `model` hands them: `locate` on every pixel of the image, `blend` on
/// any samples and fractions.
pub open spec fn kernels_accept<L, B>(
    img: &GrayFloatImage,
    model: Intrisics,
    locate: L,
    blend: B,
) -> bool where
    L: Fn(Intrisics, usize, usize, usize, usize) -> SourcePoint,
    B: Fn(Single, Single, Single, Single, Single) -> Single,
 {
    &&& forall|x: usize, y: usize|
        x < img.spec_width() && y < img.spec_height() ==> #[trigger] call_requires(
            locate,
            (model, x, y, img.spec_width(), img.spec_height()),
        )
    &&& forall|p00: Single, p10: Single, p01: Single, fract_x: Single, fract_y: Single|
        call_requires(blend, (p00, p10, p01, fract_x, fract_y))
}

/// Whether `value` is a sample of `img` at a point that `locate` may return
/// for the pixel of column `x` and row `y` under the camera model `model`.
pub open spec fn pixel_rectified<L, B>(
    img: &GrayFloatImage,
    model: Intrisics,
    locate: L,
    blend: B,
    x: usize,
    y: usize,
    value: Single,
) -> bool where
    L: Fn(Intrisics, usize, usize, usize, usize) -> SourcePoint,
    B: Fn(Single, Single, Single, Single, Single) -> Single,
 {
    exists|at: SourcePoint|
        {
            &&& #[trigger] call_ensures(
                locate,
                (model, x, y, img.spec_width(), img.spec_height()),
                at,
            )
            &&& resampled(img, at, blend, value)
        }
}

/// Whether `out` is `img` resampled through `locate` and `blend` under the
/// camera model `model`: the two have the same size, and every pixel of `out`
/// is a sample of `img` at a point that `locate` may return for that pixel.
pub open spec fn rectified<L, B>(
    img: &GrayFloatImage,
    model: Intrisics,
    locate: L,
    blend: B,
    out: &GrayFloatImage,
) -> bool where
    L: Fn(Intrisics, usize, usize, usize, usize) -> SourcePoint,
    B: Fn(Single, Single, Single, Single, Single) -> Single,
 {
    &&& out.spec_width() == img.spec_width()
    &&& out.spec_height() == img.spec_height()
    &&& out.shaped()
    &&& forall|x: usize, y: usize|
        x < img.spec_width() && y < img.spec_height() ==> pixel_rectified(
            img,
            model,
            locate,
            blend,
            x,
            y,
            #[trigger] out.pixel(x as int, y as int),
        )
}

/// A pixel of a rectified image is exactly black wherever every source point
/// that `locate` may name for it is dark: negative, or with its cell in the
/// last column or row of the source, or beyond.
pub proof fn lemma_rectified_dark_is_black<L, B>(
    img: &GrayFloatImage,
    model: Intrisics,
    locate: L,
    blend: B,
    out: &GrayFloatImage,
    x: usize,
    y: usize,
) where
    L: Fn(Intrisics, usize, usize, usize, usize) -> SourcePoint,
    B: Fn(Single, Single, Single, Single, Single) -> Single,

    requires
        rectified(img, model, locate, blend, out),
        x < img.spec_width(),
        y < img.spec_height(),
        forall|at: SourcePoint| #[trigger]
            call_ensures(locate, (model, x, y, img.spec_width(), img.spec_height()), at)
                ==> at.dark(img.spec_width(), img.spec_height()),
    ensures
        out.pixel(x as int, y as int) == BLACK,
{
    let value = out.pixel(x as int, y as int);
    assert(pixel_rectified(img, model, locate, blend, x, y, value));
    let at = choose|at: SourcePoint|
        {
            &&& #[trigger] call_ensures(
                locate,
                (model, x, y, img.spec_width(), img.spec_height()),
                at,
            )
            &&& resampled(img, at, blend, value)
        };
    lemma_dark_is_black(img, at, blend, value);
}

/// A pixel of a rectified image is determined wherever the kernels are: if
/// `locate` can name only the point `at` for the pixel, and a sample taken at
/// `at` can only be `value`, then the pixel is `value`.
pub proof fn lemma_rectified_pixel_is_determined<L, B>(
    img: &GrayFloatImage,
    model: Intrisics,
    locate: L,
    blend: B,
    out: &GrayFloatImage,
    x: usize,
    y: usize,
    at: SourcePoint,
    value: Single,
) where
    L: Fn(Intrisics, usize, usize, usize, usize) -> SourcePoint,
    B: Fn(Single, Single, Single, Single, Single) -> Single,

    requires
        rectified(img, model, locate, blend, out),
        x < img.spec_width(),
        y < img.spec_height(),
        forall|p: SourcePoint| #[trigger]
            call_ensures(locate, (model, x, y, img.spec_width(), img.spec_height()), p) ==> p
                == at,
        forall|v: Single| #[trigger] resampled(img, at, blend, v) ==> v == value,
    ensures
        out.pixel(x as int, y as int) == value,
{
    let pixel = out.pixel(x as int, y as int);
    assert(pixel_rectified(img, model, locate, blend, x, y, pixel));
    let p = choose|p: SourcePoint|
        {
            &&& #[trigger] call_ensures(
                locate,
                (model, x, y, img.spec_width(), img.spec_height()),
                p,
            )
            &&& resampled(img, p, blend, pixel)
        };
    assert(resampled(img, at, blend, pixel));
}

/// Whether `data` holds the first pixels of the rectified image, row by row,
/// each sampled at the point of the same place in `points`.
spec fn rectified_so_far<L, B>(
    img: &GrayFloatImage,
    model: Intrisics,
    locate: L,
    blend: B,
    points: Seq<SourcePoint>,
    data: Seq<Single>,
) -> bool where
    L: Fn(Intrisics, usize, usize, usize, usize) -> SourcePoint,
    B: Fn(Single, Single, Single, Single, Single) -> Single,
 {
    &&& points.len() == data.len()
    &&& forall|i: int|
        0 <= i < data.len() ==> {
            &&& call_ensures(
                locate,
                (
                    model,
                    (i % (img.spec_width() as int)) as usize,
                    (i / (img.spec_width() as int)) as usize,
                    img.spec_width(),
                    img.spec_height(),
                ),
                #[trigger] points[i],
            )
            &&& resampled(img, points[i], blend, data[i])
        }
}

impl RectifParams {
    /// Rectifies an image with these parameters.
    ///
    /// The parameters select the camera model once. For every pixel of the
    /// result, `locate` maps the model, the pixel's column and row and the
    /// image's width and height to the pixel's source point, and the pixel
    /// becomes the sample of `img` there, as [`linterp_pixels`] takes it with
    /// `blend`.
    pub fn rectify<L, B>(&self, img: &GrayFloatImage, locate: L, blend: B) -> (out:
        GrayFloatImage) where
        L: Fn(Intrisics, usize, usize, usize, usize) -> SourcePoint,
        B: Fn(Single, Single, Single, Single, Single) -> Single,

        requires
            kernels_accept(img, self.model(), locate, blend),
        ensures
            rectified(img, self.model(), locate, blend, &out),
    {
        let model = self.intrinsics();
        let width = img.width();
        let height = img.height();
        let mut data: Vec<Single> = Vec::new();
        let ghost mut points: Seq<SourcePoint> = Seq::empty();
        let mut y: usize = 0;
        while y < height
            invariant
                width == img.spec_width(),
                height == img.spec_height(),
                img.shaped(),
                y <= height,
                data.len() == y * width,
                kernels_accept(img, model, locate, blend),
                rectified_so_far(img, model, locate, blend, points, data@),
            decreases height - y,
        {
            let mut x: usize = 0;
            while x < width
                invariant
                    width == img.spec_width(),
                    height == img.spec_height(),
                    img.shaped(),
                    y < height,
                    x <= width,
                    data.len() == y * width + x,
                    kernels_accept(img, model, locate, blend),
                    rectified_so_far(img, model, locate, blend, points, data@),
                decreases width - x,
            {
                let at = locate(model, x, y, width, height);
                let value = linterp_pixels(at, img, &blend);
                proof {
                    lemma_pixel_index(width as int, height as int, x as int, y as int);
                    points = points.push(at);
                }
                data.push(value);
                x += 1;
            }
            proof {
                assert((y + 1) * width == y * width + width) by (nonlinear_arith);
            }
            y += 1;
        }
        proof {
            assert(data.len() == width * height) by (nonlinear_arith)
                requires
                    data.len() == y * width,
                    y == height,
            ;
        }
        match GrayFloatImage::from_raw(width, height, data) {
            Some(out) => {
                assert forall|x: usize, y: usize|
                    x < img.spec_width() && y < img.spec_height() implies pixel_rectified(
                    img,
                    model,
                    locate,
                    blend,
                    x,
                    y,
                    #[trigger] out.pixel(x as int, y as int),
                ) by {
                    lemma_pixel_index(width as int, height as int, x as int, y as int);
                    let i = pixel_index(width as int, x as int, y as int);
                    assert(call_ensures(locate, (model, x, y, width, height), points[i]));
                    assert(resampled(img, points[i], blend, out@[i]));
                }
                out
            },
            None => vstd::pervasive::unreached(),
        }
    }
}

} // verus!
