//! Single-channel images.

use vstd::prelude::*;
use crate::numeric::{Single, BLACK};

verus! {

/// A rectangle of samples, stored row by row.
///
/// An image is never empty, neither of its dimensions exceeds what a `u32` can
/// count, and its buffer always holds `width * height` samples.
#[derive(Debug, PartialEq, Eq)]
pub struct Image<T> {
    width: usize,
    height: usize,
    data: Vec<T>,
}

/// A grey image of floating-point samples, each an intensity between black,
/// `0.0`, and white, `1.0`.
pub type GrayFloatImage = Image<Single>;

/// A grey image of 8-bit samples.
pub type GrayImage = Image<u8>;

/// Whether an image of these dimensions can exist: neither is zero, each fits
/// the `u32` that image files count in, and the samples can be addressed.
pub open spec fn valid_size(width: nat, height: nat) -> bool {
    &&& 0 < width <= u32::MAX
    &&& 0 < height <= u32::MAX
    &&& width * height <= usize::MAX
}

/// Where the sample of column `x` and row `y` lies in a row-major buffer of
/// the given width.
pub open spec fn pixel_index(width: int, x: int, y: int) -> int {
    y * width + x
}

/// A position inside an image has its place inside the buffer, and no two
/// positions share one.
pub proof fn lemma_pixel_index(width: int, height: int, x: int, y: int)
    requires
        0 <= x < width,
        0 <= y < height,
    ensures
        0 <= pixel_index(width, x, y) < width * height,
        y * width <= pixel_index(width, x, y) < (y + 1) * width,
        pixel_index(width, x, y) / width == y,
        pixel_index(width, x, y) % width == x,
{
    assert(y * width >= 0) by (nonlinear_arith)
        requires
            y >= 0,
            width > 0,
    ;
    assert((y + 1) * width == y * width + width) by (nonlinear_arith);
    assert((y + 1) * width <= height * width) by (nonlinear_arith)
        requires
            y + 1 <= height,
            width > 0,
    ;
    assert(height * width == width * height) by (nonlinear_arith);
    vstd::arithmetic::div_mod::lemma_fundamental_div_mod_converse(
        pixel_index(width, x, y),
        width,
        y,
        x,
    );
}

/// Whether `out` is `img` with every sample taken through `convert`.
pub open spec fn converted<T, U, F: Fn(T) -> U>(
    img: &Image<T>,
    convert: F,
    out: &Image<U>,
) -> bool {
    &&& out.spec_width() == img.spec_width()
    &&& out.spec_height() == img.spec_height()
    &&& out.shaped()
    &&& forall|i: int|
        0 <= i < img@.len() ==> call_ensures(convert, (img@[i],), #[trigger] out@[i])
}

impl<T> Image<T> {
    #[verifier::type_invariant]
    spec fn well_formed(self) -> bool {
        &&& 0 < self.width <= u32::MAX
        &&& 0 < self.height <= u32::MAX
        &&& self.data.len() == self.width * self.height
    }

    /// The samples, row by row.
    pub closed spec fn view(&self) -> Seq<T> {
        self.data@
    }

    /// The number of columns.
    pub closed spec fn spec_width(&self) -> usize {
        self.width
    }

    /// The number of rows.
    pub closed spec fn spec_height(&self) -> usize {
        self.height
    }

    /// The sample of column `x` and row `y`.
    pub open spec fn pixel(&self, x: int, y: int) -> T {
        self@[pixel_index(self.spec_width() as int, x, y)]
    }

    /// Whether the buffer fits the dimensions. It does in every image that
    /// exists at run time; the functions that read one say so of it.
    pub open spec fn shaped(&self) -> bool {
        &&& valid_size(self.spec_width() as nat, self.spec_height() as nat)
        &&& self@.len() == self.spec_width() * self.spec_height()
    }

    /// An image over the given samples, if there are as many of them as the
    /// dimensions ask for and the dimensions are those of an image.
    pub fn from_raw(width: usize, height: usize, data: Vec<T>) -> (made: Option<Self>)
        ensures
            made is Some <==> valid_size(width as nat, height as nat) && data.len() == width
                * height,
            made matches Some(img) ==> {
                &&& img.spec_width() == width
                &&& img.spec_height() == height
                &&& img@ == data@
                &&& img.shaped()
            },
    {
        if width == 0 || height == 0 || width > u32::MAX as usize || height > u32::MAX as usize {
            return None;
        }
        match width.checked_mul(height) {
            Some(len) => {
                if data.len() == len {
                    Some(Image { width, height, data })
                } else {
                    None
                }
            },
            None => None,
        }
    }

    /// The number of columns.
    pub fn width(&self) -> (w: usize)
        ensures
            w == self.spec_width(),
            self.shaped(),
    {
        proof {
            use_type_invariant(self);
        }
        self.width
    }

    /// The number of rows.
    pub fn height(&self) -> (h: usize)
        ensures
            h == self.spec_height(),
            self.shaped(),
    {
        proof {
            use_type_invariant(self);
        }
        self.height
    }

    /// The samples, row by row.
    pub fn into_raw(self) -> (data: Vec<T>)
        ensures
            data@ == self@,
    {
        self.data
    }
}

impl<T: Copy> Image<T> {
    /// The sample of column `x` and row `y`.
    pub fn get(&self, x: usize, y: usize) -> (sample: T)
        requires
            x < self.spec_width(),
            y < self.spec_height(),
        ensures
            sample == self.pixel(x as int, y as int),
    {
        proof {
            use_type_invariant(self);
            lemma_pixel_index(self.width as int, self.height as int, x as int, y as int);
        }
        self.data[y * self.width + x]
    }

    /// An image of the same size, each sample made by `convert` from the
    /// sample in its place.
    pub fn convert<U, F: Fn(T) -> U>(&self, convert: &F) -> (out: Image<U>)
        requires
            forall|sample: T| call_requires(*convert, (sample,)),
        ensures
            converted(self, *convert, &out),
    {
        proof {
            use_type_invariant(self);
        }
        let mut data: Vec<U> = Vec::new();
        let mut i: usize = 0;
        while i < self.data.len()
            invariant
                i <= self.data.len(),
                data.len() == i,
                forall|sample: T| call_requires(*convert, (sample,)),
                forall|j: int|
                    0 <= j < i ==> call_ensures(*convert, (self.data@[j],), #[trigger] data@[j]),
            decreases self.data.len() - i,
        {
            data.push(convert(self.data[i]));
            i += 1;
        }
        match Image::from_raw(self.width, self.height, data) {
            Some(out) => out,
            None => vstd::pervasive::unreached(),
        }
    }
}

impl<T: Copy> Clone for Image<T> {
    /// An image of the same size with the same samples.
    fn clone(&self) -> (copy: Self)
        ensures
            copy.spec_width() == self.spec_width(),
            copy.spec_height() == self.spec_height(),
            copy@ == self@,
    {
        proof {
            use_type_invariant(self);
        }
        let mut data: Vec<T> = Vec::new();
        let mut i: usize = 0;
        while i < self.data.len()
            invariant
                i <= self.data.len(),
                data@ == self.data@.subrange(0, i as int),
            decreases self.data.len() - i,
        {
            data.push(self.data[i]);
            i += 1;
        }
        assert(data@ =~= self.data@);
        Image { width: self.width, height: self.height, data }
    }
}

impl Image<Single> {
    /// A black image.
    pub fn new(width: usize, height: usize) -> (img: Self)
        requires
            valid_size(width as nat, height as nat),
        ensures
            img.spec_width() == width,
            img.spec_height() == height,
            img@ == Seq::new((width * height) as nat, |i: int| BLACK),
            img.shaped(),
    {
        let len: usize = width * height;
        let data: Vec<Single> = vec![BLACK; len];
        assert(data@ =~= Seq::new((width * height) as nat, |i: int| BLACK));
        Image { width, height, data }
    }

    /// The image in 8-bit samples, each made by `quantise` from the sample in
    /// its place.
    pub fn to_luma8<Q: Fn(Single) -> u8>(&self, quantise: &Q) -> (out: GrayImage)
        requires
            forall|sample: Single| call_requires(*quantise, (sample,)),
        ensures
            converted(self, *quantise, &out),
    {
        self.convert(quantise)
    }
}

impl Image<u8> {
    /// The image in floating-point samples, each made by `scale` from the
    /// sample in its place.
    pub fn to_float<U: Fn(u8) -> Single>(&self, scale: &U) -> (out: GrayFloatImage)
        requires
            forall|sample: u8| call_requires(*scale, (sample,)),
        ensures
            converted(self, *scale, &out),
    {
        self.convert(scale)
    }
}

} // verus!
