//! A decoded image held in memory, and its resampling to new dimensions.

use image::DynamicImage;
use vstd::prelude::*;

verus! {

/// `image::DynamicImage`, a decoded image of any pixel layout. Nothing in
/// here looks inside one.
#[verifier::external_type_specification]
#[verifier::external_body]
pub struct ExDynamicImage(DynamicImage);

/// The number of pixel columns of a decoded image.
pub uninterp spec fn raster_width(pixels: DynamicImage) -> u32;

/// The number of pixel rows of a decoded image.
pub uninterp spec fn raster_height(pixels: DynamicImage) -> u32;

/// `DynamicImage::width` returns the width of the image.
#[verifier::external_body]
fn width_of(pixels: &DynamicImage) -> (width: u32)
    ensures
        width == raster_width(*pixels),
{
    pixels.width()
}

/// `DynamicImage::height` returns the height of the image.
#[verifier::external_body]
fn height_of(pixels: &DynamicImage) -> (height: u32)
    ensures
        height == raster_height(*pixels),
{
    pixels.height()
}

/// Whether the buffers of a resampling fit in memory's address range: the
/// intermediate one of `source_width` by `target_height` pixels and the
/// final one of `target_width` by `target_height`, at up to 16 bytes a
/// pixel.
pub open spec fn resample_fits(source_width: int, target_width: int, target_height: int) -> bool {
    &&& 16 * source_width * target_height <= isize::MAX
    &&& 16 * target_width * target_height <= isize::MAX
}

/// `DynamicImage::resize_exact` with the three-lobe Lanczos filter returns
/// a new image of exactly the dimensions asked for, also where one of them
/// is zero. It allocates its buffers with a checked size, so their sizes
/// have to fit.
#[verifier::external_body]
fn lanczos3(pixels: &DynamicImage, width: u32, height: u32) -> (resized: DynamicImage)
    requires
        resample_fits(raster_width(*pixels) as int, width as int, height as int),
    ensures
        raster_width(resized) == width,
        raster_height(resized) == height,
{
    pixels.resize_exact(width, height, image::imageops::FilterType::Lanczos3)
}

/// A decoded image: its pixels, with their width and height.
pub struct RasterImage {
    pub pixels: DynamicImage,
}

impl RasterImage {
    /// The width of the image in pixels.
    pub open spec fn spec_width(&self) -> u32 {
        raster_width(self.pixels)
    }

    /// The height of the image in pixels.
    pub open spec fn spec_height(&self) -> u32 {
        raster_height(self.pixels)
    }

    /// Takes charge of decoded pixels.
    pub fn new(pixels: DynamicImage) -> (image: RasterImage)
        ensures
            image.pixels == pixels,
    {
        RasterImage { pixels }
    }

    /// The width of the image in pixels.
    #[verifier::when_used_as_spec(spec_width)]
    pub fn width(&self) -> (width: u32)
        ensures
            width == self.spec_width(),
    {
        width_of(&self.pixels)
    }

    /// The height of the image in pixels.
    #[verifier::when_used_as_spec(spec_height)]
    pub fn height(&self) -> (height: u32)
        ensures
            height == self.spec_height(),
    {
        height_of(&self.pixels)
    }

    /// Whether this image can be resampled to the given dimensions without
    /// a buffer size leaving memory's address range.
    pub fn can_resample(&self, target_width: u32, target_height: u32) -> (fits: bool)
        ensures
            fits == resample_fits(self.spec_width() as int, target_width as int, target_height as int),
    {
        let limit: u128 = isize::MAX as u128;
        let rows: u128 = target_height as u128;
        let source: u128 = self.width() as u128;
        let columns: u128 = target_width as u128;
        assert(16 * source * rows <= 16 * 0xffff_ffff * 0xffff_ffff) by (nonlinear_arith)
            requires
                source <= 0xffff_ffff,
                rows <= 0xffff_ffff,
        ;
        assert(16 * columns * rows <= 16 * 0xffff_ffff * 0xffff_ffff) by (nonlinear_arith)
            requires
                columns <= 0xffff_ffff,
                rows <= 0xffff_ffff,
        ;
        16 * source * rows <= limit && 16 * columns * rows <= limit
    }

    /// A new image of `target_width` by `target_height` pixels, resampled
    /// from this one with the three-lobe Lanczos filter. A target without
    /// area gives an image without pixels.
    pub fn resample(&self, target_width: u32, target_height: u32) -> (resized: RasterImage)
        requires
            resample_fits(self.spec_width() as int, target_width as int, target_height as int),
        ensures
            resized.spec_width() == target_width,
            resized.spec_height() == target_height,
    {
        RasterImage { pixels: lanczos3(&self.pixels, target_width, target_height) }
    }
}

} // verus!
