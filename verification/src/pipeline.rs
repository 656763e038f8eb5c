//! The three image operations, from a decoded image to what is reported
//! and what is left to encode.
//!
//! Reading and writing files is the caller's part: it decodes before it
//! calls in here, and encodes what comes back.

use crate::dimensions::{plan_checked, plan_defined, planned, ResizeOptions};
use crate::error::{Error, ErrorView, OptionsFault, OptionsFaultView};
use crate::format::{
    display_label, extension_label, get_image_format_from_path, is_plain_path, plain_display_label, resolved,
    resolved_plainly, ContainerFormat,
};
use crate::pathname::path_extension;
use crate::raster::{resample_fits, RasterImage};
use vstd::prelude::*;

verus! {

/// What an operation reports of an image: its dimensions and the label of
/// its format.
#[derive(Clone, Debug, PartialEq, Eq)]
pub struct ImageInfo {
    pub width: u32,
    pub height: u32,
    pub format: String,
}

/// Reports the dimensions of a decoded image and the upper-case extension
/// of the path that it was read from. The extension is not held against the
/// formats that can be written.
pub fn get_image_info(image: &RasterImage, file_path: &str) -> (info: ImageInfo)
    ensures
        info.width == image.spec_width(),
        info.height == image.spec_height(),
        info.format@ == display_label(path_extension(file_path@)),
        is_plain_path(file_path@) ==> info.format@ == plain_display_label(file_path@),
{
    ImageInfo { width: image.width(), height: image.height(), format: extension_label(file_path) }
}

/// Dimensions and format, as an operation states them on success.
pub type Statement = (int, int, ContainerFormat);

/// What a resize states for an image of the given dimensions, where
/// resolving the output format has the outcome `format`: the failure of
/// planning, else that of a target too large, else that of the format, else
/// the planned dimensions with the format.
pub open spec fn resize_statement(
    original_width: u32,
    original_height: u32,
    options: ResizeOptions,
    format: Result<ContainerFormat, ErrorView>,
) -> Result<Statement, ErrorView> {
    let target = planned(original_width, original_height, options);
    if !plan_defined(original_width, original_height, options) {
        Err(ErrorView::InvalidOptions(OptionsFaultView::EmptySource))
    } else if !resample_fits(original_width as int, target.0, target.1) {
        Err(ErrorView::InvalidOptions(OptionsFaultView::TargetTooLarge))
    } else {
        match format {
            Ok(f) => Ok((target.0, target.1, f)),
            Err(error) => Err(error),
        }
    }
}

/// What a conversion states for an image of the given dimensions, where
/// resolving the output format has the outcome `format`: the failure of
/// the format, else the image's own dimensions with the format.
pub open spec fn convert_statement(
    original_width: u32,
    original_height: u32,
    format: Result<ContainerFormat, ErrorView>,
) -> Result<Statement, ErrorView> {
    match format {
        Ok(f) => Ok((original_width as int, original_height as int, f)),
        Err(error) => Err(error),
    }
}

/// What the outcome of a resize states.
pub open spec fn resize_view(outcome: Result<(RasterImage, ContainerFormat, ImageInfo), Error>) -> Result<
    Statement,
    ErrorView,
> {
    match outcome {
        Ok((_, format, info)) => Ok((info.width as int, info.height as int, format)),
        Err(error) => Err(error@),
    }
}

/// What the outcome of a conversion states.
pub open spec fn convert_view(outcome: Result<(ContainerFormat, ImageInfo), Error>) -> Result<Statement, ErrorView> {
    match outcome {
        Ok((format, info)) => Ok((info.width as int, info.height as int, format)),
        Err(error) => Err(error@),
    }
}

/// Resamples a decoded image to the dimensions planned under `options`, and
/// resolves the format to write it in from the extension of `output_path`.
///
/// On success the image returned has the planned dimensions, and the
/// report holds them with the label of the resolved format. It fails where
/// the plan would scale by a ratio to an original dimension of zero, else
/// where the target is too large for memory, else where the output path
/// names no format.
pub fn resize_image(image: &RasterImage, output_path: &str, options: &ResizeOptions) -> (outcome: Result<
    (RasterImage, ContainerFormat, ImageInfo),
    Error,
>)
    ensures
        resize_view(outcome) == resize_statement(
            image.spec_width(),
            image.spec_height(),
            *options,
            resolved(output_path@),
        ),
        is_plain_path(output_path@) ==> resize_view(outcome) == resize_statement(
            image.spec_width(),
            image.spec_height(),
            *options,
            resolved_plainly(output_path@),
        ),
        outcome matches Ok((resized, format, info)) ==> {
            &&& info.format@ == format.label_text()
            &&& resized.spec_width() == info.width
            &&& resized.spec_height() == info.height
        },
{
    let (width, height) = plan_checked(image.width(), image.height(), options)?;
    if !image.can_resample(width, height) {
        return Err(Error::InvalidOptions(OptionsFault::TargetTooLarge));
    }
    let resized = image.resample(width, height);
    let format = get_image_format_from_path(output_path)?;
    let info = ImageInfo { width, height, format: format.label() };
    Ok((resized, format, info))
}

/// Resolves the format to write a decoded image in from the extension of
/// `output_path`. The pixels are not touched: the report holds the image's
/// own dimensions with the label of the resolved format.
pub fn convert_image_format(image: &RasterImage, output_path: &str) -> (outcome: Result<
    (ContainerFormat, ImageInfo),
    Error,
>)
    ensures
        convert_view(outcome) == convert_statement(image.spec_width(), image.spec_height(), resolved(output_path@)),
        is_plain_path(output_path@) ==> convert_view(outcome) == convert_statement(
            image.spec_width(),
            image.spec_height(),
            resolved_plainly(output_path@),
        ),
        outcome matches Ok((format, info)) ==> info.format@ == format.label_text(),
{
    let format = get_image_format_from_path(output_path)?;
    let info = ImageInfo { width: image.width(), height: image.height(), format: format.label() };
    Ok((format, info))
}

/// A resize states the planned dimensions, and a conversion the image's
/// own: whatever the output path, a statement that is made holds them.
pub proof fn lemma_stated_dimensions(
    original_width: u32,
    original_height: u32,
    options: ResizeOptions,
    format: Result<ContainerFormat, ErrorView>,
)
    ensures
        resize_statement(original_width, original_height, options, format) matches Ok(s) ==> (s.0, s.1) == planned(
            original_width,
            original_height,
            options,
        ),
        convert_statement(original_width, original_height, format) matches Ok(s) ==> s.0 == original_width && s.1
            == original_height,
{
}

} // verus!
