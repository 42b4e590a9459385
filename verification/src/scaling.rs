//! Resampling pixels.

use fast_image_resize::images::Image;
use fast_image_resize::{FilterType, PixelType, ResizeAlg, ResizeOptions, Resizer};
use vstd::prelude::*;

use crate::platform::DesktopSize;

verus! {

/// How pixels are interpolated when a desktop is scaled.
#[derive(Clone, Copy, Debug, PartialEq, Eq, Structural)]
pub enum ScalingFilter {
    /// Keeps the contrast of edges.
    CatmullRom,
    /// A wide low-pass filter.
    Lanczos3,
}

/// Whether resampling pixels from one size to another may come to given bytes: a
/// relation and no function, since two machines may compute different bytes.
pub uninterp spec fn may_resample_to(
    pixels: Seq<u8>,
    source: DesktopSize,
    target: DesktopSize,
    filter: ScalingFilter,
    use_alpha: bool,
    scaled: Seq<u8>,
) -> bool;

/// Resamples RGBA pixels with `Resizer::resize` of the crate `fast_image_resize`,
/// from an `Image` made with `Image::from_vec_u8` into one made with `Image::new`.
///
/// It fails exactly if there are fewer bytes than the source size needs, it
/// delivers four bytes for each pixel of the target, and it copies the pixels where
/// both sizes agree. Otherwise the bytes are some that resampling may come to with
/// these arguments; which ones is left unsaid: the weights come from floating-point
/// functions of the machine and the sums from its vector unit.
#[verifier::external_body]
pub(crate) fn resample(
    pixels: &Vec<u8>,
    source: DesktopSize,
    target: DesktopSize,
    filter: ScalingFilter,
    use_alpha: bool,
) -> (scaled: Option<Vec<u8>>)
    requires
        source.pixels() * 4 <= usize::MAX,
        target.pixels() * 4 <= usize::MAX,
    ensures
        scaled is Some <==> pixels@.len() >= source.pixels() * 4,
        scaled matches Some(bytes) ==> bytes@.len() == target.pixels() * 4,
        scaled matches Some(bytes) ==> may_resample_to(
            pixels@,
            source,
            target,
            filter,
            use_alpha,
            bytes@,
        ),
        scaled matches Some(bytes) ==> (source == target ==> bytes@ == pixels@.subrange(
            0,
            (source.pixels() * 4) as int,
        )),
{
    let (width, height) = (source.width.into(), source.height.into());
    let image = Image::from_vec_u8(width, height, pixels.to_vec(), PixelType::U8x4).ok()?;
    let (width, height) = (target.width.into(), target.height.into());
    let mut scaled = Image::new(width, height, PixelType::U8x4);
    let filter = match filter {
        ScalingFilter::CatmullRom => FilterType::CatmullRom,
        ScalingFilter::Lanczos3 => FilterType::Lanczos3,
    };
    let algorithm = ResizeAlg::Convolution(filter);
    let options = ResizeOptions::new().resize_alg(algorithm).use_alpha(use_alpha);
    Resizer::new().resize(&image, &mut scaled, &options).ok()?;
    Some(scaled.into_vec())
}

} // verus!
