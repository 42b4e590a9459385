//! Fitting desktop frames to a client canvas.

use vstd::prelude::*;

use crate::platform::{CapturedFrame, DesktopSize, FrameModel};
use crate::scaling::{resample, ScalingFilter};

verus! {

/// The part of a canvas on which the desktop stands.
#[derive(Clone, Copy, Debug, PartialEq, Eq, Structural)]
pub struct DesktopViewport {
    pub x: u16,
    pub y: u16,
    pub width: u16,
    pub height: u16,
}

/// A side of a size, taken as 1 where it is 0.
pub open spec fn side(length: u16) -> int {
    if length == 0 {
        1
    } else {
        length as int
    }
}

/// The quotient of two numbers, rounded to the nearest one, halves up.
pub open spec fn rounded_quotient(a: int, b: int) -> int {
    (a + b / 2) / b
}

/// A number moved into the range from 1 to a limit.
pub open spec fn within(value: int, limit: int) -> int {
    if value < 1 {
        1
    } else if value > limit {
        limit
    } else {
        value
    }
}

/// The size of the largest picture of the source's proportions on a canvas: as
/// wide as the canvas for a source that is wider in proportion, as high otherwise.
pub open spec fn fitted_size(source: DesktopSize, canvas: DesktopSize) -> (int, int) {
    let sw = side(source.width);
    let sh = side(source.height);
    let cw = side(canvas.width);
    let ch = side(canvas.height);
    if sw * ch > cw * sh {
        (cw, within(rounded_quotient(sh * cw, sw), ch))
    } else {
        (within(rounded_quotient(sw * ch, sh), cw), ch)
    }
}

/// The viewport of a source on a canvas: of the fitted size, in the middle.
pub open spec fn viewport_of(source: DesktopSize, canvas: DesktopSize) -> DesktopViewport {
    let (width, height) = fitted_size(source, canvas);
    DesktopViewport {
        x: ((canvas.width - width) / 2) as u16,
        y: ((canvas.height - height) / 2) as u16,
        width: width as u16,
        height: height as u16,
    }
}

/// Fits a desktop into a canvas in proportion and centres it.
pub fn fitted_desktop_viewport(source: DesktopSize, canvas: DesktopSize) -> (viewport:
    DesktopViewport)
    requires
        canvas.nonempty(),
    ensures
        viewport == viewport_of(source, canvas),
        viewport.width >= 1,
        viewport.height >= 1,
        viewport.x + viewport.width <= canvas.width,
        viewport.y + viewport.height <= canvas.height,
{
    let source_width: u64 = if source.width == 0 { 1 } else { source.width as u64 };
    let source_height: u64 = if source.height == 0 { 1 } else { source.height as u64 };
    let canvas_width: u64 = canvas.width as u64;
    let canvas_height: u64 = canvas.height as u64;
    assert(source_width * canvas_height <= 0xffff * 0xffff && canvas_width * source_height
        <= 0xffff * 0xffff && source_height * canvas_width <= 0xffff * 0xffff) by (nonlinear_arith)
        requires
            1 <= source_width <= 0xffff,
            1 <= source_height <= 0xffff,
            1 <= canvas_width <= 0xffff,
            1 <= canvas_height <= 0xffff,
    ;
    let mut width: u64 = canvas_width;
    let mut height: u64 = canvas_height;
    if source_width * canvas_height > canvas_width * source_height {
        let fitted: u64 = (source_height * canvas_width + source_width / 2) / source_width;
        height = if fitted < 1 {
            1
        } else if fitted > canvas_height {
            canvas_height
        } else {
            fitted
        };
    } else {
        let fitted: u64 = (source_width * canvas_height + source_height / 2) / source_height;
        width = if fitted < 1 {
            1
        } else if fitted > canvas_width {
            canvas_width
        } else {
            fitted
        };
    }
    let width: u16 = width as u16;
    let height: u16 = height as u16;
    DesktopViewport {
        x: (canvas.width - width) / 2,
        y: (canvas.height - height) / 2,
        width,
        height,
    }
}

/// The fitted desktop lies on the canvas and fills it in one direction: across for
/// a desktop that is wider in proportion, from top to bottom otherwise. In the
/// other direction it has the source's proportions to half a pixel, unless a side
/// would vanish, and the bars differ by one pixel at most.
pub proof fn law_viewport_is_fitted_and_centred(source: DesktopSize, canvas: DesktopSize)
    requires
        source.nonempty(),
        canvas.nonempty(),
    ensures
        ({
            let v = viewport_of(source, canvas);
            let wider = source.width * canvas.height > canvas.width * source.height;
            let right = canvas.width - v.x - v.width;
            let below = canvas.height - v.y - v.height;
            let error = v.width * source.height - v.height * source.width;
            &&& 1 <= v.width && 0 <= right - v.x <= 1
            &&& 1 <= v.height && 0 <= below - v.y <= 1
            &&& wider ==> v.width == canvas.width
            &&& wider && v.height > 1 ==> -source.width <= 2 * error <= source.width
            &&& !wider ==> v.height == canvas.height
            &&& !wider && v.width > 1 ==> -source.height <= 2 * error <= source.height
        }),
{
    let sw = source.width as int;
    let sh = source.height as int;
    let cw = canvas.width as int;
    let ch = canvas.height as int;
    if sw * ch > cw * sh {
        lemma_rounding(sh * cw, sw);
        let q = rounded_quotient(sh * cw, sw);
        assert(0 <= q <= ch) by (nonlinear_arith)
            requires
                sw * ch > cw * sh,
                2 * (q * sw) <= 2 * (sh * cw) + sw,
                2 * (sh * cw) - sw <= 2 * (q * sw),
                sw >= 1,
                sh >= 0,
                cw >= 0,
        ;
        assert(cw * sh == sh * cw) by (nonlinear_arith);
    } else {
        lemma_rounding(sw * ch, sh);
        let q = rounded_quotient(sw * ch, sh);
        assert(0 <= q <= cw) by (nonlinear_arith)
            requires
                sw * ch <= cw * sh,
                2 * (q * sh) <= 2 * (sw * ch) + sh,
                2 * (sw * ch) - sh <= 2 * (q * sh),
                sh >= 1,
                sw >= 0,
                ch >= 0,
        ;
        assert(ch * sw == sw * ch) by (nonlinear_arith);
    }
}

proof fn lemma_rounding(a: int, b: int)
    requires
        b >= 1,
    ensures
        2 * (rounded_quotient(a, b) * b) <= 2 * a + b,
        2 * a - b <= 2 * (rounded_quotient(a, b) * b),
{
    let n = a + b / 2;
    vstd::arithmetic::div_mod::lemma_fundamental_div_mod(n, b);
    vstd::arithmetic::div_mod::lemma_mod_bound(n, b);
    let q = n / b;
    assert(q * b == b * q) by (nonlinear_arith);
}

/// The filter for scaling from one size to another: the sharper one as soon as a side
/// grows.
pub open spec fn filter_for(source: DesktopSize, target: DesktopSize) -> ScalingFilter {
    if target.width > source.width || target.height > source.height {
        ScalingFilter::CatmullRom
    } else {
        ScalingFilter::Lanczos3
    }
}

/// Chooses the filter for scaling from one size to another.
///
/// Enlarging keeps edges sharp, which bilinear interpolation would soften;
/// shrinking takes the wider filter, which avoids aliasing in fine details.
pub fn desktop_resize_algorithm(source: DesktopSize, target: DesktopSize) -> (filter:
    ScalingFilter)
    ensures
        filter == filter_for(source, target),
{
    if target.width > source.width || target.height > source.height {
        ScalingFilter::CatmullRom
    } else {
        ScalingFilter::Lanczos3
    }
}

/// A byte of the bars around a desktop that does not fill the canvas.
pub open spec fn bar_byte(channel: int) -> u8 {
    if channel == 0 {
        5
    } else if channel == 1 {
        10
    } else if channel == 2 {
        19
    } else {
        255
    }
}

impl DesktopViewport {
    /// Whether a pixel of the canvas belongs to the viewport.
    pub open spec fn shows(self, x: int, y: int) -> bool {
        self.x <= x < self.x + self.width && self.y <= y < self.y + self.height
    }

    /// The size of the viewport.
    pub open spec fn size(self) -> DesktopSize {
        DesktopSize { width: self.width, height: self.height }
    }
}

/// The byte `i` of a canvas on which a picture stands in a viewport.
pub open spec fn composed_byte(
    scaled: Seq<u8>,
    viewport: DesktopViewport,
    canvas: DesktopSize,
    i: int,
) -> u8 {
    let x = (i / 4) % (canvas.width as int);
    let y = (i / 4) / (canvas.width as int);
    if viewport.shows(x, y) {
        scaled[((y - viewport.y) * viewport.width + (x - viewport.x)) * 4 + i % 4]
    } else {
        bar_byte(i % 4)
    }
}

/// A canvas on which a picture stands in a viewport, with bars around it.
pub open spec fn composed(
    scaled: Seq<u8>,
    viewport: DesktopViewport,
    canvas: DesktopSize,
) -> Seq<u8> {
    Seq::new(canvas.pixels() * 4, |i: int| composed_byte(scaled, viewport, canvas, i))
}

proof fn lemma_viewport_index(viewport: DesktopViewport, x: int, y: int)
    requires
        viewport.shows(x, y),
    ensures
        0 <= (y - viewport.y) * viewport.width + (x - viewport.x),
        ((y - viewport.y) * viewport.width + (x - viewport.x)) * 4 + 4
            <= viewport.size().pixels() * 4,
{
    let w = viewport.width as int;
    let h = viewport.height as int;
    let row = y - viewport.y;
    assert(0 <= row * w && row * w + w <= w * h) by (nonlinear_arith)
        requires
            0 <= row < h,
            0 <= w,
    ;
}

proof fn lemma_row_and_column(w: int, x: int, y: int, i: int)
    requires
        0 <= x < w,
        0 <= y,
        4 * (y * w + x) <= i < 4 * (y * w + x) + 4,
    ensures
        (i / 4) % w == x,
        (i / 4) / w == y,
{
    vstd::arithmetic::div_mod::lemma_fundamental_div_mod_converse(i / 4, w, y, x);
}

/// Puts a scaled desktop into the viewport of a canvas, with bars around it.
pub fn letterbox(scaled: &Vec<u8>, viewport: DesktopViewport, canvas: DesktopSize) -> (rgba: Vec<
    u8,
>)
    requires
        scaled@.len() == viewport.size().pixels() * 4,
        viewport.x + viewport.width <= canvas.width,
        viewport.y + viewport.height <= canvas.height,
    ensures
        rgba@ == composed(scaled@, viewport, canvas),
{
    let mut rgba: Vec<u8> = Vec::new();
    let ghost whole = composed(scaled@, viewport, canvas);
    let length: usize = scaled.len();
    let mut y: u16 = 0;
    while y < canvas.height
        invariant
            y <= canvas.height,
            length == scaled@.len(),
            scaled@.len() == viewport.size().pixels() * 4,
            viewport.x + viewport.width <= canvas.width,
            viewport.y + viewport.height <= canvas.height,
            rgba@.len() == 4 * (y * canvas.width),
            forall|i: int|
                0 <= i < rgba@.len() ==> #[trigger] rgba@[i] == composed_byte(
                    scaled@,
                    viewport,
                    canvas,
                    i,
                ),
        decreases canvas.height - y,
    {
        let mut x: u16 = 0;
        while x < canvas.width
            invariant
                x <= canvas.width,
                y < canvas.height,
                length == scaled@.len(),
                scaled@.len() == viewport.size().pixels() * 4,
                viewport.x + viewport.width <= canvas.width,
                viewport.y + viewport.height <= canvas.height,
                rgba@.len() == 4 * (y * canvas.width + x),
                forall|i: int|
                    0 <= i < rgba@.len() ==> #[trigger] rgba@[i] == composed_byte(
                        scaled@,
                        viewport,
                        canvas,
                        i,
                    ),
            decreases canvas.width - x,
        {
            let ghost start = 4 * (y * canvas.width + x);
            assert(0 <= y * canvas.width) by (nonlinear_arith);
            proof {
                assert forall|i: int| start <= i < start + 4 implies #[trigger] composed_byte(
                    scaled@,
                    viewport,
                    canvas,
                    i,
                ) == (if viewport.shows(x as int, y as int) {
                    scaled@[((y - viewport.y) * viewport.width + (x - viewport.x)) * 4 + i % 4]
                } else {
                    bar_byte(i % 4)
                }) by {
                    lemma_row_and_column(canvas.width as int, x as int, y as int, i);
                }
            }
            let shown = viewport.x <= x && x - viewport.x < viewport.width && viewport.y <= y && y
                - viewport.y < viewport.height;
            if shown {
                proof {
                    lemma_viewport_index(viewport, x as int, y as int);
                    assert(0 <= (y - viewport.y) * viewport.width) by (nonlinear_arith)
                        requires
                            viewport.y <= y,
                    ;
                }
                let row: usize = (y - viewport.y) as usize;
                let column: usize = (x - viewport.x) as usize;
                let offset: usize = (row * viewport.width as usize + column) * 4;
                rgba.push(scaled[offset]);
                rgba.push(scaled[offset + 1]);
                rgba.push(scaled[offset + 2]);
                rgba.push(scaled[offset + 3]);
            } else {
                rgba.push(5);
                rgba.push(10);
                rgba.push(19);
                rgba.push(255);
            }
            x = x + 1;
        }
        assert(y * canvas.width + canvas.width == (y + 1) * canvas.width) by (nonlinear_arith);
        y = y + 1;
    }
    assert(canvas.height * canvas.width == canvas.width * canvas.height) by (nonlinear_arith);
    assert(rgba@ =~= whole);
    rgba
}

/// Why a frame cannot be used.
#[derive(Clone, Copy, Debug, PartialEq, Eq, Structural)]
pub enum FrameError {
    /// The frame holds fewer bytes than its size needs.
    TooShort,
    /// The frame has no columns.
    ZeroWidth,
    /// The frame has no rows.
    ZeroHeight,
    /// The number of bytes does not match the size.
    WrongLength,
}

/// Whether `result` is `frame` scaled to a canvas: its pixels, resampled to the
/// viewport's size with the filter for it and without regard to transparency, stand
/// in the viewport. They are the frame's own where the viewport has its size.
pub open spec fn is_scaled(frame: FrameModel, target: DesktopSize, result: Seq<u8>) -> bool {
    let viewport = viewport_of(frame.size, target);
    exists|scaled: Seq<u8>|
        {
            &&& scaled.len() == viewport.size().pixels() * 4
            &&& crate::scaling::may_resample_to(
                frame.rgba,
                frame.size,
                viewport.size(),
                filter_for(frame.size, viewport.size()),
                false,
                scaled,
            )
            &&& viewport.size() == frame.size ==> scaled == frame.rgba.subrange(
                0,
                (frame.size.pixels() * 4) as int,
            )
            &&& result == #[trigger] composed(scaled, viewport, target)
        }
}

/// Scales a frame to a canvas in proportion, with bars where it does not fill the
/// canvas. A frame of the canvas's size is copied as it is.
pub fn scale_frame(frame: &CapturedFrame, target: DesktopSize) -> (result: Result<
    CapturedFrame,
    FrameError,
>)
    requires
        frame.declared_size() != target ==> target.nonempty(),
        target.addressable(),
        frame.declared_size().addressable(),
    ensures
        frame.declared_size() == target ==> result is Ok && result->Ok_0.rgba@ == frame.rgba@,
        result is Err <==> frame.declared_size() != target && frame.rgba@.len()
            < frame.declared_size().pixels() * 4,
        result matches Err(error) ==> error == FrameError::TooShort,
        result matches Ok(scaled) ==> scaled.declared_size() == target,
        result matches Ok(scaled) ==> (frame.declared_size() != target ==> is_scaled(
            frame.model(),
            target,
            scaled.rgba@,
        )),
{
    let source = frame.size();
    if source == target {
        return Ok(frame.clone());
    }
    let viewport = fitted_desktop_viewport(source, target);
    let fitted = DesktopSize { width: viewport.width, height: viewport.height };
    let filter = desktop_resize_algorithm(source, fitted);
    assert(fitted.pixels() <= target.pixels()) by (nonlinear_arith)
        requires
            fitted.width <= target.width,
            fitted.height <= target.height,
    ;
    match resample(&frame.rgba, source, fitted, filter, false) {
        Some(scaled) => {
            let rgba = letterbox(&scaled, viewport, target);
            assert(is_scaled(frame.model(), target, rgba@)) by {
                assert(frame.model().size == source);
                assert(viewport == viewport_of(source, target));
                assert(viewport.size() == fitted);
                assert(frame.model().rgba == frame.rgba@);
                assert(rgba@ == composed(scaled@, viewport, target));
            }
            Ok(CapturedFrame { width: target.width, height: target.height, rgba })
        },
        None => Err(FrameError::TooShort),
    }
}

/// A picture in a viewport stands there as it is: the pixel in column `x` and row `y` of
/// the picture is the pixel that many columns and rows behind the viewport's corner. Every
/// pixel around the viewport has the dark blue of the bars.
pub proof fn law_letterboxed_picture_stands_in_its_viewport(
    scaled: Seq<u8>,
    viewport: DesktopViewport,
    canvas: DesktopSize,
    x: int,
    y: int,
    c: int,
)
    requires
        viewport.x + viewport.width <= canvas.width,
        viewport.y + viewport.height <= canvas.height,
        0 <= c < 4,
    ensures
        composed(scaled, viewport, canvas).len() == canvas.width * canvas.height * 4,
        0 <= x < viewport.width && 0 <= y < viewport.height ==> composed(scaled, viewport, canvas)[(
        (viewport.y + y) * canvas.width + viewport.x + x) * 4 + c] == scaled[(y * viewport.width
            + x) * 4 + c],
        0 <= x < canvas.width && 0 <= y < canvas.height && (x < viewport.x || x >= viewport.x
            + viewport.width || y < viewport.y || y >= viewport.y + viewport.height)
            ==> composed(scaled, viewport, canvas)[(y * canvas.width + x) * 4 + c] == seq![
            5u8,
            10u8,
            19u8,
            255u8,
        ][c],
{
    let w = canvas.width as int;
    let h = canvas.height as int;
    if 0 <= x < viewport.width && 0 <= y < viewport.height {
        let i = ((viewport.y + y) * w + viewport.x + x) * 4 + c;
        lemma_row_and_column(w, viewport.x + x, viewport.y + y, i);
        lemma_pixel_on_canvas(w, h, viewport.x + x, viewport.y + y);
        assert(i % 4 == c);
    }
    if 0 <= x < w && 0 <= y < h {
        let i = (y * w + x) * 4 + c;
        lemma_row_and_column(w, x, y, i);
        lemma_pixel_on_canvas(w, h, x, y);
        assert(i % 4 == c);
    }
}

proof fn lemma_pixel_on_canvas(w: int, h: int, x: int, y: int)
    requires
        0 <= x < w,
        0 <= y < h,
    ensures
        0 <= y * w + x < w * h,
{
    assert(0 <= y * w + x < w * h) by (nonlinear_arith)
        requires
            0 <= x < w,
            0 <= y < h,
    ;
}

/// A desktop that needs no scaling is shown pixel by pixel: every byte of the frame is
/// found on the canvas behind the corner of the viewport, in the same column and row.
pub proof fn law_unscaled_desktop_is_shown_as_it_is(
    frame: FrameModel,
    target: DesktopSize,
    result: Seq<u8>,
    x: int,
    y: int,
    c: int,
)
    requires
        target.nonempty(),
        frame.size.nonempty(),
        is_scaled(frame, target, result),
        frame.rgba.len() >= frame.size.width * frame.size.height * 4,
        viewport_of(frame.size, target).width == frame.size.width,
        viewport_of(frame.size, target).height == frame.size.height,
        0 <= x < frame.size.width,
        0 <= y < frame.size.height,
        0 <= c < 4,
    ensures
        ({
            let viewport = viewport_of(frame.size, target);
            &&& result.len() == target.width * target.height * 4
            &&& result[((viewport.y + y) * target.width + viewport.x + x) * 4 + c] == frame.rgba[(y
                * frame.size.width + x) * 4 + c]
        }),
{
    let viewport = viewport_of(frame.size, target);
    law_viewport_is_fitted_and_centred(frame.size, target);
    let scaled = choose|scaled: Seq<u8>|
        {
            &&& scaled.len() == viewport.size().pixels() * 4
            &&& crate::scaling::may_resample_to(
                frame.rgba,
                frame.size,
                viewport.size(),
                filter_for(frame.size, viewport.size()),
                false,
                scaled,
            )
            &&& viewport.size() == frame.size ==> scaled == frame.rgba.subrange(
                0,
                (frame.size.pixels() * 4) as int,
            )
            &&& result == #[trigger] composed(scaled, viewport, target)
        };
    law_letterboxed_picture_stands_in_its_viewport(scaled, viewport, target, x, y, c);
    lemma_pixel_on_canvas(frame.size.width as int, frame.size.height as int, x, y);
}

/// A scaled desktop is the letterboxed picture that one resampling of the frame gave: of
/// the viewport's size, with the sharp filter for edges exactly where a side grows, and
/// with all four channels taken alike.
pub proof fn law_scaled_desktop_is_one_resampling(
    frame: FrameModel,
    target: DesktopSize,
    result: Seq<u8>,
) -> (scaled: Seq<u8>)
    requires
        target.nonempty(),
        frame.size.nonempty(),
        is_scaled(frame, target, result),
    ensures
        ({
            let viewport = viewport_of(frame.size, target);
            let grows = viewport.width > frame.size.width || viewport.height > frame.size.height;
            &&& scaled.len() == viewport.width * viewport.height * 4
            &&& crate::scaling::may_resample_to(
                frame.rgba,
                frame.size,
                DesktopSize { width: viewport.width, height: viewport.height },
                if grows { ScalingFilter::CatmullRom } else { ScalingFilter::Lanczos3 },
                false,
                scaled,
            )
            &&& forall|x: int, y: int, c: int|
                0 <= x < viewport.width && 0 <= y < viewport.height && 0 <= c < 4
                    ==> #[trigger] result[((viewport.y + y) * target.width + viewport.x + x) * 4
                    + c] == scaled[(y * viewport.width + x) * 4 + c]
        }),
{
    let viewport = viewport_of(frame.size, target);
    law_viewport_is_fitted_and_centred(frame.size, target);
    let scaled = choose|scaled: Seq<u8>|
        {
            &&& scaled.len() == viewport.size().pixels() * 4
            &&& crate::scaling::may_resample_to(
                frame.rgba,
                frame.size,
                viewport.size(),
                filter_for(frame.size, viewport.size()),
                false,
                scaled,
            )
            &&& viewport.size() == frame.size ==> scaled == frame.rgba.subrange(
                0,
                (frame.size.pixels() * 4) as int,
            )
            &&& result == #[trigger] composed(scaled, viewport, target)
        };
    assert forall|x: int, y: int, c: int|
        0 <= x < viewport.width && 0 <= y < viewport.height && 0 <= c
            < 4 implies #[trigger] result[((viewport.y + y) * target.width + viewport.x + x) * 4
        + c] == scaled[(y * viewport.width + x) * 4 + c] by {
        law_letterboxed_picture_stands_in_its_viewport(scaled, viewport, target, x, y, c);
    }
    scaled
}

/// A picture of the source's own proportions that fits is as large as the canvas allows,
/// and a source of the canvas's proportions fills it.
pub proof fn law_like_proportions_fill_the_canvas(source: DesktopSize, canvas: DesktopSize)
    requires
        source.nonempty(),
        canvas.nonempty(),
        source.width * canvas.height == canvas.width * source.height,
    ensures
        viewport_of(source, canvas) == (DesktopViewport {
            x: 0,
            y: 0,
            width: canvas.width,
            height: canvas.height,
        }),
{
    let sw = source.width as int;
    let sh = source.height as int;
    let cw = canvas.width as int;
    let ch = canvas.height as int;
    lemma_rounding(sw * ch, sh);
    let q = rounded_quotient(sw * ch, sh);
    assert(q == cw) by (nonlinear_arith)
        requires
            sw * ch == cw * sh,
            q == (sw * ch + sh / 2) / sh,
            sh >= 1,
    ;
}

/// A side without pixels counts as one of a single pixel, and every other as itself.
pub proof fn law_missing_sides_count_as_one(length: u16)
    ensures
        side(0) == 1,
        length > 0 ==> side(length) == length,
{
}

} // verus!
