//! Bitmaps and pointer shapes that are sent to a client.

use vstd::prelude::*;

use crate::frame::FrameError;
use crate::platform::{CapturedFrame, DesktopSize};

verus! {

/// A rectangle of RGBA pixels at a place of the client canvas.
#[derive(Debug)]
pub struct BitmapUpdate {
    pub x: u16,
    pub y: u16,
    pub width: u16,
    pub height: u16,
    /// The rows, `stride` bytes each.
    pub data: Vec<u8>,
    pub stride: usize,
}

impl BitmapUpdate {
    /// Whether the bitmap has pixels and holds exactly its rows.
    pub open spec fn complete(self) -> bool {
        &&& self.width > 0
        &&& self.height > 0
        &&& self.stride == self.width * 4
        &&& self.data@.len() == self.stride * self.height
    }

    /// Whether the bitmap holds a whole canvas with the given bytes.
    pub open spec fn covers(self, size: DesktopSize, rgba: Seq<u8>) -> bool {
        &&& self.complete()
        &&& self.x == 0 && self.y == 0
        &&& self.width == size.width && self.height == size.height
        &&& self.data@ == rgba
    }
}

/// A pointer shape: BGRA pixels, the bottom row first.
#[derive(Debug)]
pub struct RgbaPointer {
    pub cache_index: u16,
    pub width: u16,
    pub height: u16,
    pub hot_x: u16,
    pub hot_y: u16,
    pub data: Vec<u8>,
}

/// Turns a frame into a bitmap at the origin of the canvas.
pub fn to_bitmap_update(frame: &CapturedFrame) -> (result: Result<BitmapUpdate, FrameError>)
    ensures
        result == Err::<BitmapUpdate, FrameError>(FrameError::ZeroWidth) <==> frame.width == 0,
        result == Err::<BitmapUpdate, FrameError>(FrameError::ZeroHeight) <==> frame.width > 0
            && frame.height == 0,
        result == Err::<BitmapUpdate, FrameError>(FrameError::WrongLength) <==> frame.width > 0
            && frame.height > 0 && !frame.packed(),
        result is Ok <==> frame.width > 0 && frame.height > 0 && frame.packed(),
        result matches Ok(bitmap) ==> bitmap.covers(frame.declared_size(), frame.rgba@),
{
    if frame.width == 0 {
        return Err(FrameError::ZeroWidth);
    }
    if frame.height == 0 {
        return Err(FrameError::ZeroHeight);
    }
    let stride: usize = frame.width as usize * 4;
    assert(0 <= stride * frame.height <= 0xffff * 4 * 0xffff && stride * frame.height
        == frame.width * frame.height * 4) by (nonlinear_arith)
        requires
            stride == frame.width * 4,
            frame.width <= 0xffff,
            frame.height <= 0xffff,
    ;
    let expected: u64 = stride as u64 * frame.height as u64;
    if frame.rgba.len() as u64 != expected {
        return Err(FrameError::WrongLength);
    }
    let data = frame.rgba.clone();
    assert(data@ =~= frame.rgba@);
    Ok(BitmapUpdate { x: 0, y: 0, width: frame.width, height: frame.height, data, stride })
}

/// The number of rows after which a strip of a bitmap ends: half of the bitmap,
/// one at least and 64 at most.
pub open spec fn strip_rows(height: int) -> int {
    crate::frame::within(height / 2, 64)
}

/// The number of rows of the strip that begins at `row`.
pub open spec fn rows_at(height: int, row: int) -> int {
    crate::layout::least(height - row, strip_rows(height))
}

/// A bitmap that is sent strip by strip, and the row at which the next one begins.
#[derive(Debug)]
pub struct StripSequence {
    bitmap: BitmapUpdate,
    next_row: u16,
}

impl StripSequence {
    /// The bitmap.
    pub closed spec fn whole(self) -> BitmapUpdate {
        self.bitmap
    }

    /// The row at which the next strip begins.
    pub closed spec fn position(self) -> u16 {
        self.next_row
    }

    /// Whether rows are left to be sent.
    pub open spec fn unfinished(self) -> bool {
        &&& self.whole().complete()
        &&& self.whole().y + self.whole().height <= u16::MAX
        &&& self.position() < self.whole().height
    }

    /// Starts to send a bitmap.
    pub fn new(bitmap: BitmapUpdate) -> (strips: Self)
        ensures
            strips.whole() == bitmap,
            strips.position() == 0,
    {
        StripSequence { bitmap, next_row: 0 }
    }

    /// The next strip, and whether it was the last one.
    pub fn next_strip(&mut self) -> (outcome: (BitmapUpdate, bool))
        requires
            old(self).unfinished(),
        ensures
            final(self).whole() == old(self).whole(),
            ({
                let whole = old(self).whole();
                let row = old(self).position() as int;
                let rows = rows_at(whole.height as int, row);
                let strip = outcome.0;
                &&& rows >= 1
                &&& final(self).position() == row + rows
                &&& outcome.1 == (row + rows == whole.height)
                &&& strip.x == whole.x && strip.y == whole.y + row
                &&& strip.width == whole.width && strip.height == rows
                &&& strip.stride == whole.stride
                &&& strip.complete()
                &&& strip.data@ == whole.data@.subrange(
                    row * whole.stride,
                    (row + rows) * whole.stride,
                )
            }),
            !outcome.1 ==> final(self).unfinished(),
    {
        let height: u16 = self.bitmap.height;
        let half: u16 = height / 2;
        let strip_height: u16 = if half < 1 {
            1
        } else if half > 64 {
            64
        } else {
            half
        };
        let remaining: u16 = height - self.next_row;
        let rows: u16 = if remaining <= strip_height {
            remaining
        } else {
            strip_height
        };
        let stride: usize = self.bitmap.stride;
        let ghost row = self.next_row as int;
        assert(0 <= row * stride && (row + rows) * stride <= stride * height && (row + rows)
            * stride == row * stride + rows * stride && 0 <= rows * stride && rows * stride
            == stride * rows) by (nonlinear_arith)
            requires
                0 <= row,
                1 <= rows,
                row + rows <= height,
                0 <= stride,
        ;
        assert(self.bitmap.data.len() <= usize::MAX);
        let start: usize = self.next_row as usize * stride;
        let end: usize = start + rows as usize * stride;
        let data = copy_range(&self.bitmap.data, start, end);
        let strip = BitmapUpdate {
            x: self.bitmap.x,
            y: self.bitmap.y + self.next_row,
            width: self.bitmap.width,
            height: rows,
            data,
            stride,
        };
        self.next_row = self.next_row + rows;
        (strip, self.next_row == height)
    }
}

fn copy_range(data: &Vec<u8>, start: usize, end: usize) -> (part: Vec<u8>)
    requires
        start <= end <= data@.len(),
    ensures
        part@ == data@.subrange(start as int, end as int),
{
    let mut part: Vec<u8> = Vec::new();
    let mut i: usize = start;
    while i < end
        invariant
            start <= i <= end <= data@.len(),
            part@ == data@.subrange(start as int, i as int),
        decreases end - i,
    {
        part.push(data[i]);
        i = i + 1;
        assert(part@ =~= data@.subrange(start as int, i as int));
    }
    part
}

/// The bytes that the strips from `row` on carry, one strip after another.
pub open spec fn strip_bytes(data: Seq<u8>, stride: int, height: int, row: int) -> Seq<u8>
    decreases height - row,
{
    if row < 0 || row >= height {
        Seq::empty()
    } else {
        let rows = rows_at(height, row);
        data.subrange(row * stride, (row + rows) * stride) + strip_bytes(
            data,
            stride,
            height,
            row + rows,
        )
    }
}

/// The strips of a bitmap carry all its rows, each once and in order.
pub proof fn law_strips_carry_the_whole_bitmap(data: Seq<u8>, stride: int, height: int, row: int)
    requires
        stride >= 0,
        0 <= row <= height,
        data.len() == stride * height,
    ensures
        strip_bytes(data, stride, height, row) == data.subrange(
            row * stride,
            data.len() as int,
        ),
    decreases height - row,
{
    if row < height {
        let rows = rows_at(height, row);
        law_strips_carry_the_whole_bitmap(data, stride, height, row + rows);
        assert(0 <= row * stride <= (row + rows) * stride <= stride * height) by (nonlinear_arith)
            requires
                0 <= row,
                0 <= rows,
                row + rows <= height,
                stride >= 0,
        ;
        assert(data.subrange(row * stride, (row + rows) * stride) + data.subrange(
            (row + rows) * stride,
            data.len() as int,
        ) =~= data.subrange(row * stride, data.len() as int));
    } else {
        assert(row * stride == stride * height) by (nonlinear_arith)
            requires
                row == height,
        ;
        assert(data.subrange(row * stride, data.len() as int) =~= Seq::empty());
    }
}

/// No strip of a bitmap of two rows or more is the whole bitmap, and none has more
/// than 64 rows.
pub proof fn law_strips_are_bounded(height: int, row: int)
    requires
        0 <= row < height,
    ensures
        1 <= rows_at(height, row) <= 64,
        height >= 2 ==> rows_at(height, row) < height,
{
}

/// The byte `i` of the picture that stands in until the first frame arrives: a
/// checkerboard of squares of 32 pixels.
pub open spec fn placeholder_byte(size: DesktopSize, i: int) -> u8 {
    let x = (i / 4) % (size.width as int);
    let y = (i / 4) / (size.width as int);
    let light = (x / 32 + y / 32) % 2 == 0;
    let channel = i % 4;
    if channel == 0 {
        if light { 30 } else { 24 }
    } else if channel == 1 {
        if light { 36 } else { 29 }
    } else if channel == 2 {
        if light { 48 } else { 40 }
    } else {
        255
    }
}

/// The picture that stands in until the first frame arrives.
pub fn placeholder_frame(size: DesktopSize) -> (rgba: Vec<u8>)
    ensures
        rgba@ == Seq::new(size.pixels() * 4, |i: int| placeholder_byte(size, i)),
{
    let mut rgba: Vec<u8> = Vec::new();
    let mut y: u16 = 0;
    while y < size.height
        invariant
            y <= size.height,
            rgba@.len() == 4 * (y * size.width),
            forall|i: int|
                0 <= i < rgba@.len() ==> #[trigger] rgba@[i] == placeholder_byte(size, i),
        decreases size.height - y,
    {
        let mut x: u16 = 0;
        while x < size.width
            invariant
                x <= size.width,
                y < size.height,
                rgba@.len() == 4 * (y * size.width + x),
                forall|i: int|
                    0 <= i < rgba@.len() ==> #[trigger] rgba@[i] == placeholder_byte(size, i),
            decreases size.width - x,
        {
            let ghost start = 4 * (y * size.width + x);
            assert(0 <= y * size.width) by (nonlinear_arith);
            proof {
                assert forall|i: int| start <= i < start + 4 implies (i / 4) % (size.width as int)
                    == x && #[trigger] ((i / 4) / (size.width as int)) == y by {
                    vstd::arithmetic::div_mod::lemma_fundamental_div_mod_converse(
                        i / 4,
                        size.width as int,
                        y as int,
                        x as int,
                    );
                }
            }
            let light = (x / 32 + y / 32) % 2 == 0;
            rgba.push(if light { 30 } else { 24 });
            rgba.push(if light { 36 } else { 29 });
            rgba.push(if light { 48 } else { 40 });
            rgba.push(255);
            x = x + 1;
        }
        assert(y * size.width + size.width == (y + 1) * size.width) by (nonlinear_arith);
        y = y + 1;
    }
    assert(size.height * size.width == size.width * size.height) by (nonlinear_arith);
    assert(rgba@ =~= Seq::new(size.pixels() * 4, |i: int| placeholder_byte(size, i)));
    rgba
}

/// The grey value and the opacity of a pixel of the pointer: a white arrow with a
/// black rim, from the top left corner.
pub open spec fn arrow_pixel(x: int, y: int) -> (u8, u8) {
    let edge = 1 + y / 2;
    let white_head = 3 <= y <= 13 && 2 <= x < edge;
    let white_stem = 13 <= y <= 20 && 6 <= x <= 7;
    let head = 1 <= y <= 15 && 1 <= x <= edge;
    let stem = 12 <= y <= 22 && 5 <= x <= 9;
    if white_head || white_stem {
        (255, 255)
    } else if head || stem {
        (0, 255)
    } else {
        (0, 0)
    }
}

/// The byte `i` of the pointer, whose bottom row comes first.
pub open spec fn arrow_byte(i: int) -> u8 {
    let x = (i / 4) % 24;
    let y = 23 - (i / 4) / 24;
    if i % 4 == 3 {
        arrow_pixel(x, y).1
    } else {
        arrow_pixel(x, y).0
    }
}

/// The pointer that a client shows: an arrow of 24 by 24 pixels that points with
/// its second pixel.
pub fn default_arrow_pointer() -> (pointer: RgbaPointer)
    ensures
        pointer.cache_index == 0,
        pointer.width == 24,
        pointer.height == 24,
        pointer.hot_x == 1,
        pointer.hot_y == 1,
        pointer.data@ == Seq::new(2304, |i: int| arrow_byte(i)),
{
    let mut data: Vec<u8> = Vec::new();
    let mut row: u16 = 0;
    while row < 24
        invariant
            row <= 24,
            data@.len() == row * 96,
            forall|i: int| 0 <= i < data@.len() ==> #[trigger] data@[i] == arrow_byte(i),
        decreases 24 - row,
    {
        let y: u16 = 23 - row;
        let mut x: u16 = 0;
        while x < 24
            invariant
                x <= 24,
                row < 24,
                y == 23 - row,
                data@.len() == row * 96 + x * 4,
                forall|i: int| 0 <= i < data@.len() ==> #[trigger] data@[i] == arrow_byte(i),
            decreases 24 - x,
        {
            let edge: u16 = 1 + y / 2;
            let in_head = 1 <= y && y <= 15 && 1 <= x && x <= edge;
            let in_stem = 12 <= y && y <= 22 && 5 <= x && x <= 9;
            let white_head = 3 <= y && y <= 13 && 2 <= x && x < edge;
            let white_stem = 13 <= y && y <= 20 && 6 <= x && x <= 7;
            let grey: u8 = if white_head || white_stem { 255 } else { 0 };
            let opacity: u8 = if white_head || white_stem || in_head || in_stem { 255 } else { 0 };
            data.push(grey);
            data.push(grey);
            data.push(grey);
            data.push(opacity);
            x = x + 1;
        }
        row = row + 1;
    }
    assert(data@ =~= Seq::new(2304, |i: int| arrow_byte(i)));
    RgbaPointer { cache_index: 0, width: 24, height: 24, hot_x: 1, hot_y: 1, data }
}

/// A picture is sent in strips of 64 rows, one of less than 128 rows in halves, and the last
/// strip is what is left.
pub proof fn law_strips_have_their_rows(height: int, row: int)
    requires
        0 <= row < height,
    ensures
        height >= 128 && row + 64 <= height ==> rows_at(height, row) == 64,
        height >= 128 && row + 64 > height ==> rows_at(height, row) == height - row,
        2 <= height < 128 && row + height / 2 <= height ==> rows_at(height, row) == height / 2,
        2 <= height < 128 && row + height / 2 > height ==> rows_at(height, row) == height - row,
        height == 1 ==> rows_at(height, row) == 1,
{
}

/// Until the first frame arrives a chequered picture stands in: squares of 32 pixels, a light
/// one in the corner, and neighbours of different shades.
pub proof fn law_placeholder_is_chequered(size: DesktopSize, x: int, y: int)
    requires
        0 <= x < size.width,
        0 <= y < size.height,
    ensures
        ({
            let at = (y * size.width + x) * 4;
            let light = (x / 32) % 2 == (y / 32) % 2;
            &&& 0 <= at && at + 3 < size.width * size.height * 4
            &&& placeholder_byte(size, at) == if light { 30u8 } else { 24 }
            &&& placeholder_byte(size, at + 1) == if light { 36u8 } else { 29 }
            &&& placeholder_byte(size, at + 2) == if light { 48u8 } else { 40 }
            &&& placeholder_byte(size, at + 3) == 255
        }),
{
    let w = size.width as int;
    let h = size.height as int;
    let at = (y * w + x) * 4;
    assert(0 <= y * w + x < w * h) by (nonlinear_arith)
        requires
            0 <= x < w,
            0 <= y < h,
    ;
    vstd::arithmetic::div_mod::lemma_fundamental_div_mod_converse(y * w + x, w, y, x);
    assert(at / 4 == y * w + x && (at + 1) / 4 == y * w + x && (at + 2) / 4 == y * w + x && (at + 3)
        / 4 == y * w + x);
}

/// The pointer is a white arrow that leaves the rim of its picture free: its pixels are white
/// or black and opaque, or clear, and every white one has opaque ones on all four sides. It
/// begins at its hot spot, and row by row comes from the bottom.
pub proof fn law_arrow_has_a_rim(x: int, y: int)
    requires
        0 <= x < 24,
        0 <= y < 24,
    ensures
        ({
            let at = ((23 - y) * 24 + x) * 4;
            let drawn = (1 <= y <= 15 && 1 <= x <= 1 + y / 2) || (12 <= y <= 22 && 5 <= x <= 9);
            let white = (3 <= y <= 13 && 2 <= x <= y / 2) || (13 <= y <= 20 && 6 <= x <= 7);
            &&& arrow_byte(at + 3) == if drawn { 255u8 } else { 0 }
            &&& arrow_byte(at) == if white { 255u8 } else { 0 }
            &&& arrow_byte(at + 1) == arrow_byte(at) && arrow_byte(at + 2) == arrow_byte(at)
            &&& arrow_byte(at) == 255 ==> arrow_pixel(x - 1, y).1 == 255 && arrow_pixel(x + 1, y).1
                == 255 && arrow_pixel(x, y - 1).1 == 255 && arrow_pixel(x, y + 1).1 == 255
        }),
        arrow_pixel(1, 1) == (0u8, 255u8),
        x == 0 || y == 0 || x >= 10 || y == 23 ==> arrow_pixel(x, y).1 == 0,
{
    let at = ((23 - y) * 24 + x) * 4;
    assert(at / 4 == (23 - y) * 24 + x && (at + 1) / 4 == (23 - y) * 24 + x && (at + 2) / 4 == (23
        - y) * 24 + x && (at + 3) / 4 == (23 - y) * 24 + x);
    assert((at / 4) / 24 == 23 - y && (at / 4) % 24 == x);
}

} // verus!
