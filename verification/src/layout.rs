//! Where the controls of the access screen stand.
//!
//! Every measure of the screen is a multiple of half a pixel, so rectangles are
//! kept in half pixels and hit tests are exact.

use vstd::prelude::*;

use crate::platform::DesktopSize;

verus! {

/// A rectangle in half pixels.
#[derive(Debug, Clone, Copy, PartialEq, Eq, Structural)]
pub struct Rect {
    pub x: i32,
    pub y: i32,
    pub width: i32,
    pub height: i32,
}

/// The largest magnitude of a rectangle's measures: twice the largest canvas.
pub const RECT_LIMIT: i32 = 262144;

impl Rect {
    /// Whether all measures stay below the limit.
    pub open spec fn bounded(self) -> bool {
        &&& -RECT_LIMIT <= self.x <= RECT_LIMIT
        &&& -RECT_LIMIT <= self.y <= RECT_LIMIT
        &&& -RECT_LIMIT <= self.width <= RECT_LIMIT
        &&& -RECT_LIMIT <= self.height <= RECT_LIMIT
    }

    /// Whether the corner of the pixel in column `x` and row `y` lies in the
    /// rectangle.
    pub open spec fn holds(self, x: u16, y: u16) -> bool {
        &&& self.x <= 2 * x < self.x + self.width
        &&& self.y <= 2 * y < self.y + self.height
    }

    /// Whether the corner of the pixel in column `x` and row `y` lies in the
    /// rectangle.
    pub fn contains(self, x: u16, y: u16) -> (inside: bool)
        ensures
            inside == self.holds(x, y),
    {
        let left: i64 = self.x as i64;
        let top: i64 = self.y as i64;
        let x: i64 = 2 * (x as i64);
        let y: i64 = 2 * (y as i64);
        x >= left && x < left + self.width as i64 && y >= top && y < top + self.height as i64
    }
}

/// The places of the controls of one access screen.
#[derive(Debug, Clone, Copy, PartialEq, Eq, Structural)]
pub struct UiLayout {
    /// The card that holds everything.
    pub card: Rect,
    /// The card without its padding.
    pub content: Rect,
    /// The account field, or the option that scales the desktop.
    pub primary: Rect,
    /// The password field, or the option that changes the display.
    pub secondary: Rect,
    /// The option that disconnects other clients.
    pub takeover: Option<Rect>,
    /// The box that asks to remember the client, or its display fit.
    pub remember: Rect,
    /// The button that connects or continues.
    pub submit: Rect,
    /// Whether the screen is small.
    pub compact: bool,
}

/// The smaller of two numbers.
pub open spec fn least(a: int, b: int) -> int {
    if a <= b {
        a
    } else {
        b
    }
}

/// The larger of two numbers.
pub open spec fn greatest(a: int, b: int) -> int {
    if a >= b {
        a
    } else {
        b
    }
}

/// Whether a screen is small.
pub open spec fn is_compact(size: DesktopSize) -> bool {
    size.height < 620 || size.width < 760
}

/// The card of the access screen, centred on the canvas.
pub open spec fn card_of(size: DesktopSize, resolution: bool, takeover: bool) -> Rect {
    let margin = if is_compact(size) { 16int } else { 28int };
    let wanted_width = if resolution { 720int } else { 610int };
    let wanted_height = if resolution && takeover {
        720int
    } else if resolution {
        610int
    } else {
        620int
    };
    let width = greatest(least(wanted_width, size.width - 2 * margin), 320);
    let height = greatest(least(wanted_height, size.height - 2 * margin), 360);
    Rect {
        x: (size.width - width) as i32,
        y: (size.height - height) as i32,
        width: (2 * width) as i32,
        height: (2 * height) as i32,
    }
}

/// The card without its padding.
pub open spec fn content_of(size: DesktopSize, resolution: bool, takeover: bool) -> Rect {
    let card = card_of(size, resolution, takeover);
    let padding = if is_compact(size) { 28int } else { 46int };
    Rect {
        x: (card.x + 2 * padding) as i32,
        y: (card.y + 2 * padding) as i32,
        width: (card.width - 4 * padding) as i32,
        height: (card.height - 4 * padding) as i32,
    }
}

/// A control of the content's width, `top` pixels below the content's top edge.
pub open spec fn control(content: Rect, top: int, height: int) -> Rect {
    Rect {
        x: content.x,
        y: (content.y + 2 * top) as i32,
        width: content.width,
        height: (2 * height) as i32,
    }
}

/// The layout of the access screen: the sign-in form or, with `resolution`, the
/// choice of the display fit, with `takeover` where another client owns the
/// display.
pub open spec fn layout_of(size: DesktopSize, resolution: bool, takeover: bool) -> UiLayout {
    let compact = is_compact(size);
    let content = content_of(size, resolution, takeover);
    let content_height = content.height as int / 2;
    let field = if compact { 50int } else { 58int };
    let item = if !resolution {
        field
    } else if takeover {
        if compact { 62int } else { 72int }
    } else {
        if compact { 72int } else { 86int }
    };
    let first = if !resolution {
        if compact { 132int } else { 166int }
    } else if takeover {
        if compact { 116int } else { 138int }
    } else {
        if compact { 134int } else { 164int }
    };
    let second = first + item + if resolution { 12int } else { 42int };
    let submit = content_height - field - if resolution { 0int } else { 34int };
    let last = if resolution && takeover { second + item + 10 + item } else { second + item };
    let gap = if resolution && takeover {
        if compact { 1int } else { 8int }
    } else if resolution {
        if compact { 8int } else { 12int }
    } else {
        if compact { 4int } else { 14int }
    };
    let tick = if !compact {
        28int
    } else if resolution && takeover {
        16int
    } else {
        24int
    };
    UiLayout {
        card: card_of(size, resolution, takeover),
        content,
        primary: control(content, first, item),
        secondary: control(content, second, item),
        takeover: if resolution && takeover {
            Some(control(content, second + item + 10, item))
        } else {
            None
        },
        remember: control(content, last + gap, tick),
        submit: control(content, submit, field),
        compact,
    }
}

impl UiLayout {
    /// Lays the access screen out on a canvas of the given size.
    pub fn new(size: DesktopSize, resolution: bool, takeover_required: bool) -> (layout: Self)
        ensures
            layout == layout_of(size, resolution, takeover_required),
            layout.card.bounded(),
            layout.content.bounded(),
            layout.primary.bounded(),
            layout.secondary.bounded(),
            layout.takeover matches Some(takeover) ==> takeover.bounded(),
            layout.remember.bounded(),
            layout.submit.bounded(),
    {
        let compact = size.height < 620 || size.width < 760;
        let card = card_rect(size, resolution, takeover_required);
        let content = content_rect(size, resolution, takeover_required);
        let field_height: i32 = if compact { 50 } else { 58 };
        let item_height: i32 = if !resolution {
            field_height
        } else if takeover_required {
            if compact { 62 } else { 72 }
        } else {
            if compact { 72 } else { 86 }
        };
        let primary_y: i32 = if !resolution {
            if compact { 132 } else { 166 }
        } else if takeover_required {
            if compact { 116 } else { 138 }
        } else {
            if compact { 134 } else { 164 }
        };
        let gap: i32 = if resolution { 12 } else { 42 };
        let secondary_y: i32 = primary_y + item_height + gap;
        let footer: i32 = if resolution { 0 } else { 34 };
        let submit_y: i32 = content.height / 2 - field_height - footer;
        let taking = resolution && takeover_required;
        let last_y: i32 = if taking {
            secondary_y + item_height + 10 + item_height
        } else {
            secondary_y + item_height
        };
        let remember_gap: i32 = if taking {
            if compact { 1 } else { 8 }
        } else if resolution {
            if compact { 8 } else { 12 }
        } else {
            if compact { 4 } else { 14 }
        };
        let remember_height: i32 = if !compact {
            28
        } else if taking {
            16
        } else {
            24
        };
        UiLayout {
            card,
            content,
            primary: row(content, primary_y, item_height),
            secondary: row(content, secondary_y, item_height),
            takeover: if resolution && takeover_required {
                Some(row(content, secondary_y + item_height + 10, item_height))
            } else {
                None
            },
            remember: row(content, last_y + remember_gap, remember_height),
            submit: row(content, submit_y, field_height),
            compact,
        }
    }
}

fn at_most(value: i32, limit: i32) -> (r: i32)
    ensures
        r == least(value as int, limit as int),
{
    if value <= limit {
        value
    } else {
        limit
    }
}

fn at_least(value: i32, limit: i32) -> (r: i32)
    ensures
        r == greatest(value as int, limit as int),
{
    if value >= limit {
        value
    } else {
        limit
    }
}

fn card_rect(size: DesktopSize, resolution: bool, takeover_required: bool) -> (card: Rect)
    ensures
        card == card_of(size, resolution, takeover_required),
        -720 <= card.x <= 65535,
        -720 <= card.y <= 65535,
        640 <= card.width <= 1440,
        720 <= card.height <= 1440,
{
    let width: i32 = size.width as i32;
    let height: i32 = size.height as i32;
    let compact = height < 620 || width < 760;
    let margin: i32 = if compact { 16 } else { 28 };
    let desired_height: i32 = if resolution && takeover_required {
        720
    } else if resolution {
        610
    } else {
        620
    };
    let desired_width: i32 = if resolution { 720 } else { 610 };
    let card_width: i32 = at_least(at_most(desired_width, width - margin * 2), 320);
    let card_height: i32 = at_least(at_most(desired_height, height - margin * 2), 360);
    Rect {
        x: width - card_width,
        y: height - card_height,
        width: card_width * 2,
        height: card_height * 2,
    }
}

fn content_rect(size: DesktopSize, resolution: bool, takeover_required: bool) -> (content: Rect)
    ensures
        content == content_of(size, resolution, takeover_required),
        -720 <= content.x <= 66000,
        -720 <= content.y <= 66000,
        400 <= content.width <= 1440,
        500 <= content.height <= 1440,
{
    let card = card_rect(size, resolution, takeover_required);
    let padding: i32 = if size.height < 620 || size.width < 760 { 28 } else { 46 };
    Rect {
        x: card.x + padding * 2,
        y: card.y + padding * 2,
        width: card.width - padding * 4,
        height: card.height - padding * 4,
    }
}

fn row(content: Rect, top: i32, height: i32) -> (r: Rect)
    requires
        -200000 <= content.y <= 200000,
        -10000 <= top <= 10000,
        0 <= height <= 10000,
    ensures
        r == control(content, top as int, height as int),
{
    Rect { x: content.x, y: content.y + 2 * top, width: content.width, height: 2 * height }
}

/// On a canvas of at least 462 rows no point hits two controls of the access
/// screen; the box that asks to remember stands apart from 480 rows on.
pub proof fn law_controls_do_not_overlap(
    size: DesktopSize,
    resolution: bool,
    takeover: bool,
    x: u16,
    y: u16,
)
    requires
        size.height >= 462,
    ensures
        ({
            let layout = layout_of(size, resolution, takeover);
            let first = layout.primary.holds(x, y);
            let second = layout.secondary.holds(x, y);
            let third = layout.takeover matches Some(rect) && rect.holds(x, y);
            let last = layout.submit.holds(x, y);
            &&& !(first && second) && !(first && third) && !(first && last)
            &&& !(second && third) && !(second && last)
            &&& !(third && last)
            &&& size.height >= 480 && layout.remember.holds(x, y) ==> !first && !second && !third
                && !last
        }),
{
}

/// The card stands in the middle of the canvas, as large as it wants to be where the canvas has
/// room for it and its margins, and at least 320 by 360 pixels.
pub proof fn law_card_is_centred(size: DesktopSize, resolution: bool, takeover: bool)
    ensures
        ({
            let card = layout_of(size, resolution, takeover).card;
            let compact = size.height < 620 || size.width < 760;
            let margin = if compact { 32int } else { 56int };
            let width = if resolution { 1440int } else { 1220int };
            let height = if resolution && takeover {
                1440int
            } else if resolution {
                1220int
            } else {
                1240int
            };
            &&& card.x == 2 * size.width - (card.x + card.width)
            &&& card.y == 2 * size.height - (card.y + card.height)
            &&& 640 <= card.width <= width && 720 <= card.height <= height
            &&& 2 * size.width >= width + 2 * margin ==> card.width == width
            &&& 2 * size.height >= height + 2 * margin ==> card.height == height
            &&& 640 < card.width < width ==> card.x == margin
            &&& 720 < card.height < height ==> card.y == margin
            &&& layout_of(size, resolution, takeover).compact == compact
        }),
{
}

/// What the card holds stands 92 half pixels from each of its sides, 56 on a small canvas, and
/// every control is as wide as that.
pub proof fn law_controls_fill_the_card(size: DesktopSize, resolution: bool, takeover: bool)
    ensures
        ({
            let layout = layout_of(size, resolution, takeover);
            let card = layout.card;
            let content = layout.content;
            let padding = if layout.compact { 56int } else { 92int };
            &&& content.x - card.x == padding && content.y - card.y == padding
            &&& card.x + card.width - (content.x + content.width) == padding
            &&& card.y + card.height - (content.y + content.height) == padding
            &&& layout.primary.x == content.x && layout.primary.width == content.width
            &&& layout.secondary.x == content.x && layout.secondary.width == content.width
            &&& layout.remember.x == content.x && layout.remember.width == content.width
            &&& layout.submit.x == content.x && layout.submit.width == content.width
            &&& layout.takeover is Some <==> resolution && takeover
            &&& layout.takeover matches Some(rect) ==> rect.x == content.x && rect.width
                == content.width
        }),
{
}

/// The sign-in form, from the top: the account, the password, the box that asks to remember,
/// and the button at the bottom.
pub proof fn law_form_has_its_places(size: DesktopSize, takeover: bool)
    ensures
        ({
            let layout = layout_of(size, false, takeover);
            let content = layout.content;
            let field = if layout.compact { 100int } else { 116int };
            let tick = if layout.compact { 48int } else { 56int };
            &&& layout.primary.y - content.y == if layout.compact { 264int } else { 332int }
            &&& layout.primary.height == field && layout.secondary.height == field
                && layout.submit.height == field && layout.remember.height == tick
            &&& layout.secondary.y == layout.primary.y + field + 84
            &&& layout.remember.y == layout.secondary.y + field + if layout.compact {
                8int
            } else {
                28int
            }
            &&& layout.submit.y + field + 68 == content.y + content.height
        }),
{
}

/// The choice of the display fit, from the top: the option that scales, the one that changes
/// the display, the one that disconnects others where that is needed, the box that asks to
/// remember, and the button at the bottom.
pub proof fn law_choice_has_its_places(size: DesktopSize, takeover: bool)
    ensures
        ({
            let layout = layout_of(size, true, takeover);
            let content = layout.content;
            let item = layout.primary.height as int;
            let button = if layout.compact { 100int } else { 116int };
            let last = match layout.takeover {
                Some(rect) => rect,
                None => layout.secondary,
            };
            &&& item == if takeover {
                if layout.compact { 124int } else { 144int }
            } else {
                if layout.compact { 144int } else { 172int }
            }
            &&& layout.primary.y - content.y == if takeover {
                if layout.compact { 232int } else { 276int }
            } else {
                if layout.compact { 268int } else { 328int }
            }
            &&& layout.secondary.height == item
            &&& layout.secondary.y == layout.primary.y + item + 24
            &&& layout.takeover matches Some(rect) ==> rect.height == item && rect.y
                == layout.secondary.y + item + 20
            &&& layout.remember.y == last.y + item + if takeover {
                if layout.compact { 2int } else { 16int }
            } else {
                if layout.compact { 16int } else { 24int }
            }
            &&& layout.remember.height == if !layout.compact {
                56int
            } else if takeover {
                32int
            } else {
                48int
            }
            &&& layout.submit.height == button
            &&& layout.submit.y + button == content.y + content.height
        }),
{
}

/// A rectangle of half pixels holds a pixel exactly if the pixel's corner is in it, the far
/// edges not counted.
pub proof fn law_rectangles_hold_their_pixels(rect: Rect, x: u16, y: u16)
    ensures
        rect.holds(x, y) <==> {
            &&& rect.x <= 2 * x && 2 * x < rect.x + rect.width
            &&& rect.y <= 2 * y && 2 * y < rect.y + rect.height
        },
        rect.width <= 0 || rect.height <= 0 ==> !rect.holds(x, y),
{
}

} // verus!
