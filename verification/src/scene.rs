//! What stands on the access screen, as a list of shapes in painting order.
//!
//! All measures are in half pixels, as in the layout; text sizes too.

use vstd::prelude::*;

use crate::access::{
    AccessField, AccessSnapshot, AccessStatus, ResolutionSelection, SnapshotModel,
};
use crate::layout::{Rect, UiLayout};
use crate::platform::DesktopSize;
use crate::text::push_decimal;

verus! {

/// A colour with its opacity.
#[derive(Debug, Clone, Copy, PartialEq, Eq, Structural)]
pub struct Color {
    pub red: u8,
    pub green: u8,
    pub blue: u8,
    pub alpha: u8,
}

/// The colour of four components.
#[verifier::allow_in_spec]
pub fn rgba(red: u8, green: u8, blue: u8, alpha: u8) -> (color: Color)
    returns
        (Color { red, green, blue, alpha }),
{
    Color { red, green, blue, alpha }
}

/// One shape of the access screen.
#[allow(inconsistent_fields)]
#[derive(Debug)]
pub enum Shape {
    /// The vertical gradient behind everything.
    Gradient,
    /// A faint disc in the background: its centre in hundredths of the canvas, its
    /// radius in hundredths of the base radius.
    Glow { x_percent: u8, y_percent: u8, radius_percent: u8, color: Color },
    /// The round mark beside the name of the program, `size` half pixels high.
    Mark { x: i32, y: i32, size: i32, rim: Color, core: Color },
    /// A filled rectangle with round corners.
    Fill { rect: Rect, radius: i32, color: Color },
    /// The outline of a rectangle with round corners.
    Outline { rect: Rect, radius: i32, thickness: i32, color: Color },
    /// A filled disc.
    Disc { x: i32, y: i32, radius: i32, color: Color },
    /// A line of text from its top left corner, cut off at a width.
    Text { x: i32, y: i32, text: String, size: i32, color: Color, max_width: i32 },
    /// A line of text in the middle of a rectangle.
    CenteredText { rect: Rect, text: String, size: i32, color: Color },
}

/// One shape of the access screen, as mathematical values.
#[allow(inconsistent_fields)]
#[verifier::ext_equal]
pub enum ShapeModel {
    Gradient,
    Glow { x_percent: int, y_percent: int, radius_percent: int, color: Color },
    Mark { x: int, y: int, size: int, rim: Color, core: Color },
    Fill { rect: Rect, radius: int, color: Color },
    Outline { rect: Rect, radius: int, thickness: int, color: Color },
    Disc { x: int, y: int, radius: int, color: Color },
    Text { x: int, y: int, text: Seq<char>, size: int, color: Color, max_width: int },
    CenteredText { rect: Rect, text: Seq<char>, size: int, color: Color },
}

impl View for Shape {
    type V = ShapeModel;

    open spec fn view(&self) -> ShapeModel {
        match *self {
            Shape::Gradient => ShapeModel::Gradient,
            Shape::Glow { x_percent, y_percent, radius_percent, color } => ShapeModel::Glow {
                x_percent: x_percent as int,
                y_percent: y_percent as int,
                radius_percent: radius_percent as int,
                color,
            },
            Shape::Mark { x, y, size, rim, core } => ShapeModel::Mark {
                x: x as int,
                y: y as int,
                size: size as int,
                rim,
                core,
            },
            Shape::Fill { rect, radius, color } => ShapeModel::Fill {
                rect,
                radius: radius as int,
                color,
            },
            Shape::Outline { rect, radius, thickness, color } => ShapeModel::Outline {
                rect,
                radius: radius as int,
                thickness: thickness as int,
                color,
            },
            Shape::Disc { x, y, radius, color } => ShapeModel::Disc {
                x: x as int,
                y: y as int,
                radius: radius as int,
                color,
            },
            Shape::Text { x, y, text, size, color, max_width } => ShapeModel::Text {
                x: x as int,
                y: y as int,
                text: text@,
                size: size as int,
                color,
                max_width: max_width as int,
            },
            Shape::CenteredText { rect, text, size, color } => ShapeModel::CenteredText {
                rect,
                text: text@,
                size: size as int,
                color,
            },
        }
    }
}

/// The shapes of a screen, in painting order.
#[derive(Debug)]
pub struct Scene {
    pub shapes: Vec<Shape>,
}

impl View for Scene {
    type V = Seq<ShapeModel>;

    open spec fn view(&self) -> Seq<ShapeModel> {
        self.shapes@.map_values(|shape: Shape| shape@)
    }
}

/// A rectangle that is larger by `by` half pixels on each side.
pub open spec fn inflated(rect: Rect, by: int) -> Rect {
    Rect {
        x: (rect.x - by) as i32,
        y: (rect.y - by) as i32,
        width: (rect.width + 2 * by) as i32,
        height: (rect.height + 2 * by) as i32,
    }
}

/// A rectangle of the given place and size.
pub open spec fn area(x: int, y: int, width: int, height: int) -> Rect {
    Rect { x: x as i32, y: y as i32, width: width as i32, height: height as i32 }
}

impl Scene {
    /// An empty screen.
    pub fn new() -> (scene: Self)
        ensures
            scene@ == Seq::<ShapeModel>::empty(),
    {
        let scene = Scene { shapes: Vec::new() };
        assert(scene@ =~= Seq::<ShapeModel>::empty());
        scene
    }

    fn push(&mut self, shape: Shape)
        ensures
            final(self)@ == old(self)@.push(shape@),
    {
        self.shapes.push(shape);
        assert(self@ =~= old(self)@.push(shape@));
    }

    fn text(&mut self, x: i32, y: i32, text: &str, size: i32, color: Color, max_width: i32)
        ensures
            final(self)@ == text_line(
                old(self)@,
                x as int,
                y as int,
                text@,
                size as int,
                color,
                max_width as int,
            ),
    {
        self.push(Shape::Text { x, y, text: text.to_owned(), size, color, max_width });
    }

    fn fill(&mut self, rect: Rect, radius: i32, color: Color)
        ensures
            final(self)@ == old(self)@.push(
                ShapeModel::Fill { rect, radius: radius as int, color },
            ),
    {
        self.push(Shape::Fill { rect, radius, color });
    }

    fn outline(&mut self, rect: Rect, radius: i32, thickness: i32, color: Color)
        ensures
            final(self)@ == old(self)@.push(
                ShapeModel::Outline {
                    rect,
                    radius: radius as int,
                    thickness: thickness as int,
                    color,
                },
            ),
    {
        self.push(Shape::Outline { rect, radius, thickness, color });
    }

    fn disc(&mut self, x: i32, y: i32, radius: i32, color: Color)
        ensures
            final(self)@ == old(self)@.push(
                ShapeModel::Disc { x: x as int, y: y as int, radius: radius as int, color },
            ),
    {
        self.push(Shape::Disc { x, y, radius, color });
    }
}

/// A screen with one more line of text.
pub open spec fn text_line(
    scene: Seq<ShapeModel>,
    x: int,
    y: int,
    text: Seq<char>,
    size: int,
    color: Color,
    max_width: int,
) -> Seq<ShapeModel> {
    scene.push(ShapeModel::Text { x, y, text, size, color, max_width })
}

/// A screen with the label of a field.
pub open spec fn with_label(scene: Seq<ShapeModel>, x: int, y: int, text: Seq<char>) -> Seq<
    ShapeModel,
> {
    text_line(scene, x, y, text, 23, rgba(153, 169, 194, 255), 800)
}

/// A screen with a text field, which glows while it has the focus.
pub open spec fn with_field(scene: Seq<ShapeModel>, rect: Rect, focused: bool) -> Seq<ShapeModel> {
    let glow = if focused {
        scene.push(
            ShapeModel::Fill {
                rect: inflated(rect, 6),
                radius: 24,
                color: rgba(255, 174, 54, 42),
            },
        )
    } else {
        scene
    };
    glow.push(ShapeModel::Fill { rect, radius: 20, color: rgba(10, 20, 36, 255) }).push(
        ShapeModel::Outline {
            rect,
            radius: 20,
            thickness: if focused { 4 } else { 2 },
            color: if focused { rgba(255, 174, 54, 255) } else { rgba(67, 85, 112, 220) },
        },
    )
}

/// A screen with a button.
pub open spec fn with_button(scene: Seq<ShapeModel>, rect: Rect, label: Seq<char>) -> Seq<
    ShapeModel,
> {
    scene.push(ShapeModel::Fill { rect, radius: 22, color: rgba(255, 169, 42, 255) }).push(
        ShapeModel::Outline { rect, radius: 22, thickness: 2, color: rgba(255, 213, 126, 255) },
    ).push(
        ShapeModel::CenteredText { rect, text: label, size: 34, color: rgba(28, 23, 15, 255) },
    )
}

/// A screen with the mark and the name of the program.
pub open spec fn with_brand(scene: Seq<ShapeModel>, x: int, y: int, compact: bool) -> Seq<
    ShapeModel,
> {
    let size = if compact { 50int } else { 58int };
    let mark = scene.push(
        ShapeModel::Mark {
            x,
            y,
            size,
            rim: rgba(255, 174, 54, 255),
            core: rgba(255, 223, 134, 255),
        },
    );
    let named = text_line(
        mark,
        x + size + 20,
        y - 2,
        "SunRemoteDesktop"@,
        if compact { 36 } else { 40 },
        rgba(240, 245, 253, 255),
        720,
    );
    text_line(
        named,
        x + size + 20,
        y + if compact { 38int } else { 44int },
        "SunRDP protected access"@,
        23,
        rgba(126, 143, 169, 255),
        720,
    )
}

/// A screen with the indicator of an option: a box to be ticked or a round one.
pub open spec fn with_indicator(
    scene: Seq<ShapeModel>,
    rect: Rect,
    selected: bool,
    checkbox: bool,
) -> Seq<ShapeModel> {
    let middle = rect.y + rect.height as int / 2;
    let color = if selected { rgba(255, 174, 54, 255) } else { rgba(42, 57, 80, 255) };
    if checkbox {
        let indicator = area(rect.x + 32, middle - 16, 32, 32);
        let tick_box = scene.push(ShapeModel::Fill { rect: indicator, radius: 8, color }).push(
            ShapeModel::Outline {
                rect: indicator,
                radius: 8,
                thickness: 2,
                color: rgba(92, 108, 132, 255),
            },
        );
        if selected {
            tick_box.push(
                ShapeModel::Fill {
                    rect: area(rect.x + 40, middle - 8, 16, 16),
                    radius: 4,
                    color: rgba(255, 244, 216, 255),
                },
            )
        } else {
            tick_box
        }
    } else {
        let ring = scene.push(ShapeModel::Disc { x: rect.x + 48, y: middle, radius: 16, color });
        if selected {
            ring.push(
                ShapeModel::Disc {
                    x: rect.x + 48,
                    y: middle,
                    radius: 6,
                    color: rgba(255, 244, 216, 255),
                },
            )
        } else {
            ring
        }
    }
}

/// A screen with a box to be ticked and a line of text beside it, which is bright while
/// the box is marked.
pub open spec fn with_tick_row(
    scene: Seq<ShapeModel>,
    rect: Rect,
    ticked: bool,
    marked: bool,
    text: Seq<char>,
) -> Seq<ShapeModel> {
    text_line(
        with_indicator(scene, rect, ticked, true),
        rect.x + 90,
        rect.y + rect.height as int / 2 - 13,
        text,
        25,
        if marked { rgba(240, 245, 253, 255) } else { rgba(153, 169, 194, 255) },
        rect.width - 110,
    )
}

/// A screen with the frame of an option, which glows while it is selected.
pub open spec fn with_option_frame(scene: Seq<ShapeModel>, rect: Rect, selected: bool) -> Seq<
    ShapeModel,
> {
    let glow = if selected {
        scene.push(
            ShapeModel::Fill {
                rect: inflated(rect, 6),
                radius: 28,
                color: rgba(255, 174, 54, 35),
            },
        )
    } else {
        scene
    };
    glow.push(
        ShapeModel::Fill {
            rect,
            radius: 24,
            color: if selected { rgba(35, 39, 48, 255) } else { rgba(11, 22, 39, 255) },
        },
    ).push(
        ShapeModel::Outline {
            rect,
            radius: 24,
            thickness: if selected { 4 } else { 2 },
            color: if selected { rgba(255, 174, 54, 255) } else { rgba(67, 85, 112, 220) },
        },
    )
}

/// A screen with one option: its frame, its indicator, a title, a detail and, on
/// a wide option that is recommended, a badge.
pub open spec fn with_option_card(
    scene: Seq<ShapeModel>,
    rect: Rect,
    selected: bool,
    title: Seq<char>,
    detail: Seq<char>,
    recommended: bool,
    checkbox: bool,
) -> Seq<ShapeModel> {
    let title_y = rect.y + if rect.height < 160 { 26int } else { 32int };
    let framed = with_indicator(
        with_option_frame(scene, rect, selected),
        rect,
        selected,
        checkbox,
    );
    let titled = text_line(
        framed,
        rect.x + 90,
        title_y,
        title,
        34,
        rgba(240, 245, 253, 255),
        rect.width - 130,
    );
    let detailed = text_line(
        titled,
        rect.x + 90,
        title_y + 50,
        detail,
        25,
        rgba(139, 156, 182, 255),
        rect.width - 130,
    );
    if recommended && rect.width > 880 {
        let badge = area(rect.x + rect.width - 224, rect.y + 28, 188, 48);
        text_line(
            detailed.push(
                ShapeModel::Fill { rect: badge, radius: 24, color: rgba(81, 57, 20, 255) },
            ),
            badge.x + 22,
            badge.y + 10,
            "RECOMMENDED"@,
            19,
            rgba(255, 201, 103, 255),
            badge.width - 40,
        )
    } else {
        detailed
    }
}

impl Scene {
    fn label(&mut self, x: i32, y: i32, text: &str)
        ensures
            final(self)@ == with_label(old(self)@, x as int, y as int, text@),
    {
        self.text(x, y, text, 23, rgba(153, 169, 194, 255), 800);
    }

    fn field(&mut self, rect: Rect, focused: bool)
        requires
            rect.bounded(),
        ensures
            final(self)@ == with_field(old(self)@, rect, focused),
    {
        if focused {
            self.fill(inflate(rect, 6), 24, rgba(255, 174, 54, 42));
        }
        self.fill(rect, 20, rgba(10, 20, 36, 255));
        self.outline(
            rect,
            20,
            if focused { 4 } else { 2 },
            if focused { rgba(255, 174, 54, 255) } else { rgba(67, 85, 112, 220) },
        );
    }

    fn button(&mut self, rect: Rect, label: &str)
        ensures
            final(self)@ == with_button(old(self)@, rect, label@),
    {
        self.fill(rect, 22, rgba(255, 169, 42, 255));
        self.outline(rect, 22, 2, rgba(255, 213, 126, 255));
        self.push(
            Shape::CenteredText {
                rect,
                text: label.to_owned(),
                size: 34,
                color: rgba(28, 23, 15, 255),
            },
        );
    }

    fn brand(&mut self, x: i32, y: i32, compact: bool)
        requires
            -crate::layout::RECT_LIMIT <= x <= crate::layout::RECT_LIMIT,
            -crate::layout::RECT_LIMIT <= y <= crate::layout::RECT_LIMIT,
        ensures
            final(self)@ == with_brand(old(self)@, x as int, y as int, compact),
    {
        let size: i32 = if compact { 50 } else { 58 };
        self.push(
            Shape::Mark {
                x,
                y,
                size,
                rim: rgba(255, 174, 54, 255),
                core: rgba(255, 223, 134, 255),
            },
        );
        let name_size: i32 = if compact { 36 } else { 40 };
        self.text(
            x + size + 20,
            y - 2,
            "SunRemoteDesktop",
            name_size,
            rgba(240, 245, 253, 255),
            720,
        );
        let drop: i32 = if compact { 38 } else { 44 };
        self.text(
            x + size + 20,
            y + drop,
            "SunRDP protected access",
            23,
            rgba(126, 143, 169, 255),
            720,
        );
    }

    fn option_frame(&mut self, rect: Rect, selected: bool)
        requires
            rect.bounded(),
        ensures
            final(self)@ == with_option_frame(old(self)@, rect, selected),
    {
        if selected {
            self.fill(inflate(rect, 6), 28, rgba(255, 174, 54, 35));
        }
        self.fill(
            rect,
            24,
            if selected { rgba(35, 39, 48, 255) } else { rgba(11, 22, 39, 255) },
        );
        self.outline(
            rect,
            24,
            if selected { 4 } else { 2 },
            if selected { rgba(255, 174, 54, 255) } else { rgba(67, 85, 112, 220) },
        );
    }

    fn indicator(&mut self, rect: Rect, selected: bool, checkbox: bool)
        requires
            rect.bounded(),
            rect.height >= 0,
        ensures
            final(self)@ == with_indicator(old(self)@, rect, selected, checkbox),
    {
        let middle: i32 = rect.y + rect.height / 2;
        let color = if selected { rgba(255, 174, 54, 255) } else { rgba(42, 57, 80, 255) };
        if checkbox {
            let indicator = Rect { x: rect.x + 32, y: middle - 16, width: 32, height: 32 };
            self.fill(indicator, 8, color);
            self.outline(indicator, 8, 2, rgba(92, 108, 132, 255));
            if selected {
                let tick = Rect { x: rect.x + 40, y: middle - 8, width: 16, height: 16 };
                self.fill(tick, 4, rgba(255, 244, 216, 255));
            }
        } else {
            self.disc(rect.x + 48, middle, 16, color);
            if selected {
                self.disc(rect.x + 48, middle, 6, rgba(255, 244, 216, 255));
            }
        }
    }

    fn tick_row(&mut self, rect: Rect, ticked: bool, marked: bool, text: &str)
        requires
            rect.bounded(),
            rect.height >= 0,
        ensures
            final(self)@ == with_tick_row(old(self)@, rect, ticked, marked, text@),
    {
        self.indicator(rect, ticked, true);
        self.text(
            rect.x + 90,
            rect.y + rect.height / 2 - 13,
            text,
            25,
            if marked { rgba(240, 245, 253, 255) } else { rgba(153, 169, 194, 255) },
            rect.width - 110,
        );
    }

    fn option_card(
        &mut self,
        rect: Rect,
        selected: bool,
        title: &str,
        detail: &str,
        recommended: bool,
        checkbox: bool,
    )
        requires
            rect.bounded(),
            rect.height >= 0,
        ensures
            final(self)@ == with_option_card(
                old(self)@,
                rect,
                selected,
                title@,
                detail@,
                recommended,
                checkbox,
            ),
    {
        self.option_frame(rect, selected);
        self.indicator(rect, selected, checkbox);
        let drop: i32 = if rect.height < 160 { 26 } else { 32 };
        let title_y: i32 = rect.y + drop;
        self.text(rect.x + 90, title_y, title, 34, rgba(240, 245, 253, 255), rect.width - 130);
        self.text(
            rect.x + 90,
            title_y + 50,
            detail,
            25,
            rgba(139, 156, 182, 255),
            rect.width - 130,
        );
        if recommended && rect.width > 880 {
            let badge = Rect {
                x: rect.x + rect.width - 224,
                y: rect.y + 28,
                width: 188,
                height: 48,
            };
            self.fill(badge, 24, rgba(81, 57, 20, 255));
            self.text(
                badge.x + 22,
                badge.y + 10,
                "RECOMMENDED",
                19,
                rgba(255, 201, 103, 255),
                badge.width - 40,
            );
        }
    }
}

fn inflate(rect: Rect, by: i32) -> (larger: Rect)
    requires
        rect.bounded(),
        0 <= by <= 100,
    ensures
        larger == inflated(rect, by as int),
{
    Rect {
        x: rect.x - by,
        y: rect.y - by,
        width: rect.width + 2 * by,
        height: rect.height + 2 * by,
    }
}

/// Two numbers with a multiplication sign between them.
pub open spec fn dimensions_text(size: Option<DesktopSize>) -> Seq<char> {
    let size = shown_size(size);
    crate::text::decimal(size.width as nat) + " × "@ + crate::text::decimal(size.height as nat)
}

/// The size that the screen shows: 0 × 0 while it is unknown.
pub open spec fn shown_size(size: Option<DesktopSize>) -> DesktopSize {
    match size {
        Some(size) => size,
        None => DesktopSize { width: 0, height: 0 },
    }
}

fn push_dimensions(text: &mut String, size: Option<DesktopSize>)
    ensures
        final(text)@ == old(text)@ + dimensions_text(size),
{
    let size = match size {
        Some(size) => size,
        None => DesktopSize { width: 0, height: 0 },
    };
    push_decimal(text, size.width as u64);
    text.push_str(" × ");
    push_decimal(text, size.height as u64);
    assert(text@ =~= old(text)@ + dimensions_text(Some(size)));
}

/// A screen with the note that the desktop is not available yet.
pub open spec fn waiting_screen(
    scene: Seq<ShapeModel>,
    layout: UiLayout,
    snapshot: SnapshotModel,
) -> Seq<ShapeModel> {
    let content = layout.content;
    let compact = layout.compact;
    let title_size = if compact { 50int } else { 64int };
    let title_y = content.y + if compact { 104int } else { 152int };
    let panel = area(
        content.x as int,
        title_y + title_size + if compact { 136int } else { 184int },
        content.width as int,
        if compact { 224 } else { 276 },
    );
    let titled = text_line(
        scene,
        content.x as int,
        title_y,
        "Waiting for the physical console"@,
        title_size,
        rgba(246, 249, 255, 255),
        content.width as int,
    );
    let sized = text_line(
        titled,
        content.x as int,
        title_y + title_size + 20,
        "Remote client  "@ + dimensions_text(snapshot.client_size),
        if compact { 26 } else { 30 },
        rgba(153, 169, 194, 255),
        content.width as int,
    );
    let framed = sized.push(
        ShapeModel::Fill { rect: panel, radius: 28, color: rgba(10, 20, 36, 255) },
    ).push(
        ShapeModel::Outline {
            rect: panel,
            radius: 28,
            thickness: 2,
            color: rgba(67, 85, 112, 220),
        },
    ).push(
        ShapeModel::Disc {
            x: panel.x + 64,
            y: panel.y + 70,
            radius: 18,
            color: rgba(91, 194, 255, 255),
        },
    );
    let ready = text_line(
        framed,
        panel.x + 108,
        panel.y + 40,
        "SunRDP is ready and your access is verified"@,
        if compact { 30 } else { 34 },
        rgba(239, 244, 252, 255),
        panel.width - 148,
    );
    let missing = text_line(
        ready,
        panel.x + 108,
        panel.y + if compact { 102int } else { 116int },
        "Physical console capture is not available yet."@,
        if compact { 25 } else { 28 },
        rgba(139, 156, 182, 255),
        panel.width - 148,
    );
    let silent = text_line(
        missing,
        panel.x + 108,
        panel.y + if compact { 150int } else { 168int },
        "No desktop frames or input are being forwarded."@,
        if compact { 25 } else { 28 },
        rgba(139, 156, 182, 255),
        panel.width - 148,
    );
    text_line(
        silent,
        content.x as int,
        content.y + content.height - 44,
        "This page will continue automatically when the physical console becomes available."@,
        26,
        rgba(126, 143, 169, 255),
        content.width as int,
    )
}

/// The line below the sign-in form, with its colour.
pub open spec fn login_message(status: AccessStatus) -> (Seq<char>, Color) {
    match status {
        AccessStatus::MissingCredentials => (
            "Enter both your account and password"@,
            rgba(255, 190, 92, 255),
        ),
        AccessStatus::Checking => (
            "Checking your local Windows account…"@,
            rgba(91, 194, 255, 255),
        ),
        AccessStatus::Rejected => (
            "Access denied. Check the account or allow-list."@,
            rgba(255, 114, 122, 255),
        ),
        AccessStatus::BackendError => (
            "Authentication service unavailable. Try again."@,
            rgba(255, 114, 122, 255),
        ),
        _ => ("Tab switches fields  •  Enter connects"@, rgba(126, 143, 169, 255)),
    }
}

/// What the password field shows: a bullet for each character, 48 at most.
pub open spec fn masked(length: nat) -> Seq<char> {
    Seq::new(if length <= 48 { length } else { 48 }, |i: int| '•')
}

/// The colour of a field's text, which is pale while the field is empty.
pub open spec fn field_color(empty: bool) -> Color {
    if empty { rgba(113, 130, 155, 255) } else { rgba(239, 244, 252, 255) }
}

/// The line beside the box that asks to remember the client, with what that means.
pub open spec fn remember_text(detail: Seq<char>) -> Seq<char> {
    if detail.len() == 0 {
        "Remember this client"@
    } else {
        "Remember this client  •  "@ + detail
    }
}

/// A screen with the sign-in form.
pub open spec fn login_screen(
    scene: Seq<ShapeModel>,
    layout: UiLayout,
    snapshot: SnapshotModel,
) -> Seq<ShapeModel> {
    let content = layout.content;
    let account = layout.primary;
    let secret = layout.secondary;
    let title_size = if layout.compact { 54int } else { 68int };
    let title_y = content.y + if layout.compact { 84int } else { 104int };
    let titled = text_line(
        scene,
        content.x as int,
        title_y,
        "Connect securely"@,
        title_size,
        rgba(246, 249, 255, 255),
        content.width as int,
    );
    let explained = text_line(
        titled,
        content.x as int,
        title_y + title_size + 12,
        "Sign in with an allowed local Windows account"@,
        if layout.compact { 26 } else { 30 },
        rgba(153, 169, 194, 255),
        content.width as int,
    );
    let account_field = with_field(
        with_label(explained, account.x as int, account.y - 46, "WINDOWS ACCOUNT"@),
        account,
        snapshot.focus == AccessField::Username,
    );
    let no_account = snapshot.username.len() == 0;
    let account_text = text_line(
        account_field,
        account.x + 34,
        account.y + 26,
        if no_account { "Computer\\username"@ } else { snapshot.username },
        if layout.compact { 34 } else { 38 },
        field_color(no_account),
        account.width - 68,
    );
    let secret_field = with_field(
        with_label(account_text, secret.x as int, secret.y - 46, "PASSWORD"@),
        secret,
        snapshot.focus == AccessField::Password,
    );
    let no_secret = snapshot.password_length == 0;
    let secret_text = text_line(
        secret_field,
        secret.x + 34,
        secret.y + 26,
        if no_secret { "Enter your password"@ } else { masked(snapshot.password_length) },
        if layout.compact { 34 } else { 38 },
        field_color(no_secret),
        secret.width - 68,
    );
    let remember = with_tick_row(
        secret_text,
        layout.remember,
        snapshot.remember.client,
        snapshot.focus == AccessField::Remember,
        remember_text(snapshot.remember.detail),
    );
    let message = login_message(snapshot.status);
    text_line(
        with_button(remember, layout.submit, "Connect"@),
        content.x as int,
        layout.submit.y + layout.submit.height + 24,
        message.0,
        26,
        message.1,
        content.width as int,
    )
}

/// The line below the choice of the display fit, with its colour.
pub open spec fn resolution_message(status: AccessStatus, takeover: bool) -> (Seq<char>, Color) {
    if status == AccessStatus::TakeoverConfirmationRequired {
        (
            "Confirm disconnecting the current client before continuing"@,
            rgba(255, 190, 92, 255),
        )
    } else if takeover {
        (
            "Tab changes fit  •  Space confirms takeover  •  Enter continues"@,
            rgba(126, 143, 169, 255),
        )
    } else {
        ("Tab or arrow keys switch options  •  Enter continues"@, rgba(126, 143, 169, 255))
    }
}

/// A screen with the choice of the display fit.
pub open spec fn resolution_screen(
    scene: Seq<ShapeModel>,
    layout: UiLayout,
    snapshot: SnapshotModel,
) -> Seq<ShapeModel> {
    let content = layout.content;
    let title_size = if layout.compact { 50int } else { 64int };
    let title_y = content.y + if layout.compact { 80int } else { 104int };
    let titled = text_line(
        scene,
        content.x as int,
        title_y,
        "Choose the display fit"@,
        title_size,
        rgba(246, 249, 255, 255),
        content.width as int,
    );
    let sized = text_line(
        titled,
        content.x as int,
        title_y + title_size + 14,
        "Remote client  "@ + dimensions_text(snapshot.client_size) + "     Shared screen  "@
            + dimensions_text(snapshot.host_size),
        if layout.compact { 25 } else { 28 },
        rgba(153, 169, 194, 255),
        content.width as int,
    );
    let scale = with_option_card(
        sized,
        layout.primary,
        snapshot.resolution_selection == ResolutionSelection::Scale,
        "Scale to this window"@,
        "Keep proportions and add bars when needed"@,
        true,
        false,
    );
    let follow = with_option_card(
        scale,
        layout.secondary,
        snapshot.resolution_selection == ResolutionSelection::MatchDisplay,
        "Match the physical display"@,
        "Change the local screen to "@ + dimensions_text(snapshot.client_size),
        false,
        false,
    );
    let options = match layout.takeover {
        Some(takeover) => with_option_card(
            follow,
            takeover,
            snapshot.disconnect_others,
            "Disconnect other clients"@,
            "Take control of the shared physical console"@,
            false,
            true,
        ),
        None => follow,
    };
    let remember = with_tick_row(
        options,
        layout.remember,
        snapshot.remember.fit,
        !snapshot.takeover_required || snapshot.remember.marked,
        "Remember this display choice"@,
    );
    let message = resolution_message(snapshot.status, snapshot.takeover_required);
    text_line(
        with_button(remember, layout.submit, "Continue"@),
        content.x as int,
        layout.submit.y + layout.submit.height + 24,
        message.0,
        26,
        message.1,
        content.width as int,
    )
}

/// The background, the card and the brand, which every access screen has.
pub open spec fn base_screen(layout: UiLayout) -> Seq<ShapeModel> {
    let card = seq![
        ShapeModel::Gradient,
        ShapeModel::Glow {
            x_percent: 13,
            y_percent: 18,
            radius_percent: 100,
            color: rgba(255, 162, 48, 18),
        },
        ShapeModel::Glow {
            x_percent: 88,
            y_percent: 88,
            radius_percent: 80,
            color: rgba(44, 135, 255, 15),
        },
        ShapeModel::Fill { rect: layout.card, radius: 44, color: rgba(16, 27, 46, 245) },
        ShapeModel::Outline {
            rect: layout.card,
            radius: 44,
            thickness: 2,
            color: rgba(74, 96, 129, 150),
        },
    ];
    with_brand(card, layout.content.x as int, layout.content.y as int, layout.compact)
}

/// The access screen of a snapshot on a canvas of the given size: the sign-in
/// form, the choice of the display fit once the client is signed in, or the note
/// that the desktop is not available yet.
pub open spec fn access_screen(size: DesktopSize, snapshot: SnapshotModel) -> Seq<ShapeModel> {
    let waiting = snapshot.authenticated && !snapshot.host_available;
    let resolution = snapshot.authenticated && snapshot.host_available
        && !snapshot.desktop_ready();
    let layout = crate::layout::layout_of(size, resolution, snapshot.takeover_required);
    let base = base_screen(layout);
    if waiting {
        waiting_screen(base, layout, snapshot)
    } else if resolution {
        resolution_screen(base, layout, snapshot)
    } else {
        login_screen(base, layout, snapshot)
    }
}

/// Whether the parts of a layout stay below the limit of rectangles.
pub open spec fn layout_bounded(layout: UiLayout) -> bool {
    &&& layout.card.bounded()
    &&& layout.content.bounded()
    &&& layout.primary.bounded() && layout.primary.height >= 0
    &&& layout.secondary.bounded() && layout.secondary.height >= 0
    &&& layout.takeover matches Some(takeover) ==> takeover.bounded() && takeover.height >= 0
    &&& layout.remember.bounded() && layout.remember.height >= 0
    &&& layout.submit.bounded()
}

fn render_waiting(scene: &mut Scene, layout: &UiLayout, snapshot: &AccessSnapshot)
    requires
        layout_bounded(*layout),
    ensures
        final(scene)@ == waiting_screen(old(scene)@, *layout, snapshot@),
{
    let content = layout.content;
    let compact = layout.compact;
    let title_size: i32 = if compact { 50 } else { 64 };
    let title_drop: i32 = if compact { 104 } else { 152 };
    let title_y: i32 = content.y + title_drop;
    scene.text(
        content.x,
        title_y,
        "Waiting for the physical console",
        title_size,
        rgba(246, 249, 255, 255),
        content.width,
    );
    let mut client = "Remote client  ".to_owned();
    push_dimensions(&mut client, snapshot.client_size);
    scene.text(
        content.x,
        title_y + title_size + 20,
        client.as_str(),
        if compact { 26 } else { 30 },
        rgba(153, 169, 194, 255),
        content.width,
    );
    let panel_drop: i32 = if compact { 136 } else { 184 };
    let panel = Rect {
        x: content.x,
        y: title_y + title_size + panel_drop,
        width: content.width,
        height: if compact { 224 } else { 276 },
    };
    scene.fill(panel, 28, rgba(10, 20, 36, 255));
    scene.outline(panel, 28, 2, rgba(67, 85, 112, 220));
    scene.disc(panel.x + 64, panel.y + 70, 18, rgba(91, 194, 255, 255));
    scene.text(
        panel.x + 108,
        panel.y + 40,
        "SunRDP is ready and your access is verified",
        if compact { 30 } else { 34 },
        rgba(239, 244, 252, 255),
        panel.width - 148,
    );
    let detail_size: i32 = if compact { 25 } else { 28 };
    let first_drop: i32 = if compact { 102 } else { 116 };
    scene.text(
        panel.x + 108,
        panel.y + first_drop,
        "Physical console capture is not available yet.",
        detail_size,
        rgba(139, 156, 182, 255),
        panel.width - 148,
    );
    let second_drop: i32 = if compact { 150 } else { 168 };
    scene.text(
        panel.x + 108,
        panel.y + second_drop,
        "No desktop frames or input are being forwarded.",
        detail_size,
        rgba(139, 156, 182, 255),
        panel.width - 148,
    );
    scene.text(
        content.x,
        content.y + content.height - 44,
        "This page will continue automatically when the physical console becomes available.",
        26,
        rgba(126, 143, 169, 255),
        content.width,
    );
}

fn masked_password(length: usize) -> (text: String)
    ensures
        text@ == masked(length as nat),
{
    let count: usize = if length <= 48 { length } else { 48 };
    let mut text = String::new();
    for i in 0..count
        invariant
            text@ == Seq::new(i as nat, |i: int| '•'),
    {
        text.push('•');
        assert(text@ =~= Seq::new((i + 1) as nat, |i: int| '•'));
    }
    text
}

fn remember_line(detail: &str) -> (line: String)
    ensures
        line@ == remember_text(detail@),
{
    if detail.is_empty() {
        return "Remember this client".to_owned();
    }
    let mut line = "Remember this client  •  ".to_owned();
    line.push_str(detail);
    line
}

fn render_login(scene: &mut Scene, layout: &UiLayout, snapshot: &AccessSnapshot)
    requires
        layout_bounded(*layout),
    ensures
        final(scene)@ == login_screen(old(scene)@, *layout, snapshot@),
{
    let content = layout.content;
    let account = layout.primary;
    let secret = layout.secondary;
    let title_size: i32 = if layout.compact { 54 } else { 68 };
    let title_drop: i32 = if layout.compact { 84 } else { 104 };
    let title_y: i32 = content.y + title_drop;
    scene.text(
        content.x,
        title_y,
        "Connect securely",
        title_size,
        rgba(246, 249, 255, 255),
        content.width,
    );
    scene.text(
        content.x,
        title_y + title_size + 12,
        "Sign in with an allowed local Windows account",
        if layout.compact { 26 } else { 30 },
        rgba(153, 169, 194, 255),
        content.width,
    );
    let text_size: i32 = if layout.compact { 34 } else { 38 };
    scene.label(account.x, account.y - 46, "WINDOWS ACCOUNT");
    scene.field(account, snapshot.focus == AccessField::Username);
    let no_account = snapshot.username.as_str().unicode_len() == 0;
    let username: &str = if no_account {
        "Computer\\username"
    } else {
        snapshot.username.as_str()
    };
    scene.text(
        account.x + 34,
        account.y + 26,
        username,
        text_size,
        if no_account { rgba(113, 130, 155, 255) } else { rgba(239, 244, 252, 255) },
        account.width - 68,
    );
    scene.label(secret.x, secret.y - 46, "PASSWORD");
    scene.field(secret, snapshot.focus == AccessField::Password);
    let bullets = masked_password(snapshot.password_length);
    let no_secret = snapshot.password_length == 0;
    let password: &str = if no_secret {
        "Enter your password"
    } else {
        bullets.as_str()
    };
    scene.text(
        secret.x + 34,
        secret.y + 26,
        password,
        text_size,
        if no_secret { rgba(113, 130, 155, 255) } else { rgba(239, 244, 252, 255) },
        secret.width - 68,
    );
    let remember = remember_line(snapshot.remember.detail.as_str());
    scene.tick_row(
        layout.remember,
        snapshot.remember.client,
        snapshot.focus == AccessField::Remember,
        remember.as_str(),
    );
    scene.button(layout.submit, "Connect");
    let (message, color): (&str, Color) = match snapshot.status {
        AccessStatus::MissingCredentials => (
            "Enter both your account and password",
            rgba(255, 190, 92, 255),
        ),
        AccessStatus::Checking => (
            "Checking your local Windows account…",
            rgba(91, 194, 255, 255),
        ),
        AccessStatus::Rejected => (
            "Access denied. Check the account or allow-list.",
            rgba(255, 114, 122, 255),
        ),
        AccessStatus::BackendError => (
            "Authentication service unavailable. Try again.",
            rgba(255, 114, 122, 255),
        ),
        _ => ("Tab switches fields  •  Enter connects", rgba(126, 143, 169, 255)),
    };
    scene.text(
        content.x,
        layout.submit.y + layout.submit.height + 24,
        message,
        26,
        color,
        content.width,
    );
}

fn render_resolution(scene: &mut Scene, layout: &UiLayout, snapshot: &AccessSnapshot)
    requires
        layout_bounded(*layout),
    ensures
        final(scene)@ == resolution_screen(old(scene)@, *layout, snapshot@),
{
    let content = layout.content;
    let title_size: i32 = if layout.compact { 50 } else { 64 };
    let title_drop: i32 = if layout.compact { 80 } else { 104 };
    let title_y: i32 = content.y + title_drop;
    scene.text(
        content.x,
        title_y,
        "Choose the display fit",
        title_size,
        rgba(246, 249, 255, 255),
        content.width,
    );
    let mut dimensions = "Remote client  ".to_owned();
    push_dimensions(&mut dimensions, snapshot.client_size);
    dimensions.push_str("     Shared screen  ");
    push_dimensions(&mut dimensions, snapshot.host_size);
    scene.text(
        content.x,
        title_y + title_size + 14,
        dimensions.as_str(),
        if layout.compact { 25 } else { 28 },
        rgba(153, 169, 194, 255),
        content.width,
    );
    scene.option_card(
        layout.primary,
        snapshot.resolution_selection == ResolutionSelection::Scale,
        "Scale to this window",
        "Keep proportions and add bars when needed",
        true,
        false,
    );
    let mut change = "Change the local screen to ".to_owned();
    push_dimensions(&mut change, snapshot.client_size);
    scene.option_card(
        layout.secondary,
        snapshot.resolution_selection == ResolutionSelection::MatchDisplay,
        "Match the physical display",
        change.as_str(),
        false,
        false,
    );
    if let Some(takeover) = layout.takeover {
        scene.option_card(
            takeover,
            snapshot.disconnect_others,
            "Disconnect other clients",
            "Take control of the shared physical console",
            false,
            true,
        );
    }
    scene.tick_row(
        layout.remember,
        snapshot.remember.fit,
        !snapshot.takeover_required || snapshot.remember.marked,
        "Remember this display choice",
    );
    scene.button(layout.submit, "Continue");
    let (message, color): (&str, Color) = if snapshot.status
        == AccessStatus::TakeoverConfirmationRequired {
        (
            "Confirm disconnecting the current client before continuing",
            rgba(255, 190, 92, 255),
        )
    } else if snapshot.takeover_required {
        (
            "Tab changes fit  •  Space confirms takeover  •  Enter continues",
            rgba(126, 143, 169, 255),
        )
    } else {
        ("Tab or arrow keys switch options  •  Enter continues", rgba(126, 143, 169, 255))
    };
    scene.text(
        content.x,
        layout.submit.y + layout.submit.height + 24,
        message,
        26,
        color,
        content.width,
    );
}

fn render_base(layout: &UiLayout) -> (scene: Scene)
    requires
        layout_bounded(*layout),
    ensures
        scene@ == base_screen(*layout),
{
    let mut scene = Scene::new();
    scene.push(Shape::Gradient);
    scene.push(
        Shape::Glow {
            x_percent: 13,
            y_percent: 18,
            radius_percent: 100,
            color: rgba(255, 162, 48, 18),
        },
    );
    scene.push(
        Shape::Glow {
            x_percent: 88,
            y_percent: 88,
            radius_percent: 80,
            color: rgba(44, 135, 255, 15),
        },
    );
    scene.fill(layout.card, 44, rgba(16, 27, 46, 245));
    scene.outline(layout.card, 44, 2, rgba(74, 96, 129, 150));
    scene.brand(layout.content.x, layout.content.y, layout.compact);
    scene
}

/// The access screen of a snapshot on a canvas of the given size.
pub fn render_access_frame(size: DesktopSize, snapshot: &AccessSnapshot) -> (scene: Scene)
    ensures
        scene@ == access_screen(size, snapshot@),
{
    let waiting = snapshot.authenticated && !snapshot.host_available;
    let resolution = snapshot.authenticated && snapshot.host_available
        && !snapshot.is_desktop_ready();
    let layout = UiLayout::new(size, resolution, snapshot.takeover_required);
    let mut scene = render_base(&layout);
    if waiting {
        render_waiting(&mut scene, &layout, snapshot);
    } else if resolution {
        render_resolution(&mut scene, &layout, snapshot);
    } else {
        render_login(&mut scene, &layout, snapshot);
    }
    scene
}

} // verus!
