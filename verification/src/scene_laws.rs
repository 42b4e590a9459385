//! What the access screen shows, and where.

use vstd::prelude::*;

use crate::access::{AccessField, AccessStatus, ResolutionSelection, SnapshotModel};
use crate::layout::{Rect, UiLayout};
use crate::platform::DesktopSize;
use crate::scene::{Color, ShapeModel};

verus! {

/// The texts of a scene in painting order, each with its place: its top left corner, or
/// that of the rectangle in whose middle it stands.
pub open spec fn lines_of(scene: Seq<ShapeModel>) -> Seq<(int, int, Seq<char>)>
    decreases scene.len(),
{
    if scene.len() == 0 {
        Seq::empty()
    } else {
        let earlier = lines_of(scene.drop_last());
        match scene.last() {
            ShapeModel::Text { x, y, text, .. } => earlier.push((x, y, text)),
            ShapeModel::CenteredText { rect, text, .. } => earlier.push(
                (rect.x as int, rect.y as int, text),
            ),
            _ => earlier,
        }
    }
}

/// The outlined rectangles of a scene in painting order, each with the thickness of its
/// outline.
pub open spec fn outlines_of(scene: Seq<ShapeModel>) -> Seq<(Rect, int)>
    decreases scene.len(),
{
    if scene.len() == 0 {
        Seq::empty()
    } else {
        let earlier = outlines_of(scene.drop_last());
        match scene.last() {
            ShapeModel::Outline { rect, thickness, .. } => earlier.push((rect, thickness)),
            _ => earlier,
        }
    }
}

proof fn lemma_pushed(scene: Seq<ShapeModel>, shape: ShapeModel)
    ensures
        lines_of(scene.push(shape)) == match shape {
            ShapeModel::Text { x, y, text, .. } => lines_of(scene).push((x, y, text)),
            ShapeModel::CenteredText { rect, text, .. } => lines_of(scene).push(
                (rect.x as int, rect.y as int, text),
            ),
            _ => lines_of(scene),
        },
        outlines_of(scene.push(shape)) == match shape {
            ShapeModel::Outline { rect, thickness, .. } => outlines_of(scene).push(
                (rect, thickness),
            ),
            _ => outlines_of(scene),
        },
{
    assert(scene.push(shape).drop_last() =~= scene);
}

/// A line of text is one text at its place.
proof fn lemma_line(
    scene: Seq<ShapeModel>,
    x: int,
    y: int,
    text: Seq<char>,
    size: int,
    color: Color,
    max_width: int,
)
    ensures
        ({
            let next = crate::scene::text_line(scene, x, y, text, size, color, max_width);
            &&& lines_of(next) == lines_of(scene).push((x, y, text))
            &&& outlines_of(next) == outlines_of(scene)
        }),
{
    lemma_pushed(scene, ShapeModel::Text { x, y, text, size, color, max_width });
}

/// A label is one text at its place.
proof fn lemma_label(scene: Seq<ShapeModel>, x: int, y: int, text: Seq<char>)
    ensures
        ({
            let next = crate::scene::with_label(scene, x, y, text);
            &&& lines_of(next) == lines_of(scene).push((x, y, text))
            &&& outlines_of(next) == outlines_of(scene)
        }),
{
    lemma_line(scene, x, y, text, 23, crate::scene::rgba(153, 169, 194, 255), 800);
}

/// A field is outlined, more so where it has the focus, and holds no text of its own.
pub proof fn law_fields_show_the_focus(scene: Seq<ShapeModel>, rect: Rect, focused: bool)
    ensures
        ({
            let next = crate::scene::with_field(scene, rect, focused);
            &&& lines_of(next) == lines_of(scene)
            &&& outlines_of(next) == outlines_of(scene).push((rect, if focused { 4int } else { 2 }))
            &&& next.len() == scene.len() + if focused { 3int } else { 2 }
            &&& next.last() matches ShapeModel::Outline { color, .. } && (color
                == crate::scene::rgba(255, 174, 54, 255) <==> focused)
        }),
{
    let glow = if focused {
        scene.push(
            ShapeModel::Fill {
                rect: crate::scene::inflated(rect, 6),
                radius: 24,
                color: crate::scene::rgba(255, 174, 54, 42),
            },
        )
    } else {
        scene
    };
    if focused {
        lemma_pushed(scene, glow.last());
    }
    let filled = glow.push(
        ShapeModel::Fill { rect, radius: 20, color: crate::scene::rgba(10, 20, 36, 255) },
    );
    lemma_pushed(glow, filled.last());
    let next = crate::scene::with_field(scene, rect, focused);
    lemma_pushed(filled, next.last());
    assert(next =~= filled.push(next.last()));
}

/// A button is a filled and outlined rectangle with its label in the middle.
pub proof fn law_buttons_show_their_label(scene: Seq<ShapeModel>, rect: Rect, label: Seq<char>)
    ensures
        ({
            let next = crate::scene::with_button(scene, rect, label);
            &&& lines_of(next) == lines_of(scene).push((rect.x as int, rect.y as int, label))
            &&& outlines_of(next) == outlines_of(scene).push((rect, 2int))
            &&& next.len() == scene.len() + 3
            &&& next[scene.len() as int] matches ShapeModel::Fill { rect: filled, .. } && filled
                == rect
            &&& next.last() matches ShapeModel::CenteredText { rect: around, .. } && around == rect
        }),
{
    let filled = scene.push(
        ShapeModel::Fill { rect, radius: 22, color: crate::scene::rgba(255, 169, 42, 255) },
    );
    let outlined = filled.push(
        ShapeModel::Outline {
            rect,
            radius: 22,
            thickness: 2,
            color: crate::scene::rgba(255, 213, 126, 255),
        },
    );
    lemma_pushed(scene, filled.last());
    lemma_pushed(filled, outlined.last());
    let next = crate::scene::with_button(scene, rect, label);
    lemma_pushed(outlined, next.last());
    assert(next =~= outlined.push(next.last()));
}

/// An indicator is an outlined box or a disc, 32 half pixels wide, at the left of its row and
/// in its middle; where it is set a smaller one of its kind stands in it.
pub proof fn law_indicators_show_the_setting(
    scene: Seq<ShapeModel>,
    rect: Rect,
    selected: bool,
    checkbox: bool,
)
    requires
        rect.bounded(),
    ensures
        ({
            let next = crate::scene::with_indicator(scene, rect, selected, checkbox);
            let middle = rect.y + rect.height as int / 2;
            let around = crate::scene::area(rect.x + 32, middle - 16, 32, 32);
            &&& lines_of(next) == lines_of(scene)
            &&& outlines_of(next) == if checkbox {
                outlines_of(scene).push((around, 2int))
            } else {
                outlines_of(scene)
            }
            &&& next.len() == scene.len() + (if checkbox { 2int } else { 1 }) + (if selected {
                1int
            } else {
                0
            })
            &&& checkbox && selected ==> (next.last() matches ShapeModel::Fill { rect: tick, .. }
                && tick.x - around.x == 8 && around.x + around.width - (tick.x + tick.width) == 8
                && tick.y - around.y == 8 && around.y + around.height - (tick.y + tick.height) == 8)
            &&& !checkbox ==> (next[scene.len() as int] matches ShapeModel::Disc { x, y, radius, .. }
                && x == rect.x + 48 && y == middle && radius == 16)
            &&& !checkbox && selected ==> (next.last() matches ShapeModel::Disc { x, y, radius, .. }
                && x == rect.x + 48 && y == middle && radius == 6)
        }),
{
    let next = crate::scene::with_indicator(scene, rect, selected, checkbox);
    let first = scene.push(next[scene.len() as int]);
    lemma_pushed(scene, first.last());
    if checkbox {
        let second = first.push(next[(scene.len() + 1) as int]);
        lemma_pushed(first, second.last());
        if selected {
            lemma_pushed(second, next.last());
            assert(next =~= second.push(next.last()));
        } else {
            assert(next =~= second);
        }
    } else if selected {
        lemma_pushed(first, next.last());
        assert(next =~= first.push(next.last()));
    } else {
        assert(next =~= first);
    }
}

/// A row to tick is its box and, beside it, its text.
proof fn lemma_tick_row(
    scene: Seq<ShapeModel>,
    rect: Rect,
    ticked: bool,
    marked: bool,
    text: Seq<char>,
)
    requires
        rect.bounded(),
    ensures
        ({
            let next = crate::scene::with_tick_row(scene, rect, ticked, marked, text);
            let middle = rect.y + rect.height as int / 2;
            &&& lines_of(next) == lines_of(scene).push((rect.x + 90, middle - 13, text))
            &&& outlines_of(next) == outlines_of(scene).push(
                (crate::scene::area(rect.x + 32, middle - 16, 32, 32), 2int),
            )
        }),
{
    law_indicators_show_the_setting(scene, rect, ticked, true);
    lemma_line(
        crate::scene::with_indicator(scene, rect, ticked, true),
        rect.x + 90,
        rect.y + rect.height as int / 2 - 13,
        text,
        25,
        if marked {
            crate::scene::rgba(240, 245, 253, 255)
        } else {
            crate::scene::rgba(153, 169, 194, 255)
        },
        rect.width - 110,
    );
}

/// The frame of an option is outlined, more so where it is chosen.
proof fn lemma_option_frame(scene: Seq<ShapeModel>, rect: Rect, selected: bool)
    ensures
        ({
            let next = crate::scene::with_option_frame(scene, rect, selected);
            &&& lines_of(next) == lines_of(scene)
            &&& outlines_of(next) == outlines_of(scene).push((rect, if selected { 4int } else { 2 }))
        }),
{
    let next = crate::scene::with_option_frame(scene, rect, selected);
    let glow = if selected {
        scene.push(next[scene.len() as int])
    } else {
        scene
    };
    if selected {
        lemma_pushed(scene, glow.last());
    }
    let filled = glow.push(next[glow.len() as int]);
    lemma_pushed(glow, filled.last());
    lemma_pushed(filled, next.last());
    assert(next =~= filled.push(next.last()));
}

/// An option shows whether it is chosen by its outline, and beside its indicator its title
/// and, below that, its detail. The one that is recommended says so where it is wide enough.
pub proof fn law_options_show_their_texts(
    scene: Seq<ShapeModel>,
    rect: Rect,
    selected: bool,
    title: Seq<char>,
    detail: Seq<char>,
    recommended: bool,
    checkbox: bool,
)
    requires
        rect.bounded(),
    ensures
        ({
            let next = crate::scene::with_option_card(
                scene,
                rect,
                selected,
                title,
                detail,
                recommended,
                checkbox,
            );
            let title_y = rect.y + if rect.height < 160 { 26int } else { 32 };
            let titled = lines_of(scene).push((rect.x + 90, title_y, title)).push(
                (rect.x + 90, title_y + 50, detail),
            );
            let middle = rect.y + rect.height as int / 2;
            let framed = outlines_of(scene).push((rect, if selected { 4int } else { 2 }));
            &&& lines_of(next) == if recommended && rect.width > 880 {
                titled.push((rect.x + rect.width - 202, rect.y + 38, "RECOMMENDED"@))
            } else {
                titled
            }
            &&& outlines_of(next) == if checkbox {
                framed.push((crate::scene::area(rect.x + 32, middle - 16, 32, 32), 2int))
            } else {
                framed
            }
        }),
{
    let title_y = rect.y + if rect.height < 160 { 26int } else { 32 };
    let frame = crate::scene::with_option_frame(scene, rect, selected);
    let framed = crate::scene::with_indicator(frame, rect, selected, checkbox);
    lemma_option_frame(scene, rect, selected);
    law_indicators_show_the_setting(frame, rect, selected, checkbox);
    let white = crate::scene::rgba(240, 245, 253, 255);
    let grey = crate::scene::rgba(139, 156, 182, 255);
    let titled = crate::scene::text_line(
        framed,
        rect.x + 90,
        title_y,
        title,
        34,
        white,
        rect.width - 130,
    );
    lemma_line(framed, rect.x + 90, title_y, title, 34, white, rect.width - 130);
    let detailed = crate::scene::text_line(
        titled,
        rect.x + 90,
        title_y + 50,
        detail,
        25,
        grey,
        rect.width - 130,
    );
    lemma_line(titled, rect.x + 90, title_y + 50, detail, 25, grey, rect.width - 130);
    if recommended && rect.width > 880 {
        let badge = crate::scene::area(rect.x + rect.width - 224, rect.y + 28, 188, 48);
        let filled = detailed.push(
            ShapeModel::Fill {
                rect: badge,
                radius: 24,
                color: crate::scene::rgba(81, 57, 20, 255),
            },
        );
        lemma_pushed(detailed, filled.last());
        lemma_line(
            filled,
            badge.x + 22,
            badge.y + 10,
            "RECOMMENDED"@,
            19,
            crate::scene::rgba(255, 201, 103, 255),
            badge.width - 40,
        );
    }
}

/// The background: the gradient, two glows, the outlined card, and the name of the program in
/// its corner.
pub proof fn law_card_bears_the_name(layout: UiLayout)
    ensures
        ({
            let base = crate::scene::base_screen(layout);
            let x = layout.content.x + if layout.compact { 70int } else { 78 };
            &&& base[0] == ShapeModel::Gradient
            &&& base[3] matches ShapeModel::Fill { rect, .. } && rect == layout.card
            &&& lines_of(base) == seq![
                (x, layout.content.y - 2, "SunRemoteDesktop"@),
                (
                    x,
                    layout.content.y + if layout.compact { 38int } else { 44 },
                    "SunRDP protected access"@,
                ),
            ]
            &&& outlines_of(base) == seq![(layout.card, 2int)]
        }),
{
    let base = crate::scene::base_screen(layout);
    let s0 = Seq::<ShapeModel>::empty();
    let s1 = s0.push(base[0]);
    let s2 = s1.push(base[1]);
    let s3 = s2.push(base[2]);
    let s4 = s3.push(base[3]);
    let s5 = s4.push(base[4]);
    let s6 = s5.push(base[5]);
    let s7 = s6.push(base[6]);
    let s8 = s7.push(base[7]);
    lemma_pushed(s0, base[0]);
    lemma_pushed(s1, base[1]);
    lemma_pushed(s2, base[2]);
    lemma_pushed(s3, base[3]);
    lemma_pushed(s4, base[4]);
    lemma_pushed(s5, base[5]);
    lemma_pushed(s6, base[6]);
    lemma_pushed(s7, base[7]);
    assert(base =~= s8);
}

/// The form that is shown to who has not signed in: what it asks for, the account as far as it
/// was entered, dots in place of the password, the box that asks to remember, the button, and
/// below it what became of the last try. The field that has the focus is outlined more.
#[verifier::spinoff_prover]
#[verifier::rlimit(50)]
pub proof fn law_form_shows_what_was_entered(size: DesktopSize, snapshot: SnapshotModel)
    requires
        !snapshot.authenticated,
    ensures
        ({
            let layout = crate::layout::layout_of(size, false, snapshot.takeover_required);
            let content = layout.content;
            let account = layout.primary;
            let secret = layout.secondary;
            let tick = layout.remember;
            let screen = crate::scene::access_screen(size, snapshot);
            let base = crate::scene::base_screen(layout);
            let top = content.y + if layout.compact { 84int } else { 104 };
            let below = content.y + if layout.compact { 150int } else { 184 };
            let middle = tick.y + tick.height as int / 2;
            &&& lines_of(screen) == lines_of(base) + seq![
                (content.x as int, top, "Connect securely"@),
                (content.x as int, below, "Sign in with an allowed local Windows account"@),
                (account.x as int, account.y - 46, "WINDOWS ACCOUNT"@),
                (
                    account.x + 34,
                    account.y + 26,
                    if snapshot.username.len() == 0 {
                        "Computer\\username"@
                    } else {
                        snapshot.username
                    },
                ),
                (secret.x as int, secret.y - 46, "PASSWORD"@),
                (
                    secret.x + 34,
                    secret.y + 26,
                    if snapshot.password_length == 0 {
                        "Enter your password"@
                    } else {
                        crate::scene::masked(snapshot.password_length)
                    },
                ),
                (
                    tick.x + 90,
                    middle - 13,
                    crate::scene::remember_text(snapshot.remember.detail),
                ),
                (layout.submit.x as int, layout.submit.y as int, "Connect"@),
                (
                    content.x as int,
                    layout.submit.y + layout.submit.height + 24,
                    crate::scene::login_message(snapshot.status).0,
                ),
            ]
            &&& outlines_of(screen) == seq![
                (layout.card, 2int),
                (account, if snapshot.focus == AccessField::Username { 4int } else { 2 }),
                (secret, if snapshot.focus == AccessField::Password { 4int } else { 2 }),
                (crate::scene::area(tick.x + 32, middle - 16, 32, 32), 2int),
                (layout.submit, 2int),
            ]
        }),
{
    let layout = crate::layout::layout_of(size, false, snapshot.takeover_required);
    let content = layout.content;
    let account = layout.primary;
    let secret = layout.secondary;
    let tick = layout.remember;
    let base = crate::scene::base_screen(layout);
    let title_size = if layout.compact { 54int } else { 68 };
    let title_y = content.y + if layout.compact { 84int } else { 104 };
    let white = crate::scene::rgba(246, 249, 255, 255);
    let grey = crate::scene::rgba(153, 169, 194, 255);
    law_card_bears_the_name(layout);
    let s1 = crate::scene::text_line(
        base,
        content.x as int,
        title_y,
        "Connect securely"@,
        title_size,
        white,
        content.width as int,
    );
    lemma_line(
        base,
        content.x as int,
        title_y,
        "Connect securely"@,
        title_size,
        white,
        content.width as int,
    );
    let small = if layout.compact { 26int } else { 30 };
    let note = "Sign in with an allowed local Windows account"@;
    let s2 = crate::scene::text_line(
        s1,
        content.x as int,
        title_y + title_size + 12,
        note,
        small,
        grey,
        content.width as int,
    );
    lemma_line(
        s1,
        content.x as int,
        title_y + title_size + 12,
        note,
        small,
        grey,
        content.width as int,
    );
    let s3 = crate::scene::with_label(s2, account.x as int, account.y - 46, "WINDOWS ACCOUNT"@);
    lemma_label(s2, account.x as int, account.y - 46, "WINDOWS ACCOUNT"@);
    let focused = snapshot.focus == AccessField::Username;
    let s4 = crate::scene::with_field(s3, account, focused);
    law_fields_show_the_focus(s3, account, focused);
    let no_account = snapshot.username.len() == 0;
    let entered = if no_account { "Computer\\username"@ } else { snapshot.username };
    let large = if layout.compact { 34int } else { 38 };
    let color = crate::scene::field_color(no_account);
    let s5 = crate::scene::text_line(
        s4,
        account.x + 34,
        account.y + 26,
        entered,
        large,
        color,
        account.width - 68,
    );
    lemma_line(s4, account.x + 34, account.y + 26, entered, large, color, account.width - 68);
    let s6 = crate::scene::with_label(s5, secret.x as int, secret.y - 46, "PASSWORD"@);
    lemma_label(s5, secret.x as int, secret.y - 46, "PASSWORD"@);
    let focused = snapshot.focus == AccessField::Password;
    let s7 = crate::scene::with_field(s6, secret, focused);
    law_fields_show_the_focus(s6, secret, focused);
    let no_secret = snapshot.password_length == 0;
    let dots = if no_secret {
        "Enter your password"@
    } else {
        crate::scene::masked(snapshot.password_length)
    };
    let color = crate::scene::field_color(no_secret);
    let s8 = crate::scene::text_line(
        s7,
        secret.x + 34,
        secret.y + 26,
        dots,
        large,
        color,
        secret.width - 68,
    );
    lemma_line(s7, secret.x + 34, secret.y + 26, dots, large, color, secret.width - 68);
    let ticked = snapshot.remember.client;
    let marked = snapshot.focus == AccessField::Remember;
    let text = crate::scene::remember_text(snapshot.remember.detail);
    let s9 = crate::scene::with_tick_row(s8, tick, ticked, marked, text);
    lemma_tick_row(s8, tick, ticked, marked, text);
    let s10 = crate::scene::with_button(s9, layout.submit, "Connect"@);
    law_buttons_show_their_label(s9, layout.submit, "Connect"@);
    let message = crate::scene::login_message(snapshot.status);
    let last_y = layout.submit.y + layout.submit.height + 24;
    lemma_line(
        s10,
        content.x as int,
        last_y,
        message.0,
        26,
        message.1,
        content.width as int,
    );
}

/// A password is never shown: there is a dot for each of its characters, up to 48.
pub proof fn law_password_is_dots(length: nat, i: int)
    ensures
        crate::scene::masked(length).len() == if length <= 48 { length } else { 48 },
        0 <= i < crate::scene::masked(length).len() ==> crate::scene::masked(length)[i] == '•',
{
}

/// What the form says of the last try, in blue while it is checked, in red where it failed.
pub proof fn law_form_tells_the_outcome(status: AccessStatus)
    ensures
        ({
            let (text, color) = crate::scene::login_message(status);
            let red = crate::scene::rgba(255, 114, 122, 255);
            &&& text == match status {
                AccessStatus::MissingCredentials => "Enter both your account and password"@,
                AccessStatus::Checking => "Checking your local Windows account…"@,
                AccessStatus::Rejected => "Access denied. Check the account or allow-list."@,
                AccessStatus::BackendError => "Authentication service unavailable. Try again."@,
                _ => "Tab switches fields  •  Enter connects"@,
            }
            &&& color == red <==> status is Rejected || status is BackendError
            &&& color == crate::scene::rgba(91, 194, 255, 255) <==> status is Checking
        }),
{
}

/// The box that asks to remember a client says which, where that is known.
pub proof fn law_remembering_names_the_client(detail: Seq<char>)
    ensures
        ({
            let text = crate::scene::remember_text(detail);
            &&& detail.len() == 0 ==> text == "Remember this client"@
            &&& detail.len() > 0 ==> text.take(25) == "Remember this client  •  "@ && text.skip(25)
                == detail
        }),
{
    reveal_strlit("Remember this client  •  ");
    let text = crate::scene::remember_text(detail);
    if detail.len() > 0 {
        assert(text.take(25) =~= "Remember this client  •  "@);
        assert(text.skip(25) =~= detail);
    }
}

/// A size is told as its width and its height with a cross between them; one that is unknown
/// has neither.
pub proof fn law_sizes_are_told_as_width_and_height(size: DesktopSize)
    ensures
        ({
            let text = crate::scene::dimensions_text(Some(size));
            let width = crate::text::decimal(size.width as nat);
            let at = width.len() as int;
            &&& crate::text::number_of(text.take(at)) == size.width
            &&& text.subrange(at, at + 3) == " × "@
            &&& crate::text::number_of(text.skip(at + 3)) == size.height
            &&& crate::scene::dimensions_text(None) == crate::scene::dimensions_text(
                Some(DesktopSize { width: 0, height: 0 }),
            )
        }),
{
    reveal_strlit(" × ");
    let text = crate::scene::dimensions_text(Some(size));
    let width = crate::text::decimal(size.width as nat);
    let height = crate::text::decimal(size.height as nat);
    let at = width.len() as int;
    crate::text::law_decimals_are_read_back(size.width as nat);
    crate::text::law_decimals_are_read_back(size.height as nat);
    assert(text.take(at) =~= width);
    assert(text.subrange(at, at + 3) =~= " × "@);
    assert(text.skip(at + 3) =~= height);
}

/// What the choice of the display fit says below its button.
pub proof fn law_choice_tells_what_to_do(status: AccessStatus, takeover: bool)
    ensures
        ({
            let (text, color) = crate::scene::resolution_message(status, takeover);
            &&& text == if status == AccessStatus::TakeoverConfirmationRequired {
                "Confirm disconnecting the current client before continuing"@
            } else if takeover {
                "Tab changes fit  •  Space confirms takeover  •  Enter continues"@
            } else {
                "Tab or arrow keys switch options  •  Enter continues"@
            }
            &&& color == crate::scene::rgba(255, 190, 92, 255) <==> status
                == AccessStatus::TakeoverConfirmationRequired
        }),
{
}

/// Who has signed in and finds a desktop that is not open yet chooses how it is fitted: the
/// option that is chosen is outlined more, the one that disconnects others is there where
/// that is needed, and the sizes of both screens are told.
#[verifier::spinoff_prover]
#[verifier::rlimit(50)]
pub proof fn law_choice_shows_the_options(size: DesktopSize, snapshot: SnapshotModel)
    requires
        snapshot.authenticated,
        snapshot.host_available,
        !snapshot.desktop_ready(),
    ensures
        ({
            let takeover = snapshot.takeover_required;
            let layout = crate::layout::layout_of(size, true, takeover);
            let tick = layout.remember;
            let screen = crate::scene::access_screen(size, snapshot);
            let lines = lines_of(screen);
            let own = crate::scene::dimensions_text(snapshot.client_size);
            let other = crate::scene::dimensions_text(snapshot.host_size);
            let middle = tick.y + tick.height as int / 2;
            let scaled = snapshot.resolution_selection == ResolutionSelection::Scale;
            let matched = snapshot.resolution_selection == ResolutionSelection::MatchDisplay;
            let badge: int = if layout.primary.width > 880 { 1 } else { 0 };
            let more: int = if takeover { 2 } else { 0 };
            let options = seq![
                (layout.card, 2int),
                (layout.primary, if scaled { 4int } else { 2 }),
                (layout.secondary, if matched { 4int } else { 2 }),
            ];
            let box_around = (crate::scene::area(tick.x + 32, middle - 16, 32, 32), 2int);
            &&& lines.len() == 11 + badge + more
            &&& lines[2].2 == "Choose the display fit"@
            &&& lines[3].2 == "Remote client  "@ + own + "     Shared screen  "@ + other
            &&& lines[4] == (
                layout.primary.x + 90,
                lines[4].1,
                "Scale to this window"@,
            ) && lines[5].2 == "Keep proportions and add bars when needed"@
            &&& badge == 1 ==> lines[6].2 == "RECOMMENDED"@
            &&& lines[6 + badge] == (
                layout.secondary.x + 90,
                lines[6 + badge].1,
                "Match the physical display"@,
            ) && lines[7 + badge].2 == "Change the local screen to "@ + own
            &&& takeover ==> lines[8 + badge].2 == "Disconnect other clients"@ && lines[9
                + badge].2 == "Take control of the shared physical console"@
            &&& lines[8 + badge + more] == (
                tick.x + 90,
                middle - 13,
                "Remember this display choice"@,
            )
            &&& lines[9 + badge + more] == (
                layout.submit.x as int,
                layout.submit.y as int,
                "Continue"@,
            )
            &&& lines[10 + badge + more].2 == crate::scene::resolution_message(
                snapshot.status,
                takeover,
            ).0
            &&& !takeover ==> outlines_of(screen) == options + seq![
                box_around,
                (layout.submit, 2int),
            ]
            &&& takeover ==> ({
                let rect = layout.takeover->0;
                let center = rect.y + rect.height as int / 2;
                outlines_of(screen) == options + seq![
                    (rect, if snapshot.disconnect_others { 4int } else { 2 }),
                    (crate::scene::area(rect.x + 32, center - 16, 32, 32), 2int),
                    box_around,
                    (layout.submit, 2int),
                ]
            })
        }),
{
    let takeover = snapshot.takeover_required;
    let layout = crate::layout::layout_of(size, true, takeover);
    let content = layout.content;
    let tick = layout.remember;
    let base = crate::scene::base_screen(layout);
    law_card_bears_the_name(layout);
    let title_size = if layout.compact { 50int } else { 64 };
    let title_y = content.y + if layout.compact { 80int } else { 104 };
    let white = crate::scene::rgba(246, 249, 255, 255);
    let grey = crate::scene::rgba(153, 169, 194, 255);
    let own = crate::scene::dimensions_text(snapshot.client_size);
    let sizes = "Remote client  "@ + own + "     Shared screen  "@ + crate::scene::dimensions_text(
        snapshot.host_size,
    );
    let (x, width) = (content.x as int, content.width as int);
    let title = "Choose the display fit"@;
    let s1 = crate::scene::text_line(base, x, title_y, title, title_size, white, width);
    lemma_line(base, x, title_y, title, title_size, white, width);
    let small = if layout.compact { 25int } else { 28 };
    let below = title_y + title_size + 14;
    let s2 = crate::scene::text_line(s1, x, below, sizes, small, grey, width);
    lemma_line(s1, x, below, sizes, small, grey, width);
    let scaled = snapshot.resolution_selection == ResolutionSelection::Scale;
    let matched = snapshot.resolution_selection == ResolutionSelection::MatchDisplay;
    let t1 = "Scale to this window"@;
    let d1 = "Keep proportions and add bars when needed"@;
    let s3 = crate::scene::with_option_card(s2, layout.primary, scaled, t1, d1, true, false);
    law_options_show_their_texts(s2, layout.primary, scaled, t1, d1, true, false);
    let t2 = "Match the physical display"@;
    let d2 = "Change the local screen to "@ + own;
    let s4 = crate::scene::with_option_card(s3, layout.secondary, matched, t2, d2, false, false);
    law_options_show_their_texts(s3, layout.secondary, matched, t2, d2, false, false);
    let s5 = match layout.takeover {
        Some(rect) => crate::scene::with_option_card(
            s4,
            rect,
            snapshot.disconnect_others,
            "Disconnect other clients"@,
            "Take control of the shared physical console"@,
            false,
            true,
        ),
        None => s4,
    };
    if let Some(rect) = layout.takeover {
        law_options_show_their_texts(
            s4,
            rect,
            snapshot.disconnect_others,
            "Disconnect other clients"@,
            "Take control of the shared physical console"@,
            false,
            true,
        );
    }
    let marked = !snapshot.takeover_required || snapshot.remember.marked;
    let text = "Remember this display choice"@;
    let s6 = crate::scene::with_tick_row(s5, tick, snapshot.remember.fit, marked, text);
    lemma_tick_row(s5, tick, snapshot.remember.fit, marked, text);
    let s7 = crate::scene::with_button(s6, layout.submit, "Continue"@);
    law_buttons_show_their_label(s6, layout.submit, "Continue"@);
    let message = crate::scene::resolution_message(snapshot.status, takeover);
    let last_y = layout.submit.y + layout.submit.height + 24;
    lemma_line(s7, x, last_y, message.0, 26, message.1, width);
}

/// Who has signed in while there is no desktop is told so, and that nothing of it is shown
/// or reached.
#[verifier::spinoff_prover]
#[verifier::rlimit(50)]
pub proof fn law_waiting_is_told(size: DesktopSize, snapshot: SnapshotModel)
    requires
        snapshot.authenticated,
        !snapshot.host_available,
    ensures
        ({
            let screen = crate::scene::access_screen(size, snapshot);
            let lines = lines_of(screen);
            &&& lines.len() == 8
            &&& lines[0].2 == "SunRemoteDesktop"@
            &&& lines[2].2 == "Waiting for the physical console"@
            &&& lines[3].2 == "Remote client  "@ + crate::scene::dimensions_text(
                snapshot.client_size,
            )
            &&& lines[4].2 == "SunRDP is ready and your access is verified"@
            &&& lines[5].2 == "Physical console capture is not available yet."@
            &&& lines[6].2 == "No desktop frames or input are being forwarded."@
            &&& lines[7].2
                == "This page will continue automatically when the physical console becomes available."@
            &&& outlines_of(screen).len() == 2
        }),
{
    let layout = crate::layout::layout_of(size, false, snapshot.takeover_required);
    let base = crate::scene::base_screen(layout);
    let screen = crate::scene::access_screen(size, snapshot);
    law_card_bears_the_name(layout);
    let n = base.len() as int;
    let s1 = base.push(screen[n]);
    let s2 = s1.push(screen[n + 1]);
    let s3 = s2.push(screen[n + 2]);
    let s4 = s3.push(screen[n + 3]);
    let s5 = s4.push(screen[n + 4]);
    let s6 = s5.push(screen[n + 5]);
    let s7 = s6.push(screen[n + 6]);
    let s8 = s7.push(screen[n + 7]);
    let s9 = s8.push(screen[n + 8]);
    lemma_pushed(base, screen[n]);
    lemma_pushed(s1, screen[n + 1]);
    lemma_pushed(s2, screen[n + 2]);
    lemma_pushed(s3, screen[n + 3]);
    lemma_pushed(s4, screen[n + 4]);
    lemma_pushed(s5, screen[n + 5]);
    lemma_pushed(s6, screen[n + 6]);
    lemma_pushed(s7, screen[n + 7]);
    lemma_pushed(s8, screen[n + 8]);
    assert(screen =~= s9);
}

/// What glows around a rectangle reaches as far beyond each of its sides, and an area has the
/// place and the sides that it was given.
pub proof fn law_glows_reach_beyond_each_side(rect: Rect, by: int)
    requires
        rect.bounded(),
        0 <= by <= 100,
    ensures
        ({
            let around = crate::scene::inflated(rect, by);
            &&& around.x == rect.x - by && around.y == rect.y - by
            &&& around.x + around.width == rect.x + rect.width + by
            &&& around.y + around.height == rect.y + rect.height + by
        }),
        crate::scene::area(
            rect.x as int,
            rect.y as int,
            rect.width as int,
            rect.height as int,
        ) == rect,
{
}

/// What has the focus or is chosen glows in orange around its rectangle, which what has not
/// does not; otherwise both are filled and outlined alike, in other colours.
pub proof fn law_chosen_things_glow(scene: Seq<ShapeModel>, rect: Rect)
    ensures
        ({
            let field = crate::scene::with_field(scene, rect, true);
            let option = crate::scene::with_option_frame(scene, rect, true);
            let at = scene.len() as int;
            let around = crate::scene::inflated(rect, 6);
            &&& field[at] == (ShapeModel::Fill {
                rect: around,
                radius: 24,
                color: crate::scene::rgba(255, 174, 54, 42),
            })
            &&& option[at] == (ShapeModel::Fill {
                rect: around,
                radius: 28,
                color: crate::scene::rgba(255, 174, 54, 35),
            })
            &&& crate::scene::with_field(scene, rect, false)[at] == field[at + 1]
            &&& field[at + 1] == (ShapeModel::Fill {
                rect,
                radius: 20,
                color: crate::scene::rgba(10, 20, 36, 255),
            })
            &&& crate::scene::with_option_frame(scene, rect, false).len() == scene.len() + 2
            &&& option.len() == scene.len() + 3
            &&& crate::scene::with_field(scene, rect, false).last() == (ShapeModel::Outline {
                rect,
                radius: 20,
                thickness: 2,
                color: crate::scene::rgba(67, 85, 112, 220),
            })
            &&& crate::scene::with_option_frame(scene, rect, false).last() == (
            ShapeModel::Outline {
                rect,
                radius: 24,
                thickness: 2,
                color: crate::scene::rgba(67, 85, 112, 220),
            })
        }),
{
}

} // verus!
