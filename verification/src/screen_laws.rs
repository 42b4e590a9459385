//! What the keys and the pointer do on the access screen, key by key and click by click.

use vstd::prelude::*;

use crate::access::{
    AccessAction, AccessField, AccessModel, AccessStatus, BoxesModel, DesktopPresentation,
    GateModel, ResolutionSelection, ValidationFailure,
};
use crate::events::{KeyboardEvent, MouseButton, MouseEvent};
use crate::platform::DesktopSize;
use crate::session::SessionModel;

verus! {

/// Whether the keys from a scan code on type these characters, the first ones without
/// and the second ones with shift, whatever caps lock says.
pub open spec fn row_types(first: int, plain: Seq<char>, shifted: Seq<char>) -> bool {
    forall|k: int, caps_lock: bool|
        0 <= k < plain.len() ==> #[trigger] crate::access::typed_character(
            (first + k) as u8,
            false,
            caps_lock,
        ) == Some(plain[k]) && crate::access::typed_character((first + k) as u8, true, caps_lock)
            == Some(shifted[k])
}

/// Whether the keys from a scan code on type these letters: large ones where exactly one of
/// shift and caps lock is on, small ones otherwise.
pub open spec fn row_spells(first: int, small: Seq<char>, large: Seq<char>) -> bool {
    forall|k: int, shift: bool, caps_lock: bool|
        0 <= k < small.len() ==> #[trigger] crate::access::typed_character(
            (first + k) as u8,
            shift,
            caps_lock,
        ) == Some(
            if shift != caps_lock {
                large[k]
            } else {
                small[k]
            },
        )
}

/// The keys of the sign-in form type what stands on a keyboard of the United States, and
/// the keys of the number pad their digits.
#[verifier::spinoff_prover]
#[verifier::rlimit(60)]
pub proof fn law_symbol_keys_type_their_characters()
    ensures
        row_types(2, "1234567890-="@, "!@#$%^&*()_+"@),
        row_types(26, "[]"@, "{}"@),
        row_types(39, ";'`"@, ":\"~"@),
        row_types(43, "\\"@, "|"@),
        row_types(51, ",./"@, "<>?"@),
        row_types(57, " "@, " "@),
        row_types(71, "789"@, "789"@),
        row_types(75, "456"@, "456"@),
        row_types(79, "1230."@, "1230."@),
{
    reveal_strlit("1234567890-=");
    reveal_strlit("!@#$%^&*()_+");
    reveal_strlit("[]");
    reveal_strlit("{}");
    reveal_strlit(";'`");
    reveal_strlit(":\"~");
    reveal_strlit("\\");
    reveal_strlit("|");
    reveal_strlit(",./");
    reveal_strlit("<>?");
    reveal_strlit(" ");
    reveal_strlit("789");
    reveal_strlit("456");
    reveal_strlit("1230.");
}

/// The letters stand in three rows, and shift undoes caps lock.
#[verifier::spinoff_prover]
#[verifier::rlimit(60)]
pub proof fn law_letter_keys_type_their_letters()
    ensures
        row_spells(16, "qwertyuiop"@, "QWERTYUIOP"@),
        row_spells(30, "asdfghjkl"@, "ASDFGHJKL"@),
        row_spells(44, "zxcvbnm"@, "ZXCVBNM"@),
{
    reveal_strlit("qwertyuiop");
    reveal_strlit("QWERTYUIOP");
    reveal_strlit("asdfghjkl");
    reveal_strlit("ASDFGHJKL");
    reveal_strlit("zxcvbnm");
    reveal_strlit("ZXCVBNM");
}

/// Shift changes what every key of the main block types but the space bar, and nothing on
/// the number pad; caps lock changes the letters alone. No other key types anything.
pub proof fn law_shift_and_caps_lock_change_characters(code: u8, shift: bool, caps_lock: bool)
    ensures
        ({
            let letter = 16 <= code <= 25 || 30 <= code <= 38 || 44 <= code <= 50;
            let symbol = 2 <= code <= 13 || 26 <= code <= 27 || 39 <= code <= 41 || code == 43
                || 51 <= code <= 53;
            let plain = code == 57 || 71 <= code <= 73 || 75 <= code <= 77 || 79 <= code <= 83;
            let typed = crate::access::typed_character(code, shift, caps_lock);
            &&& typed is Some <==> letter || symbol || plain
            &&& letter || symbol ==> typed != crate::access::typed_character(
                code,
                !shift,
                caps_lock,
            )
            &&& plain ==> typed == crate::access::typed_character(code, !shift, caps_lock)
            &&& (typed == crate::access::typed_character(code, shift, !caps_lock)) == !letter
        }),
{
}

/// A key types its character where it goes down and is not one of the extended keys; a
/// character that a client sends as such is typed as it is, unless it is a control
/// character or half of one. Shift, caps lock, backspace, tab and enter type nothing.
pub proof fn law_pressed_keys_type(
    code: u8,
    unit: u16,
    shift: bool,
    caps_lock: bool,
    extended: bool,
    flags: u8,
)
    ensures
        crate::access::event_character(
            KeyboardEvent::Pressed { code, extended: false },
            shift,
            caps_lock,
        ) == if code == 14 || code == 15 || code == 28 || code == 42 || code == 54 || code == 58 {
            None
        } else {
            crate::access::typed_character(code, shift, caps_lock)
        },
        crate::access::event_character(
            KeyboardEvent::Pressed { code, extended: true },
            shift,
            caps_lock,
        ) is None,
        crate::access::event_character(KeyboardEvent::UnicodePressed(unit), shift, caps_lock)
            == if unit < 0x20 || 0x7f <= unit <= 0x9f || 0xd800 <= unit <= 0xdfff {
            None
        } else {
            Some((unit as u32) as char)
        },
        crate::access::event_character(
            KeyboardEvent::Released { code, extended },
            shift,
            caps_lock,
        ) is None,
        crate::access::event_character(
            KeyboardEvent::UnicodeReleased(unit),
            shift,
            caps_lock,
        ) is None,
{
}

/// Whether the sign-in form takes keys and clicks.
pub open spec fn form_is_open(state: AccessModel) -> bool {
    !state.authenticated && state.status != AccessStatus::Checking
}

/// Whether the choice of the display fit takes keys and clicks.
pub open spec fn choice_is_open(state: AccessModel) -> bool {
    &&& state.authenticated && state.host_available
    &&& state.status != AccessStatus::Checking
    &&& state.presentation is None || state.takeover_required
}

/// Typing on the sign-in form puts a character behind the text of the field that has the
/// focus, and backspace takes the last one away; the other field stays. A full field of
/// 256 characters takes no more.
#[verifier::spinoff_prover]
pub proof fn law_typing_goes_to_the_focused_field(
    state: AccessModel,
    key: KeyboardEvent,
    other: bool,
)
    requires
        form_is_open(state),
        key is Pressed || key is UnicodePressed,
    ensures
        ({
            let typed = crate::access::event_character(key, state.shift, state.caps_lock);
            let step = state.key_step(key, other);
            &&& typed matches Some(c) ==> {
                &&& state.focus is Username && state.username.len() < 256
                    ==> step.state.username == state.username.push(c) && step.state.password
                    == state.password
                &&& state.focus is Password && state.password.len() < 256
                    ==> step.state.password == state.password.push(c) && step.state.username
                    == state.username
                &&& state.focus is Username && state.username.len() >= 256 ==> step.state == state
                &&& state.focus is Password && state.password.len() >= 256 ==> step.state == state
                &&& step.state.focus == state.focus && step.submission is None
            }
        }),
{
}

/// Backspace takes the last character of the focused field away.
#[verifier::spinoff_prover]
pub proof fn law_backspace_takes_the_last_character(
    state: AccessModel,
    other: bool,
    extended: bool,
)
    requires
        form_is_open(state),
    ensures
        ({
            let step = state.key_step(KeyboardEvent::Pressed { code: 14, extended }, other);
            &&& state.focus is Username && state.username.len() > 0 ==> step.state.username
                == state.username.drop_last() && step.state.password == state.password
            &&& state.focus is Password && state.password.len() > 0 ==> step.state.password
                == state.password.drop_last() && step.state.username == state.username
            &&& state.active_field().len() == 0 ==> step.state.username == state.username
                && step.state.password == state.password
            &&& step.state.focus == state.focus && step.submission is None && step.publish
        }),
{
}

/// Tab goes from the account to the password, to the box and back to the account, and
/// changes no text.
#[verifier::spinoff_prover]
pub proof fn law_tab_goes_round_the_form(state: AccessModel, other: bool, extended: bool)
    requires
        form_is_open(state),
    ensures
        ({
            let tab = KeyboardEvent::Pressed { code: 15, extended };
            let step = state.key_step(tab, other);
            &&& state.focus is Username ==> step.state.focus is Password
            &&& state.focus is Password ==> step.state.focus is Remember
            &&& state.focus is Remember ==> step.state.focus is Username
            &&& step.state == (AccessModel {
                focus: step.state.focus,
                status: AccessStatus::Ready,
                ..state
            })
            &&& step.publish && step.submission is None
        }),
{
}

/// Shift is on while one of its keys is down, and caps lock changes with each press; the
/// form stays as it is.
#[verifier::spinoff_prover]
pub proof fn law_shift_keys_are_followed(state: AccessModel, other: bool, extended: bool, code: u8)
    requires
        form_is_open(state),
        code == 42 || code == 54,
    ensures
        state.key_step(KeyboardEvent::Pressed { code, extended }, other).state == (AccessModel {
            shift: true,
            ..state
        }),
        state.key_step(KeyboardEvent::Released { code, extended }, other).state == (AccessModel {
            shift: false,
            ..state
        }),
        state.key_step(KeyboardEvent::Pressed { code: 58, extended }, other).state == (
        AccessModel { caps_lock: !state.caps_lock, ..state }),
{
}

/// Enter hands the account, without white space around it, and the password over to be
/// checked, once, where both were given; otherwise it asks for them. Nothing but enter and
/// a click on the button does.
#[verifier::spinoff_prover]
#[verifier::rlimit(40)]
pub proof fn law_enter_submits_the_form(
    state: AccessModel,
    other: bool,
    extended: bool,
    key: KeyboardEvent,
)
    requires
        form_is_open(state),
    ensures
        ({
            let step = state.key_step(KeyboardEvent::Pressed { code: 28, extended }, other);
            let account = crate::text::trimmed(state.username);
            &&& account.len() > 0 && state.password.len() > 0 ==> {
                &&& step.submission == Some((state.generation, account, state.password))
                &&& step.state == (AccessModel {
                    password: Seq::empty(),
                    status: AccessStatus::Checking,
                    ..state
                })
            }
            &&& account.len() == 0 || state.password.len() == 0 ==> {
                &&& step.submission is None
                &&& step.state == (AccessModel {
                    status: AccessStatus::MissingCredentials,
                    ..state
                })
            }
            &&& step.publish
        }),
        state.key_step(key, other).submission is Some ==> (key matches KeyboardEvent::Pressed {
            code,
            ..
        } && code == 28),
{
}

/// A left click.
pub open spec fn left_click(x: u16, y: u16) -> MouseEvent {
    MouseEvent::Button { x, y, button: MouseButton::Left, pressed: true }
}

/// A click on a field of the sign-in form gives it the focus, and a click on the button
/// does what enter does. A click beside all of them changes nothing.
#[verifier::spinoff_prover]
#[verifier::rlimit(60)]
pub proof fn law_clicks_on_the_form(
    state: AccessModel,
    other: bool,
    size: DesktopSize,
    x: u16,
    y: u16,
)
    requires
        form_is_open(state),
        state.client_size == Some(size),
        size.height >= 480,
    ensures
        ({
            let layout = crate::layout::layout_of(size, false, state.takeover_required);
            let step = state.mouse_step(left_click(x, y), other);
            let at = AccessModel { pointer: (x, y), ..state };
            &&& layout.primary.holds(x, y) ==> step.state == (AccessModel {
                focus: AccessField::Username,
                status: AccessStatus::Ready,
                ..at
            }) && step.publish && step.submission is None
            &&& layout.secondary.holds(x, y) ==> step.state == (AccessModel {
                focus: AccessField::Password,
                status: AccessStatus::Ready,
                ..at
            }) && step.publish && step.submission is None
            &&& layout.submit.holds(x, y) ==> step == at.key_step(
                KeyboardEvent::Pressed { code: 28, extended: false },
                other,
            )
            &&& layout.remember.holds(x, y) ==> step.state.remember.client
                != state.remember.client && step.state.focus is Remember && step.publish
            &&& !layout.primary.holds(x, y) && !layout.secondary.holds(x, y)
                && !layout.submit.holds(x, y) && !layout.remember.holds(x, y) ==> step.state == at
                && !step.publish && step.submission is None
        }),
{
    crate::layout::law_controls_do_not_overlap(size, false, state.takeover_required, x, y);
}

/// On the choice of the display fit tab and the arrow keys change between scaling and
/// matching, where the vertical ones are not needed to go between two boxes; the space
/// bar ticks or clears the box at hand; doing it twice undoes it.
#[verifier::spinoff_prover]
#[verifier::rlimit(60)]
pub proof fn law_keys_on_the_choice(
    state: AccessModel,
    other: bool,
    extended: bool,
    code: u8,
)
    requires
        choice_is_open(state),
    ensures
        ({
            let step = state.key_step(KeyboardEvent::Pressed { code, extended }, other);
            let changes = code == 15 || code == 75 || code == 77 || (!state.takeover_required && (
            code == 72 || code == 80));
            &&& changes ==> step.state == (AccessModel {
                resolution_selection: if state.resolution_selection is Scale {
                    ResolutionSelection::MatchDisplay
                } else {
                    ResolutionSelection::Scale
                },
                status: AccessStatus::ResolutionRequired,
                ..state
            })
            &&& state.takeover_required && (code == 72 || code == 80) ==> step.state.remember.marked
                != state.remember.marked && step.state.disconnect_others == state.disconnect_others
                && step.state.resolution_selection == state.resolution_selection
            &&& code == 57 && state.takeover_required && !state.remember.marked ==> step.state == (
            AccessModel {
                disconnect_others: !state.disconnect_others,
                status: AccessStatus::ResolutionRequired,
                ..state
            })
            &&& code == 57 && (!state.takeover_required || state.remember.marked)
                ==> step.state.remember.fit != state.remember.fit && step.state.disconnect_others
                == state.disconnect_others && step.state.remember.client == state.remember.client
            &&& code != 28 ==> step.action is None && !step.proceeds && step.state.presentation
                == state.presentation && step.state.resolution_policy == state.resolution_policy
            &&& code != 15 && code != 75 && code != 77 && code != 72 && code != 80 && code != 57
                && code != 28 ==> step.state == state
            &&& step.publish && step.submission is None
        }),
{
}

/// A click on an option of the display fit chooses it, a click on the box for other
/// clients ticks or clears it, and a click on the button does what enter does.
#[verifier::spinoff_prover]
#[verifier::rlimit(80)]
pub proof fn law_clicks_on_the_choice(
    state: AccessModel,
    other: bool,
    size: DesktopSize,
    x: u16,
    y: u16,
)
    requires
        choice_is_open(state),
        state.client_size == Some(size),
        size.height >= 480,
    ensures
        ({
            let layout = crate::layout::layout_of(size, true, state.takeover_required);
            let step = state.mouse_step(left_click(x, y), other);
            let at = AccessModel { pointer: (x, y), ..state };
            &&& layout.primary.holds(x, y) ==> step.state == (AccessModel {
                resolution_selection: ResolutionSelection::Scale,
                status: AccessStatus::ResolutionRequired,
                ..at
            })
            &&& layout.secondary.holds(x, y) ==> step.state == (AccessModel {
                resolution_selection: ResolutionSelection::MatchDisplay,
                status: AccessStatus::ResolutionRequired,
                ..at
            })
            &&& (layout.takeover matches Some(rect) && rect.holds(x, y))
                ==> step.state.disconnect_others != state.disconnect_others
                && step.state.remember.fit == state.remember.fit && step.state.resolution_selection
                == state.resolution_selection
            &&& layout.remember.holds(x, y) ==> step.state.remember.fit != state.remember.fit
                && step.state.disconnect_others == state.disconnect_others
            &&& layout.submit.holds(x, y) ==> step == at.key_step(
                KeyboardEvent::Pressed { code: 28, extended: false },
                other,
            )
            &&& !layout.submit.holds(x, y) ==> step.action is None && !step.proceeds
                && step.state.presentation == state.presentation
        }),
{
    crate::layout::law_controls_do_not_overlap(size, true, state.takeover_required, x, y);
}

/// Only moves and left clicks matter to the access screen: a move takes the pointer along,
/// everything else changes nothing.
#[verifier::spinoff_prover]
pub proof fn law_only_moves_and_left_clicks_matter(
    state: AccessModel,
    other: bool,
    mouse: MouseEvent,
    x: u16,
    y: u16,
)
    ensures
        state.mouse_step(MouseEvent::Move { x, y }, other).state == (AccessModel {
            pointer: (x, y),
            ..state
        }),
        !state.mouse_step(MouseEvent::Move { x, y }, other).publish,
        !(mouse is Move) && !(mouse matches MouseEvent::Button { button, pressed, .. } && button
            == MouseButton::Left && pressed) ==> state.mouse_step(mouse, other).state == state
            && !state.mouse_step(mouse, other).publish && state.mouse_step(
            mouse,
            other,
        ).action is None,
{
}

/// Enter puts the chosen fit into force. Scaling shows the desktop scaled and asks for no
/// other mode; matching shows it scaled too until the display has changed, and asks for
/// the size of the client. Where another client owns the display nothing but the
/// question for a takeover comes of it, until the box is ticked.
#[verifier::spinoff_prover]
#[verifier::rlimit(60)]
pub proof fn law_enter_applies_the_choice(
    state: AccessModel,
    other: bool,
    extended: bool,
    client: DesktopSize,
)
    requires
        choice_is_open(state),
        state.client_size == Some(client),
    ensures
        ({
            let step = state.key_step(KeyboardEvent::Pressed { code: 28, extended }, other);
            &&& other && !state.disconnect_others ==> step.state == (AccessModel {
                takeover_required: true,
                status: AccessStatus::TakeoverConfirmationRequired,
                presentation: None,
                ..state
            }) && step.action is None && !step.proceeds && step.remember is None
            &&& !other || state.disconnect_others ==> {
                &&& step.state == (AccessModel {
                    takeover_required: false,
                    disconnect_others: false,
                    resolution_policy: Some(state.resolution_selection),
                    presentation: Some(DesktopPresentation::Scale),
                    status: AccessStatus::Granted,
                    ..state
                })
                &&& step.state.snapshot().desktop_ready()
                &&& step.proceeds
                &&& state.resolution_selection is Scale ==> step.action is None
                &&& state.resolution_selection is MatchDisplay ==> step.action == Some(
                    AccessAction::ChangeDisplaySize(client),
                )
            }
            &&& step.publish && step.submission is None
        }),
{
}

/// While an account is checked, the desktop is open, or the signed-in client waits for the
/// desktop, keys and clicks change nothing but the pointer's place.
#[verifier::spinoff_prover]
#[verifier::rlimit(40)]
pub proof fn law_closed_forms_ignore_input(
    state: AccessModel,
    key: KeyboardEvent,
    mouse: MouseEvent,
    other: bool,
)
    requires
        !form_is_open(state),
        !choice_is_open(state),
    ensures
        state.key_step(key, other).state == state,
        !state.key_step(key, other).publish,
        state.key_step(key, other).submission is None,
        state.mouse_step(mouse, other).state == (AccessModel {
            pointer: state.mouse_step(mouse, other).state.pointer,
            ..state
        }),
        !state.mouse_step(mouse, other).publish,
        state.mouse_step(mouse, other).submission is None,
        state.mouse_step(mouse, other).action is None,
{
}

/// A check says what comes next. An accepted client that may have the desktop waits for it
/// where it is not available, sees it at once where the sizes agree, and chooses a fit
/// otherwise; one that finds another owner is asked for a takeover. A refused or failed one
/// is told so and keeps the account that it typed, with the password to type again.
#[verifier::spinoff_prover]
pub proof fn law_check_says_what_comes_next(
    state: AccessModel,
    username: Seq<char>,
    other: bool,
)
    ensures
        ({
            let accepted = state.after_validation(
                state.generation,
                username,
                Ok::<bool, ValidationFailure>(true),
                other,
            );
            let agree = state.client_size is Some && state.client_size == state.host_size;
            &&& accepted.authenticated && accepted.username == crate::text::trimmed(username)
            &&& accepted.takeover_required == other && !accepted.disconnect_others
            &&& other ==> accepted.status is ResolutionRequired && accepted.presentation is None
                && accepted.resolution_policy is None && accepted.resolution_selection is Scale
            &&& !other && !state.host_available ==> accepted.status is WaitingForDesktop
                && accepted.presentation is None
            &&& !other && state.host_available && agree ==> accepted.status is Granted
                && accepted.presentation == Some(DesktopPresentation::Native)
                && accepted.resolution_policy == Some(ResolutionSelection::Scale)
            &&& !other && state.host_available && !agree ==> accepted.status is ResolutionRequired
                && accepted.presentation is None && accepted.resolution_policy is None
                && accepted.resolution_selection is Scale
            &&& accepted.client_size == state.client_size && accepted.host_size == state.host_size
                && accepted.host_available == state.host_available && accepted.generation
                == state.generation
        }),
        ({
            let refused = state.after_validation(
                state.generation,
                username,
                Ok::<bool, ValidationFailure>(false),
                other,
            );
            let failed = state.after_validation(
                state.generation,
                username,
                Err::<bool, ValidationFailure>(ValidationFailure),
                other,
            );
            &&& refused.status is Rejected && failed.status is BackendError
            &&& refused == (AccessModel {
                password: Seq::empty(),
                status: AccessStatus::Rejected,
                authenticated: false,
                resolution_policy: None,
                presentation: None,
                focus: AccessField::Password,
                ..state
            })
            &&& failed == (AccessModel { status: AccessStatus::BackendError, ..refused })
        }),
{
}

/// While an account is checked nobody is signed in, its name stands on the form and the
/// password is gone; what is known of the displays stays.
pub proof fn law_checking_signs_out(state: AccessModel, username: Seq<char>)
    ensures
        ({
            let checking = state.checking(username);
            &&& checking.username == crate::text::trimmed(username)
            &&& checking.password.len() == 0 && !checking.authenticated
            &&& checking.status is Checking && checking.presentation is None
            &&& checking.resolution_policy is None && !checking.takeover_required
                && !checking.disconnect_others
            &&& checking.client_size == state.client_size && checking.host_size == state.host_size
                && checking.host_available == state.host_available && checking.generation
                == state.generation
        }),
{
}

/// News of the displays decides what a signed-in client sees. Another owner closes the
/// desktop and asks for a takeover; an unavailable desktop is waited for; equal sizes
/// show it pixel by pixel; otherwise it is scaled where the client chose so, or chose that
/// the display follows and saw it scaled, and a choice is asked for where it did not.
#[verifier::spinoff_prover]
#[verifier::rlimit(40)]
pub proof fn law_display_news_decide_what_is_seen(
    state: AccessModel,
    client: DesktopSize,
    host: DesktopSize,
    available: bool,
    other: bool,
)
    ensures
        ({
            let next = state.after_display_state(client, host, available, other);
            &&& next.client_size == Some(client) && next.host_size == Some(host)
                && next.host_available == available
            &&& next.takeover_required == (state.authenticated && other)
            &&& next.authenticated == state.authenticated && next.username == state.username
                && next.resolution_policy == state.resolution_policy
            &&& !state.authenticated ==> next.status == state.status && next.presentation
                == state.presentation
            &&& state.authenticated && other ==> next.presentation is None
                && next.status is ResolutionRequired
            &&& state.authenticated && !other && !available ==> next.presentation is None
                && next.status is WaitingForDesktop
            &&& state.authenticated && !other && available ==> {
                let follows = state.resolution_policy == Some(ResolutionSelection::MatchDisplay)
                    && state.presentation == Some(DesktopPresentation::Scale);
                let scales = state.resolution_policy == Some(ResolutionSelection::Scale);
                &&& client == host ==> next.presentation == Some(DesktopPresentation::Native)
                    && next.status is Granted
                &&& client != host && (scales || follows) ==> next.presentation == Some(
                    DesktopPresentation::Scale,
                ) && next.status is Granted
                &&& client != host && !scales && !follows ==> next.presentation is None
                    && next.status is ResolutionRequired
            }
        }),
{
}

/// A canvas of another size is adopted; a signed-in client that does not own the display is
/// asked for a takeover, waits for a desktop that is not available, and otherwise goes on
/// with what it chose: pixel by pixel where the sizes agree, scaled where they do not.
/// The display is asked to follow exactly where the user chose that it does, and it has
/// another size.
#[verifier::spinoff_prover]
#[verifier::rlimit(40)]
pub proof fn law_canvas_changes_keep_the_choice(
    state: AccessModel,
    client: DesktopSize,
    owns: bool,
)
    ensures
        ({
            let next = state.after_client_resize(client, owns);
            let agree = state.host_size == Some(client);
            &&& next.client_size == Some(client)
            &&& next.authenticated == state.authenticated && next.host_size == state.host_size
            &&& !state.authenticated ==> next == (AccessModel {
                client_size: Some(client),
                ..state
            })
            &&& state.authenticated && !owns ==> next.takeover_required && next.presentation is None
                && next.status is ResolutionRequired
            &&& state.authenticated && owns && !state.host_available ==> next.presentation is None
                && next.status is WaitingForDesktop
            &&& state.authenticated && owns && state.host_available ==> {
                &&& agree ==> next.presentation == Some(DesktopPresentation::Native)
                    && next.status is Granted
                &&& !agree && state.resolution_policy is Some ==> next.presentation == Some(
                    DesktopPresentation::Scale,
                ) && next.status is Granted
                &&& !agree && state.resolution_policy is None ==> next.presentation is None
                    && next.status is ResolutionRequired
                &&& state.resolution_policy is Some ==> next.resolution_policy
                    == state.resolution_policy
            }
        }),
        state.resize_action(client, owns) == if state.authenticated && owns && state.host_available
            && state.resolution_policy == Some(ResolutionSelection::MatchDisplay)
            && state.host_size != Some(client) {
            Some(AccessAction::ChangeDisplaySize(client))
        } else {
            None
        },
        state.follows(client, owns) <==> state.authenticated && state.host_available && owns
            && state.resolution_policy == Some(ResolutionSelection::MatchDisplay)
            && state.client_size == Some(client),
{
}

/// A display that could not be changed is shown scaled to a client that wanted it to follow.
/// Nobody else notices.
pub proof fn law_failed_change_is_scaled(state: AccessModel)
    ensures
        ({
            let wanted = state.authenticated && state.resolution_policy == Some(
                ResolutionSelection::MatchDisplay,
            );
            let next = state.after_failed_change();
            &&& wanted ==> next == (AccessModel {
                presentation: Some(DesktopPresentation::Scale),
                status: AccessStatus::Granted,
                ..state
            })
            &&& !wanted ==> next == state
        }),
{
}

/// A disconnect leaves nothing of a client behind: the form is empty, nobody is signed in,
/// and a check that still runs is one of an earlier connection. The host's display is
/// still known.
pub proof fn law_disconnect_leaves_nothing_behind(state: AccessModel)
    ensures
        ({
            let next = state.after_reset();
            &&& next.username.len() == 0 && next.password.len() == 0
            &&& !next.authenticated && next.status is Ready && next.focus is Username
            &&& next.client_size is None && next.presentation is None
                && next.resolution_policy is None && next.resolution_selection is Scale
            &&& !next.takeover_required && !next.disconnect_others && !next.shift
                && !next.caps_lock
            &&& next.generation == if state.generation == u64::MAX {
                0
            } else {
                state.generation + 1
            }
            &&& next.host_size == state.host_size && next.host_available == state.host_available
        }),
{
}

/// The desktop is shown to a signed-in client with a presentation that need not take the
/// display over, and to nobody else.
pub proof fn law_desktop_is_open_exactly_when(state: AccessModel)
    ensures
        state.snapshot().desktop_ready() <==> state.authenticated && state.presentation is Some
            && !state.takeover_required,
{
}

/// The screen shows what the barrier knows, but of the password its length alone.
pub proof fn law_screen_shows_the_state(state: AccessModel, password: Seq<char>)
    ensures
        ({
            let shown = state.snapshot();
            &&& shown.username == state.username && shown.password_length == state.password.len()
            &&& shown.focus == state.focus && shown.status == state.status
            &&& shown.authenticated == state.authenticated
            &&& shown.client_size == state.client_size && shown.host_size == state.host_size
            &&& shown.host_available == state.host_available
            &&& shown.resolution_selection == state.resolution_selection
                && shown.resolution_policy == state.resolution_policy
            &&& shown.presentation == state.presentation
            &&& shown.takeover_required == state.takeover_required && shown.disconnect_others
                == state.disconnect_others
            &&& shown.remember == state.remember
        }),
        password.len() == state.password.len() ==> (AccessModel {
            password,
            ..state
        }).snapshot() == state.snapshot(),
{
}

/// A published state is what watchers see from then on, under the next revision; news that
/// change nothing that is shown are not published.
pub proof fn law_watchers_see_what_is_published(gate: GateModel, state: AccessModel)
    ensures
        gate.publishing(state).published == state.snapshot(),
        gate.publishing(state).state == state,
        gate.publishing(state).revision == if gate.revision == u64::MAX {
            0
        } else {
            gate.revision + 1
        },
        gate.publishing(state).session == gate.session,
        gate.publishing(state).remembered == gate.remembered,
        gate.updated(state).state == state,
        state.snapshot() == gate.state.snapshot() ==> gate.updated(state).revision == gate.revision
            && gate.updated(state).published == gate.published,
        state.snapshot() != gate.state.snapshot() ==> gate.updated(state) == gate.publishing(state),
{
}

/// Another session owns the display where there is an owner that is not this one; a barrier
/// without a session owns it alone.
pub proof fn law_ownership_is_the_sessions(gate: GateModel, sessions: SessionModel, id: u64)
    ensures
        gate.session is None ==> !gate.other_owner(sessions) && gate.owns_display(sessions),
        gate.session == Some(id) ==> gate.owns_display(sessions) == (sessions.owner == Some(id)),
        gate.session == Some(id) ==> gate.other_owner(sessions) == (sessions.owner is Some
            && sessions.owner != Some(id)),
{
}

/// A fresh connection shows an empty form with the focus on the account and nobody signed in;
/// nothing is ticked, and what remembering the client means is what was told of it.
pub proof fn law_fresh_screen_is_empty(detail: Seq<char>)
    ensures
        ({
            let state = AccessModel::of_client(detail);
            &&& state.username.len() == 0 && state.password.len() == 0
            &&& state.focus == AccessField::Username && state.status == AccessStatus::Ready
            &&& !state.authenticated && !state.shift && !state.caps_lock && state.generation == 0
            &&& state.client_size is None && state.host_size is None && !state.host_available
            &&& state.resolution_selection == ResolutionSelection::Scale
            &&& state.resolution_policy is None && state.presentation is None
            &&& !state.takeover_required && !state.disconnect_others
            &&& !state.remember.client && !state.remember.fit && !state.remember.marked
            &&& state.remember.detail == detail
            &&& !state.snapshot().desktop_ready()
        }),
{
}

/// Each box of the screen is ticked by itself.
pub proof fn law_boxes_are_ticked_one_by_one(boxes: BoxesModel, marked: bool)
    ensures
        ({
            let client = boxes.with_client_changed();
            let fit = boxes.with_fit_changed();
            let mark = boxes.with_mark(marked);
            &&& client.client != boxes.client && client.fit == boxes.fit && client.marked
                == boxes.marked && client.detail == boxes.detail
            &&& fit.fit != boxes.fit && fit.client == boxes.client && fit.marked == boxes.marked
                && fit.detail == boxes.detail
            &&& mark.marked == marked && mark.client == boxes.client && mark.fit == boxes.fit
                && mark.detail == boxes.detail
        }),
        crate::access::remembered_of(ResolutionSelection::Scale) is Scale,
        crate::access::remembered_of(ResolutionSelection::MatchDisplay) is MatchDisplay,
{
}

} // verus!
