//! What the access barrier guarantees over all its states and inputs.

use vstd::prelude::*;

use crate::access::{
    AccessAction, AccessField, AccessModel, AccessStatus, DesktopPresentation, GateModel,
    ResolutionSelection, ValidationFailure,
};
use crate::config::ConfigModel;
use crate::events::{KeyboardEvent, MouseEvent};
use crate::platform::DesktopSize;
use crate::session::SessionModel;
use crate::trusted_clients::RememberedResolution;

verus! {

/// Nothing but an accepted account signs a client in: keys, clicks, display news,
/// remembered choices and resets leave a client that is not signed in outside, and its
/// desktop closed. `law_only_trust_signs_in_again` says when a remembered account counts
/// as accepted.
pub proof fn law_only_validation_signs_in(
    state: AccessModel,
    key: KeyboardEvent,
    mouse: MouseEvent,
    client: DesktopSize,
    host: DesktopSize,
    available: bool,
    other: bool,
    owns: bool,
    username: Seq<char>,
    remembered: Option<RememberedResolution>,
)
    requires
        !state.authenticated,
    ensures
        !state.snapshot().desktop_ready(),
        !state.key_step(key, other).state.authenticated,
        !state.mouse_step(mouse, other).state.authenticated,
        !state.after_display_state(client, host, available, other).authenticated,
        !state.after_client_resize(client, owns).authenticated,
        !state.checking(username).authenticated,
        !state.fit_again(remembered, owns).state.authenticated,
        !state.after_failed_change().authenticated,
        !state.after_reset().authenticated,
{
}

/// A check signs a client in only if it is the check of the present connection and
/// the account was accepted; a refused or failed check signs the client out.
pub proof fn law_validation_decides(
    state: AccessModel,
    generation: u64,
    username: Seq<char>,
    result: Result<bool, ValidationFailure>,
    other: bool,
)
    requires
        generation == state.generation || !state.authenticated,
    ensures
        state.after_validation(generation, username, result, other).authenticated <==> (generation
            == state.generation && result == Ok::<bool, ValidationFailure>(true)),
{
}

/// The outcome of a check that was started before a disconnect does not reach the
/// next connection.
pub proof fn law_stale_outcome_is_ignored(
    state: AccessModel,
    username: Seq<char>,
    result: Result<bool, ValidationFailure>,
    other: bool,
)
    ensures
        state.after_reset().after_validation(state.generation, username, result, other)
            == state.after_reset(),
{
}

/// While the desktop is unavailable it is not opened: news that it is gone closes
/// it, and sign-ins, keys, clicks, canvas changes and remembered choices do not open it.
pub proof fn law_unavailable_desktop_stays_closed(
    state: AccessModel,
    key: KeyboardEvent,
    mouse: MouseEvent,
    client: DesktopSize,
    host: DesktopSize,
    generation: u64,
    username: Seq<char>,
    result: Result<bool, ValidationFailure>,
    other: bool,
    owns: bool,
    remembered: Option<RememberedResolution>,
)
    requires
        !state.host_available,
        !state.snapshot().desktop_ready(),
    ensures
        !state.after_display_state(client, host, false, other).snapshot().desktop_ready(),
        !state.after_client_resize(client, owns).snapshot().desktop_ready(),
        !state.after_validation(generation, username, result, other).snapshot().desktop_ready(),
        !state.key_step(key, other).state.snapshot().desktop_ready(),
        !state.mouse_step(mouse, other).state.snapshot().desktop_ready(),
        !state.fit_again(remembered, owns).state.snapshot().desktop_ready(),
{
}

/// News that the desktop is unavailable closes it in every state.
pub proof fn law_losing_the_desktop_closes_it(
    state: AccessModel,
    client: DesktopSize,
    host: DesktopSize,
    other: bool,
)
    ensures
        !state.after_display_state(client, host, false, other).snapshot().desktop_ready(),
{
}

/// A client that chose scaling never changes the physical display.
pub proof fn law_scaling_leaves_the_display_alone(
    state: AccessModel,
    client: DesktopSize,
    owns: bool,
)
    requires
        state.resolution_policy == Some(ResolutionSelection::Scale),
    ensures
        state.resize_action(client, owns) is None,
        !state.follows(client, owns),
        state.after_client_resize(client, owns).resolution_policy == state.resolution_policy,
{
}

/// The physical display is changed by a canvas change only for a signed-in owner
/// who chose that it follows, and then to the size of the client; by the choice
/// itself only if it is that choice.
pub proof fn law_display_follows_only_by_choice(
    state: AccessModel,
    key: KeyboardEvent,
    mouse: MouseEvent,
    client: DesktopSize,
    owns: bool,
    other: bool,
)
    ensures
        state.resize_action(client, owns) matches Some(action) ==> {
            &&& action == AccessAction::ChangeDisplaySize(client)
            &&& state.authenticated && owns
            &&& state.resolution_policy == Some(ResolutionSelection::MatchDisplay)
        },
        state.key_step(key, other).action is Some ==> state.authenticated
            && state.resolution_selection == ResolutionSelection::MatchDisplay,
        state.mouse_step(mouse, other).action is Some ==> state.authenticated
            && state.resolution_selection == ResolutionSelection::MatchDisplay,
{
}

/// A display that another session owns is taken over only after the user has
/// confirmed that, and signing in does not count as a confirmation.
pub proof fn law_takeover_needs_confirmation(
    state: AccessModel,
    key: KeyboardEvent,
    mouse: MouseEvent,
    username: Seq<char>,
)
    ensures
        state.key_step(key, true).proceeds ==> state.authenticated && state.disconnect_others,
        state.mouse_step(mouse, true).proceeds ==> state.authenticated && state.disconnect_others,
        ({
            let accepted = state.after_validation(
                state.generation,
                username,
                Ok::<bool, ValidationFailure>(true),
                true,
            );
            !accepted.disconnect_others && !accepted.snapshot().desktop_ready()
        }),
{
}

/// Trust never opens the desktop while another session owns it: a client that is signed
/// in again is asked for a takeover like any other, and the display fit that is
/// remembered of it waits until it owns the display.
pub proof fn law_trust_never_takes_the_desktop(
    gate: GateModel,
    config: ConfigModel,
    computer: Option<Seq<char>>,
    sessions: SessionModel,
)
    requires
        gate.other_owner(sessions),
        !gate.state.snapshot().desktop_ready(),
    ensures
        ({
            let recalled = gate.signed_in_again(config, computer, sessions);
            let step = recalled.state.fit_again(
                recalled.remembered.resolution,
                recalled.owns_display(sessions),
            );
            &&& !recalled.state.snapshot().desktop_ready()
            &&& recalled != gate ==> recalled.state.takeover_required
                && !recalled.state.disconnect_others
            &&& recalled.after_step(step) == recalled
            &&& step.action is None
        }),
{
}

/// A client that is outside is signed in without a check exactly where an account is
/// remembered of it that may still connect, and no check is running.
pub proof fn law_only_trust_signs_in_again(
    gate: GateModel,
    config: ConfigModel,
    computer: Option<Seq<char>>,
    sessions: SessionModel,
)
    requires
        !gate.state.authenticated,
    ensures
        gate.signed_in_again(config, computer, sessions).state.authenticated <==> gate.trusts(
            config,
            computer,
        ) && gate.state.status != AccessStatus::Checking,
{
}

/// A client whose account may not connect any more, or of which no account is
/// remembered, must sign in.
pub proof fn law_account_no_longer_allowed_must_sign_in(
    gate: GateModel,
    config: ConfigModel,
    computer: Option<Seq<char>>,
    sessions: SessionModel,
)
    requires
        gate.remembered.trusted_username matches Some(username) ==> !config.allows(
            crate::auth::candidates(
                crate::auth::account_parts(username).0,
                crate::auth::account_parts(username).1,
                computer,
            ),
        ),
    ensures
        gate.signed_in_again(config, computer, sessions) == gate,
{
}

/// A remembered display fit is applied to a signed-in owner only, and never over a choice
/// that the user has made; the display is changed only if the remembered choice is that
/// it follows the client, and then to the size of the client.
pub proof fn law_remembered_fit_needs_control(
    state: AccessModel,
    remembered: Option<RememberedResolution>,
    owns: bool,
)
    ensures
        state.fit_again(remembered, owns).state != state ==> state.authenticated && owns
            && state.host_available && state.resolution_policy is None,
        state.fit_again(remembered, owns).action matches Some(action) ==> {
            &&& remembered == Some(RememberedResolution::MatchDisplay)
            &&& state.authenticated && owns
            &&& state.client_size matches Some(client)
            &&& action == AccessAction::ChangeDisplaySize(client)
        },
        !state.fit_again(remembered, owns).proceeds,
{
}

/// The account of a client is remembered exactly where the user ticked the box and the
/// check of the present connection accepts it; the box is ticked by a key or a click on
/// the sign-in form alone, and a fresh form has it cleared.
pub proof fn law_client_is_remembered_by_choice(
    state: AccessModel,
    generation: u64,
    username: Seq<char>,
    result: Result<bool, ValidationFailure>,
    other: bool,
    key: KeyboardEvent,
    mouse: MouseEvent,
    detail: Seq<char>,
)
    ensures
        state.account_to_remember(generation, username, result) is Some <==> state.remember.client
            && generation == state.generation && result == Ok::<bool, ValidationFailure>(true),
        state.account_to_remember(generation, username, result) matches Some(account) ==> {
            let accepted = state.after_validation(generation, username, result, other);
            accepted.authenticated && accepted.username == account
        },
        state.key_step(key, other).state.remember.client != state.remember.client
            ==> !state.authenticated && state.focus == AccessField::Remember,
        state.mouse_step(mouse, other).state.remember.client != state.remember.client
            ==> !state.authenticated && mouse is Button,
        !AccessModel::of_client(detail).remember.client,
        !state.after_reset().remember.client,
{
    lemma_keys_tick_the_client_box(state, key, other);
    lemma_clicks_tick_the_client_box(state, mouse, other);
}

#[verifier::spinoff_prover]
proof fn lemma_keys_tick_the_client_box(state: AccessModel, key: KeyboardEvent, other: bool)
    ensures
        state.key_step(key, other).state.remember.client != state.remember.client
            ==> !state.authenticated && state.focus == AccessField::Remember,
{
    if state.authenticated {
        assert(state.resolution_key(key).0.remember.client == state.remember.client);
    } else if state.focus != AccessField::Remember {
        assert(state.login_key(key).0.remember == state.remember);
    }
}

#[verifier::spinoff_prover]
proof fn lemma_clicks_tick_the_client_box(state: AccessModel, mouse: MouseEvent, other: bool)
    ensures
        state.mouse_step(mouse, other).state.remember.client != state.remember.client
            ==> !state.authenticated && mouse is Button,
{
}

/// A display fit is remembered exactly where the user ticked the box and the choice is
/// applied, and it is the choice that comes into force.
pub proof fn law_fit_is_remembered_by_choice(
    state: AccessModel,
    other: bool,
    key: KeyboardEvent,
    mouse: MouseEvent,
)
    ensures
        state.apply_choice(other).remember is Some <==> state.remember.fit && state.apply_choice(
            other,
        ).proceeds && state.can_fit(),
        state.apply_choice(other).remember matches Some(resolution) ==> state.apply_choice(
            other,
        ).state.resolution_policy == Some(crate::access::selection_of(resolution)),
        state.key_step(key, other).remember is Some ==> state.authenticated && state.remember.fit
            && state.key_step(key, other).proceeds,
        state.mouse_step(mouse, other).remember is Some ==> state.authenticated
            && state.remember.fit && state.mouse_step(mouse, other).proceeds,
{
}

/// A password does not outlive the check that it was typed for: it is gone from
/// the form when it is handed over, when a check begins or ends, and after a
/// disconnect.
pub proof fn law_password_is_forgotten(
    state: AccessModel,
    key: KeyboardEvent,
    mouse: MouseEvent,
    username: Seq<char>,
    result: Result<bool, ValidationFailure>,
    other: bool,
)
    ensures
        state.key_step(key, other).submission is Some ==> state.key_step(
            key,
            other,
        ).state.password.len() == 0,
        state.mouse_step(mouse, other).submission is Some ==> state.mouse_step(
            mouse,
            other,
        ).state.password.len() == 0,
        state.checking(username).password.len() == 0,
        state.after_validation(state.generation, username, result, other).password.len() == 0,
        state.after_reset().password.len() == 0,
{
}

/// Typing keeps the fields of the form within their limit.
#[verifier::spinoff_prover]
#[verifier::rlimit(60)]
pub proof fn law_fields_stay_within_their_limit(
    state: AccessModel,
    key: KeyboardEvent,
    mouse: MouseEvent,
    other: bool,
)
    requires
        state.password.len() <= crate::access::MAX_FIELD_LENGTH,
        state.username.len() <= crate::access::MAX_FIELD_LENGTH,
    ensures
        state.key_step(key, other).state.password.len() <= crate::access::MAX_FIELD_LENGTH,
        state.key_step(key, other).state.username.len() <= crate::access::MAX_FIELD_LENGTH,
        state.mouse_step(mouse, other).state.password.len() <= crate::access::MAX_FIELD_LENGTH,
        state.mouse_step(mouse, other).state.username.len() <= crate::access::MAX_FIELD_LENGTH,
{
}

/// A client whose canvas has the size of an available desktop that nobody else
/// owns sees it at once after signing in, pixel by pixel.
pub proof fn law_matching_displays_open_at_once(
    state: AccessModel,
    username: Seq<char>,
    size: DesktopSize,
)
    requires
        state.host_available,
        state.client_size == Some(size),
        state.host_size == Some(size),
    ensures
        ({
            let accepted = state.after_validation(
                state.generation,
                username,
                Ok::<bool, ValidationFailure>(true),
                false,
            );
            accepted.snapshot().desktop_ready() && accepted.presentation == Some(
                DesktopPresentation::Native,
            )
        }),
{
}

/// A client whose canvas differs from the desktop stays gated after signing in
/// until it has chosen a fit, and sees the desktop once it has.
pub proof fn law_differing_displays_wait_for_a_choice(
    state: AccessModel,
    username: Seq<char>,
    client: DesktopSize,
)
    requires
        state.host_available,
        state.client_size == Some(client),
        state.host_size != Some(client),
    ensures
        ({
            let accepted = state.after_validation(
                state.generation,
                username,
                Ok::<bool, ValidationFailure>(true),
                false,
            );
            let chosen = accepted.key_step(
                KeyboardEvent::Pressed { code: 28, extended: false },
                false,
            );
            &&& !accepted.snapshot().desktop_ready()
            &&& accepted.status == AccessStatus::ResolutionRequired
            &&& chosen.state.snapshot().desktop_ready()
            &&& chosen.action is None
        }),
{
}

} // verus!
