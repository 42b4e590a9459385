//! The barrier between a connected client and the desktop.
//!
//! A client sees nothing but the access screen until its account has been
//! verified, a display fit has been chosen and no other client owns the display.
//! The barrier is a state machine: it takes keys, clicks, display changes and the
//! outcome of account checks, and says what the program around it has to do.

use vstd::prelude::*;

use crate::auth::is_account_allowed;
use crate::config::{AppConfig, ConfigModel};
use crate::events::{KeyboardEvent, MouseButton, MouseEvent};
use crate::layout::UiLayout;
use crate::platform::DesktopSize;
use crate::scene::{render_access_frame, Scene};
use crate::session::{SessionCoordinator, SessionLease, SessionModel};
use crate::trust::ClientIdentity;
use crate::trusted_clients::{ClientPreferences, PreferencesModel, RememberedResolution};

verus! {

/// The number of characters that a field of the sign-in form can hold.
pub const MAX_FIELD_LENGTH: usize = 256;

/// How the desktop is shown on the client canvas.
#[derive(Clone, Copy, Debug, PartialEq, Eq, Structural)]
pub enum DesktopPresentation {
    /// Pixel by pixel.
    Native,
    /// Scaled in proportion, with bars where needed.
    Scale,
}

/// What the program has to do to the display.
#[derive(Clone, Copy, Debug, PartialEq, Eq, Structural)]
pub enum AccessAction {
    ChangeDisplaySize(DesktopSize),
}

/// What has the focus on the sign-in form: a field, or the box that asks to remember the
/// client.
#[derive(Clone, Copy, Debug, PartialEq, Eq, Structural)]
pub enum AccessField {
    Username,
    Password,
    Remember,
}

/// A choice of the display fit.
#[derive(Clone, Copy, Debug, PartialEq, Eq, Structural)]
pub enum ResolutionSelection {
    /// Keep the display as it is and scale.
    Scale,
    /// Change the display to the size of the client.
    MatchDisplay,
}

/// What the access screen tells its user.
#[derive(Clone, Copy, Debug, PartialEq, Eq, Structural)]
pub enum AccessStatus {
    Ready,
    MissingCredentials,
    Checking,
    Rejected,
    BackendError,
    ResolutionRequired,
    WaitingForDesktop,
    TakeoverConfirmationRequired,
    Granted,
}

/// An account could not be checked at all.
#[derive(Clone, Copy, Debug, PartialEq, Eq, Structural)]
pub struct ValidationFailure;

/// Credentials that are to be checked, with the generation of the connection
/// that entered them.
pub struct ValidationSubmission {
    pub generation: u64,
    pub username: String,
    /// The password, which has left the form. Whoever takes the submission wipes it.
    pub password: String,
}

/// What a key or a click asks of the program.
pub struct AccessResponse {
    /// A change of the display.
    pub action: Option<AccessAction>,
    /// Credentials to check.
    pub submission: Option<ValidationSubmission>,
    /// A display fit to remember of the client.
    pub remember: Option<RememberedResolution>,
    /// Sessions to be told to quit because the display was taken over.
    pub disconnected: Vec<u64>,
}

/// The boxes that ask to remember something of the client.
#[derive(Debug)]
pub struct RememberBoxes {
    /// Whether the client is to be remembered once its account is accepted.
    pub client: bool,
    /// Whether the display fit is to be remembered once it is chosen.
    pub fit: bool,
    /// Whether the space bar ticks the box for the fit, where another one stands beside it.
    pub marked: bool,
    /// What remembering the client means.
    pub detail: String,
}

/// The boxes that ask to remember something, as mathematical values.
#[verifier::ext_equal]
pub struct BoxesModel {
    pub client: bool,
    pub fit: bool,
    pub marked: bool,
    pub detail: Seq<char>,
}

impl BoxesModel {
    /// The boxes as the client finds them: nothing is remembered unasked.
    pub open spec fn untouched(detail: Seq<char>) -> BoxesModel {
        BoxesModel { client: false, fit: false, marked: false, detail }
    }

    /// The boxes with the one for the client ticked or cleared.
    pub open spec fn with_client_changed(self) -> BoxesModel {
        BoxesModel { client: !self.client, ..self }
    }

    /// The boxes with the one for the fit ticked or cleared.
    pub open spec fn with_fit_changed(self) -> BoxesModel {
        BoxesModel { fit: !self.fit, ..self }
    }

    /// The boxes with the one for the fit marked or not.
    pub open spec fn with_mark(self, marked: bool) -> BoxesModel {
        BoxesModel { marked, ..self }
    }
}

impl View for RememberBoxes {
    type V = BoxesModel;

    open spec fn view(&self) -> BoxesModel {
        BoxesModel {
            client: self.client,
            fit: self.fit,
            marked: self.marked,
            detail: self.detail@,
        }
    }
}

impl Clone for RememberBoxes {
    fn clone(&self) -> (copy: Self)
        ensures
            copy@ == self@,
    {
        RememberBoxes { detail: self.detail.clone(), ..*self }
    }
}

impl PartialEq for RememberBoxes {
    fn eq(&self, other: &Self) -> (same: bool) {
        self.client == other.client && self.fit == other.fit && self.marked == other.marked
            && self.detail == other.detail
    }
}

impl vstd::std_specs::cmp::PartialEqSpecImpl for RememberBoxes {
    open spec fn obeys_eq_spec() -> bool {
        true
    }

    open spec fn eq_spec(&self, other: &Self) -> bool {
        self@ == other@
    }
}

impl RememberBoxes {
    /// The boxes as the client finds them.
    pub fn new(detail: String) -> (boxes: Self)
        ensures
            boxes@ == BoxesModel::untouched(detail@),
    {
        RememberBoxes { client: false, fit: false, marked: false, detail }
    }
}

/// What the access screen shows.
#[derive(Debug)]
pub struct AccessSnapshot {
    pub username: String,
    pub password_length: usize,
    pub focus: AccessField,
    pub status: AccessStatus,
    pub authenticated: bool,
    pub client_size: Option<DesktopSize>,
    pub host_size: Option<DesktopSize>,
    pub host_available: bool,
    pub resolution_selection: ResolutionSelection,
    pub resolution_policy: Option<ResolutionSelection>,
    pub presentation: Option<DesktopPresentation>,
    pub takeover_required: bool,
    pub disconnect_others: bool,
    pub remember: RememberBoxes,
}

/// The state of a barrier, as mathematical values.
#[verifier::ext_equal]
pub struct AccessModel {
    pub username: Seq<char>,
    pub password: Seq<char>,
    pub focus: AccessField,
    pub status: AccessStatus,
    pub authenticated: bool,
    pub shift: bool,
    pub caps_lock: bool,
    pub generation: u64,
    pub client_size: Option<DesktopSize>,
    pub host_size: Option<DesktopSize>,
    pub host_available: bool,
    pub resolution_selection: ResolutionSelection,
    pub resolution_policy: Option<ResolutionSelection>,
    pub presentation: Option<DesktopPresentation>,
    pub takeover_required: bool,
    pub disconnect_others: bool,
    pub remember: BoxesModel,
    pub pointer: (u16, u16),
}

/// What the access screen shows, as mathematical values.
#[verifier::ext_equal]
pub struct SnapshotModel {
    pub username: Seq<char>,
    pub password_length: nat,
    pub focus: AccessField,
    pub status: AccessStatus,
    pub authenticated: bool,
    pub client_size: Option<DesktopSize>,
    pub host_size: Option<DesktopSize>,
    pub host_available: bool,
    pub resolution_selection: ResolutionSelection,
    pub resolution_policy: Option<ResolutionSelection>,
    pub presentation: Option<DesktopPresentation>,
    pub takeover_required: bool,
    pub disconnect_others: bool,
    pub remember: BoxesModel,
}

impl SnapshotModel {
    /// Whether the desktop may be shown.
    pub open spec fn desktop_ready(self) -> bool {
        self.authenticated && self.presentation is Some && !self.takeover_required
    }
}

impl View for AccessSnapshot {
    type V = SnapshotModel;

    open spec fn view(&self) -> SnapshotModel {
        SnapshotModel {
            username: self.username@,
            password_length: self.password_length as nat,
            focus: self.focus,
            status: self.status,
            authenticated: self.authenticated,
            client_size: self.client_size,
            host_size: self.host_size,
            host_available: self.host_available,
            resolution_selection: self.resolution_selection,
            resolution_policy: self.resolution_policy,
            presentation: self.presentation,
            takeover_required: self.takeover_required,
            disconnect_others: self.disconnect_others,
            remember: self.remember@,
        }
    }
}

impl Clone for AccessSnapshot {
    fn clone(&self) -> (copy: Self)
        ensures
            copy@ == self@,
    {
        AccessSnapshot {
            username: self.username.clone(),
            remember: self.remember.clone(),
            ..*self
        }
    }
}

impl PartialEq for AccessSnapshot {
    fn eq(&self, other: &Self) -> (same: bool) {
        self.username == other.username && self.password_length == other.password_length
            && self.focus == other.focus && self.status == other.status && self.authenticated
            == other.authenticated && self.client_size == other.client_size && self.host_size
            == other.host_size && self.host_available == other.host_available
            && self.resolution_selection == other.resolution_selection && self.resolution_policy
            == other.resolution_policy && self.presentation == other.presentation
            && self.takeover_required == other.takeover_required && self.disconnect_others
            == other.disconnect_others && self.remember == other.remember
    }
}

impl vstd::std_specs::cmp::PartialEqSpecImpl for AccessSnapshot {
    open spec fn obeys_eq_spec() -> bool {
        true
    }

    open spec fn eq_spec(&self, other: &Self) -> bool {
        self@ == other@
    }
}

impl AccessSnapshot {
    /// Whether the desktop may be shown: the account was accepted, a presentation
    /// is chosen and no other client owns the display.
    pub fn is_desktop_ready(&self) -> (ready: bool)
        ensures
            ready == self@.desktop_ready(),
    {
        self.authenticated && self.presentation.is_some() && !self.takeover_required
    }

    /// How the desktop is shown, once it is.
    pub fn presentation(&self) -> (presentation: Option<DesktopPresentation>)
        ensures
            presentation == self@.presentation,
    {
        self.presentation
    }

    /// The size of the client canvas, once it is known.
    pub fn client_size(&self) -> (size: Option<DesktopSize>)
        ensures
            size == self@.client_size,
    {
        self.client_size
    }
}

/// What a key or a click does to a barrier.
#[verifier::ext_equal]
pub struct AccessStep {
    /// The state afterwards.
    pub state: AccessModel,
    /// The change of the display that is asked for.
    pub action: Option<AccessAction>,
    /// The credentials to check: generation, account and password.
    pub submission: Option<(u64, Seq<char>, Seq<char>)>,
    /// The display fit to remember.
    pub remember: Option<RememberedResolution>,
    /// Whether the screen is published anew.
    pub publish: bool,
    /// Whether the client goes on to the desktop, taking the display over if
    /// another session owns it.
    pub proceeds: bool,
}

impl AccessModel {
    /// The state of a fresh connection.
    pub open spec fn initial() -> AccessModel {
        AccessModel {
            username: Seq::empty(),
            password: Seq::empty(),
            focus: AccessField::Username,
            status: AccessStatus::Ready,
            authenticated: false,
            shift: false,
            caps_lock: false,
            generation: 0,
            client_size: None,
            host_size: None,
            host_available: false,
            resolution_selection: ResolutionSelection::Scale,
            resolution_policy: None,
            presentation: None,
            takeover_required: false,
            disconnect_others: false,
            remember: BoxesModel::untouched(Seq::empty()),
            pointer: (0, 0),
        }
    }

    /// The state of a fresh connection of a client; the form says what remembering it
    /// means.
    pub open spec fn of_client(detail: Seq<char>) -> AccessModel {
        AccessModel { remember: BoxesModel::untouched(detail), ..AccessModel::initial() }
    }

    /// What the access screen shows in this state.
    pub open spec fn snapshot(self) -> SnapshotModel {
        SnapshotModel {
            username: self.username,
            password_length: self.password.len(),
            focus: self.focus,
            status: self.status,
            authenticated: self.authenticated,
            client_size: self.client_size,
            host_size: self.host_size,
            host_available: self.host_available,
            resolution_selection: self.resolution_selection,
            resolution_policy: self.resolution_policy,
            presentation: self.presentation,
            takeover_required: self.takeover_required,
            disconnect_others: self.disconnect_others,
            remember: self.remember,
        }
    }

    /// The state after a disconnect: a fresh one of the next generation, which
    /// keeps what is known of the host's display.
    pub open spec fn after_reset(self) -> AccessModel {
        AccessModel {
            generation: self.generation.wrapping_add(1),
            host_size: self.host_size,
            host_available: self.host_available,
            ..AccessModel::initial()
        }
    }

    /// The presentation of a desktop that the client may see, for a canvas of the
    /// given size.
    pub open spec fn fit(self, client: DesktopSize) -> DesktopPresentation {
        if self.host_size == Some(client) {
            DesktopPresentation::Native
        } else {
            DesktopPresentation::Scale
        }
    }

    /// The state after the client has asked for a canvas of another size, where
    /// `owns` says whether it owns the display.
    pub open spec fn after_client_resize(self, client: DesktopSize, owns: bool) -> AccessModel {
        let resized = AccessModel { client_size: Some(client), ..self };
        if !self.authenticated {
            resized
        } else if !owns {
            AccessModel {
                takeover_required: true,
                presentation: None,
                status: AccessStatus::ResolutionRequired,
                ..resized
            }
        } else if !self.host_available {
            AccessModel {
                presentation: None,
                status: AccessStatus::WaitingForDesktop,
                ..resized
            }
        } else if self.resolution_policy is Some {
            AccessModel {
                presentation: Some(self.fit(client)),
                status: AccessStatus::Granted,
                ..resized
            }
        } else if self.host_size == Some(client) {
            AccessModel {
                resolution_policy: Some(ResolutionSelection::Scale),
                presentation: Some(DesktopPresentation::Native),
                status: AccessStatus::Granted,
                ..resized
            }
        } else {
            AccessModel {
                presentation: None,
                status: AccessStatus::ResolutionRequired,
                ..resized
            }
        }
    }

    /// The change of the display that a canvas of another size asks for: none
    /// unless the user has chosen that the display follows the client.
    pub open spec fn resize_action(self, client: DesktopSize, owns: bool) -> Option<AccessAction> {
        if self.authenticated && owns && self.host_available && self.resolution_policy == Some(
            ResolutionSelection::MatchDisplay,
        ) && self.host_size != Some(client) {
            Some(AccessAction::ChangeDisplaySize(client))
        } else {
            None
        }
    }

    /// Whether the display is to follow a canvas of the given size.
    pub open spec fn follows(self, client: DesktopSize, owns: bool) -> bool {
        &&& self.authenticated
        &&& self.host_available
        &&& owns
        &&& self.resolution_policy == Some(ResolutionSelection::MatchDisplay)
        &&& self.client_size == Some(client)
    }

    /// The state after news of the displays, where `other` says whether another
    /// session owns the host's display.
    pub open spec fn after_display_state(
        self,
        client: DesktopSize,
        host: DesktopSize,
        available: bool,
        other: bool,
    ) -> AccessModel {
        let known = AccessModel {
            client_size: Some(client),
            host_size: Some(host),
            host_available: available,
            takeover_required: self.authenticated && other,
            ..self
        };
        if !self.authenticated {
            known
        } else if other {
            AccessModel {
                presentation: None,
                status: AccessStatus::ResolutionRequired,
                ..known
            }
        } else if !available {
            AccessModel { presentation: None, status: AccessStatus::WaitingForDesktop, ..known }
        } else if client == host {
            AccessModel {
                presentation: Some(DesktopPresentation::Native),
                status: AccessStatus::Granted,
                ..known
            }
        } else if self.resolution_policy == Some(ResolutionSelection::Scale) {
            AccessModel {
                presentation: Some(DesktopPresentation::Scale),
                status: AccessStatus::Granted,
                ..known
            }
        } else if self.resolution_policy == Some(ResolutionSelection::MatchDisplay)
            && self.presentation == Some(DesktopPresentation::Scale) {
            AccessModel { status: AccessStatus::Granted, ..known }
        } else {
            AccessModel {
                presentation: None,
                status: AccessStatus::ResolutionRequired,
                ..known
            }
        }
    }

    /// The state while the given account is being checked.
    pub open spec fn checking(self, username: Seq<char>) -> AccessModel {
        AccessModel {
            username: crate::text::trimmed(username),
            password: Seq::empty(),
            status: AccessStatus::Checking,
            authenticated: false,
            resolution_policy: None,
            presentation: None,
            takeover_required: false,
            disconnect_others: false,
            ..self
        }
    }

    /// The state after the check of an account: accepted, refused or failed. A
    /// result for another generation changes nothing.
    pub open spec fn after_validation(
        self,
        generation: u64,
        username: Seq<char>,
        result: Result<bool, ValidationFailure>,
        other: bool,
    ) -> AccessModel {
        if generation != self.generation {
            self
        } else if result == Ok::<bool, ValidationFailure>(true) {
            let accepted = AccessModel {
                username: crate::text::trimmed(username),
                password: Seq::empty(),
                authenticated: true,
                takeover_required: other,
                disconnect_others: false,
                ..self
            };
            if !other && !self.host_available {
                AccessModel {
                    status: AccessStatus::WaitingForDesktop,
                    presentation: None,
                    ..accepted
                }
            } else if !other && self.client_size is Some && self.client_size == self.host_size {
                AccessModel {
                    status: AccessStatus::Granted,
                    resolution_policy: Some(ResolutionSelection::Scale),
                    presentation: Some(DesktopPresentation::Native),
                    ..accepted
                }
            } else {
                AccessModel {
                    status: AccessStatus::ResolutionRequired,
                    resolution_policy: None,
                    presentation: None,
                    resolution_selection: ResolutionSelection::Scale,
                    ..accepted
                }
            }
        } else {
            AccessModel {
                password: Seq::empty(),
                status: if result is Ok {
                    AccessStatus::Rejected
                } else {
                    AccessStatus::BackendError
                },
                authenticated: false,
                resolution_policy: None,
                presentation: None,
                focus: AccessField::Password,
                ..self
            }
        }
    }

    /// The account to remember of the client after a check: the accepted one, where the
    /// box was ticked and the check is that of the present connection.
    pub open spec fn account_to_remember(
        self,
        generation: u64,
        username: Seq<char>,
        result: Result<bool, ValidationFailure>,
    ) -> Option<Seq<char>> {
        if self.remember.client && generation == self.generation && result == Ok::<
            bool,
            ValidationFailure,
        >(true) {
            Some(crate::text::trimmed(username))
        } else {
            None
        }
    }

    /// The state after the display could not be changed as asked: a client that
    /// wanted the display to follow sees it scaled.
    pub open spec fn after_failed_change(self) -> AccessModel {
        if self.authenticated && self.resolution_policy == Some(
            ResolutionSelection::MatchDisplay,
        ) {
            AccessModel {
                presentation: Some(DesktopPresentation::Scale),
                status: AccessStatus::Granted,
                ..self
            }
        } else {
            self
        }
    }

    /// The text of the field that has the focus; the box has none.
    pub open spec fn active_field(self) -> Seq<char> {
        match self.focus {
            AccessField::Username => self.username,
            AccessField::Password => self.password,
            AccessField::Remember => Seq::empty(),
        }
    }

    /// The state with another text in the field that has the focus.
    pub open spec fn with_active_field(self, text: Seq<char>) -> AccessModel {
        match self.focus {
            AccessField::Username => AccessModel { username: text, ..self },
            AccessField::Password => AccessModel { password: text, ..self },
            AccessField::Remember => self,
        }
    }

    /// Whether what has the focus can take a character: a field that is not full any, the
    /// box a space.
    pub open spec fn accepts_character(self, character: char) -> bool {
        if self.focus == AccessField::Remember {
            character == ' '
        } else {
            self.active_field().len() < MAX_FIELD_LENGTH
        }
    }

    /// The state after a character was typed: a space ticks the box or clears it, and a
    /// full field ignores the character.
    pub open spec fn after_character(self, character: char) -> AccessModel {
        if !self.accepts_character(character) {
            self
        } else if self.focus == AccessField::Remember {
            AccessModel { remember: self.remember.with_client_changed(), ..self }
        } else {
            self.with_active_field(self.active_field().push(character))
        }
    }
}

/// The character that a key event types into the sign-in form, if any.
pub open spec fn event_character(event: KeyboardEvent, shift: bool, caps_lock: bool) -> Option<
    char,
> {
    match event {
        KeyboardEvent::Pressed { code, extended } => if extended || code == 42 || code == 54
            || code == 58 || code == 14 || code == 15 || code == 28 {
            None
        } else {
            typed_character(code, shift, caps_lock)
        },
        KeyboardEvent::UnicodePressed(code) => if crate::text::is_scalar_value(code as u32)
            && !crate::text::is_control_code((code as u32) as char) {
            Some((code as u32) as char)
        } else {
            None
        },
        _ => None,
    }
}

impl AccessModel {
    /// What a key event does to the sign-in form: the state afterwards, whether
    /// the form has changed and whether it is submitted.
    pub open spec fn login_key(self, event: KeyboardEvent) -> (AccessModel, bool, bool) {
        match event {
            KeyboardEvent::Pressed { code: 42, .. } => (
                AccessModel { shift: true, ..self },
                false,
                false,
            ),
            KeyboardEvent::Pressed { code: 54, .. } => (
                AccessModel { shift: true, ..self },
                false,
                false,
            ),
            KeyboardEvent::Released { code: 42, .. } => (
                AccessModel { shift: false, ..self },
                false,
                false,
            ),
            KeyboardEvent::Released { code: 54, .. } => (
                AccessModel { shift: false, ..self },
                false,
                false,
            ),
            KeyboardEvent::Pressed { code: 58, .. } => (
                AccessModel { caps_lock: !self.caps_lock, ..self },
                false,
                false,
            ),
            KeyboardEvent::Pressed { code: 14, .. } => (
                if self.active_field().len() == 0 {
                    self
                } else {
                    self.with_active_field(self.active_field().drop_last())
                },
                true,
                false,
            ),
            KeyboardEvent::Pressed { code: 15, .. } => (
                AccessModel {
                    focus: match self.focus {
                        AccessField::Username => AccessField::Password,
                        AccessField::Password => AccessField::Remember,
                        AccessField::Remember => AccessField::Username,
                    },
                    ..self
                },
                true,
                false,
            ),
            KeyboardEvent::Pressed { code: 28, .. } => (self, false, true),
            _ => match event_character(event, self.shift, self.caps_lock) {
                Some(character) => (
                    self.after_character(character),
                    self.accepts_character(character),
                    false,
                ),
                None => (self, false, false),
            },
        }
    }

    /// Whether the form can be submitted.
    pub open spec fn complete(self) -> bool {
        crate::text::trimmed(self.username).len() > 0 && self.password.len() > 0
    }

    /// The state after the form is submitted. The password leaves the form.
    pub open spec fn after_submit(self) -> AccessModel {
        if self.complete() {
            AccessModel { status: AccessStatus::Checking, password: Seq::empty(), ..self }
        } else {
            AccessModel { status: AccessStatus::MissingCredentials, ..self }
        }
    }

    /// The credentials that a submitted form hands over.
    pub open spec fn submitted(self) -> Option<(u64, Seq<char>, Seq<char>)> {
        if self.complete() {
            Some((self.generation, crate::text::trimmed(self.username), self.password))
        } else {
            None
        }
    }

    /// What a key event does to the choice of the display fit: the state
    /// afterwards and whether the choice is applied. The space bar ticks or clears a
    /// box; where there are two, the vertical arrow keys go from one to the other.
    pub open spec fn resolution_key(self, event: KeyboardEvent) -> (AccessModel, bool) {
        match event {
            KeyboardEvent::Pressed { code, .. } => if self.takeover_required && (code == 72
                || code == 80) {
                (
                    AccessModel {
                        remember: self.remember.with_mark(!self.remember.marked),
                        status: AccessStatus::ResolutionRequired,
                        ..self
                    },
                    false,
                )
            } else if code == 15 || code == 75 || code == 77 || code == 72 || code == 80 {
                (
                    AccessModel {
                        resolution_selection: match self.resolution_selection {
                            ResolutionSelection::Scale => ResolutionSelection::MatchDisplay,
                            ResolutionSelection::MatchDisplay => ResolutionSelection::Scale,
                        },
                        status: AccessStatus::ResolutionRequired,
                        ..self
                    },
                    false,
                )
            } else if code == 57 && self.takeover_required && !self.remember.marked {
                (
                    AccessModel {
                        disconnect_others: !self.disconnect_others,
                        status: AccessStatus::ResolutionRequired,
                        ..self
                    },
                    false,
                )
            } else if code == 57 {
                (
                    AccessModel {
                        remember: self.remember.with_fit_changed(),
                        status: AccessStatus::ResolutionRequired,
                        ..self
                    },
                    false,
                )
            } else {
                (self, code == 28)
            },
            _ => (self, false),
        }
    }

    /// Whether the chosen fit can be put into force.
    pub open spec fn can_fit(self) -> bool {
        self.resolution_selection == ResolutionSelection::Scale || self.client_size is Some
    }

    /// What applying the choice does, where `other` says whether another session
    /// owns the display: without a confirmed takeover it is only asked for.
    pub open spec fn apply_choice(self, other: bool) -> AccessStep {
        if other && !self.disconnect_others {
            AccessStep {
                state: AccessModel {
                    takeover_required: true,
                    status: AccessStatus::TakeoverConfirmationRequired,
                    presentation: None,
                    ..self
                },
                action: None,
                submission: None,
                remember: None,
                publish: true,
                proceeds: false,
            }
        } else {
            let confirmed = AccessModel {
                takeover_required: false,
                disconnect_others: false,
                ..self
            };
            AccessStep {
                state: if self.can_fit() {
                    AccessModel {
                        resolution_policy: Some(self.resolution_selection),
                        presentation: Some(DesktopPresentation::Scale),
                        status: AccessStatus::Granted,
                        ..confirmed
                    }
                } else {
                    confirmed
                },
                action: match self.resolution_selection {
                    ResolutionSelection::Scale => None,
                    ResolutionSelection::MatchDisplay => match self.client_size {
                        Some(target) => Some(AccessAction::ChangeDisplaySize(target)),
                        None => None,
                    },
                },
                submission: None,
                remember: if self.remember.fit && self.can_fit() {
                    Some(remembered_of(self.resolution_selection))
                } else {
                    None
                },
                publish: true,
                proceeds: true,
            }
        }
    }

    /// What a remembered display fit does, where `owns` says whether the client owns the
    /// display: it is applied in place of the user's choice, once the client is signed in,
    /// owns an available display and has chosen nothing itself.
    pub open spec fn fit_again(
        self,
        remembered: Option<RememberedResolution>,
        owns: bool,
    ) -> AccessStep {
        match (remembered, self.client_size) {
            (Some(resolution), Some(client)) => if self.authenticated && owns
                && self.host_available && self.resolution_policy is None {
                let selection = selection_of(resolution);
                AccessStep {
                    state: AccessModel {
                        resolution_selection: selection,
                        resolution_policy: Some(selection),
                        presentation: Some(self.fit(client)),
                        status: AccessStatus::Granted,
                        takeover_required: false,
                        disconnect_others: false,
                        ..self
                    },
                    action: if resolution == RememberedResolution::MatchDisplay && self.host_size
                        != Some(client) {
                        Some(AccessAction::ChangeDisplaySize(client))
                    } else {
                        None
                    },
                    submission: None,
                    remember: None,
                    publish: true,
                    proceeds: false,
                }
            } else {
                self.silent()
            },
            _ => self.silent(),
        }
    }

    /// A step that changes nothing that the program would have to see.
    pub open spec fn silent(self) -> AccessStep {
        AccessStep {
            state: self,
            action: None,
            submission: None,
            remember: None,
            publish: false,
            proceeds: false,
        }
    }

    /// A step that only shows this state.
    pub open spec fn shown(self) -> AccessStep {
        AccessStep { publish: true, ..self.silent() }
    }

    /// Whether keys and clicks are ignored: the desktop is open or an account is
    /// being checked.
    pub open spec fn inert(self) -> bool {
        self.snapshot().desktop_ready() || self.status == AccessStatus::Checking
    }

    /// What a key event does.
    pub open spec fn key_step(self, event: KeyboardEvent, other: bool) -> AccessStep {
        if self.inert() || (self.authenticated && !self.host_available) {
            self.silent()
        } else if self.authenticated {
            let (chosen, apply) = self.resolution_key(event);
            if apply {
                chosen.apply_choice(other)
            } else {
                AccessStep { publish: !(event is Released), ..chosen.silent() }
            }
        } else {
            let (typed, changed, submit) = self.login_key(event);
            let shown = if changed {
                AccessModel { status: AccessStatus::Ready, ..typed }
            } else {
                typed
            };
            if submit {
                AccessStep { submission: shown.submitted(), ..shown.after_submit().shown() }
            } else {
                AccessStep { publish: changed, ..shown.silent() }
            }
        }
    }

    /// What a left click at the pointer does to the sign-in form.
    pub open spec fn login_click_step(self, layout: UiLayout) -> AccessStep {
        let (x, y) = self.pointer;
        let ready = AccessModel { status: AccessStatus::Ready, ..self };
        if layout.primary.holds(x, y) {
            AccessModel { focus: AccessField::Username, ..ready }.shown()
        } else if layout.secondary.holds(x, y) {
            AccessModel { focus: AccessField::Password, ..ready }.shown()
        } else if layout.submit.holds(x, y) {
            AccessStep { submission: self.submitted(), ..self.after_submit().shown() }
        } else if layout.remember.holds(x, y) {
            AccessModel {
                focus: AccessField::Remember,
                remember: self.remember.with_client_changed(),
                ..ready
            }.shown()
        } else {
            self.silent()
        }
    }

    /// The state after a left click at the pointer on an option of the display fit, if there
    /// is one. The button covers the box that asks to remember where both are in one place.
    pub open spec fn after_option_click(self, layout: UiLayout) -> Option<AccessModel> {
        let (x, y) = self.pointer;
        let asked = AccessModel { status: AccessStatus::ResolutionRequired, ..self };
        if layout.primary.holds(x, y) {
            Some(AccessModel { resolution_selection: ResolutionSelection::Scale, ..asked })
        } else if layout.secondary.holds(x, y) {
            Some(AccessModel { resolution_selection: ResolutionSelection::MatchDisplay, ..asked })
        } else if layout.takeover matches Some(rect) && rect.holds(x, y) {
            Some(
                AccessModel {
                    disconnect_others: !self.disconnect_others,
                    remember: self.remember.with_mark(false),
                    ..asked
                },
            )
        } else if layout.remember.holds(x, y) && !layout.submit.holds(x, y) {
            Some(
                AccessModel {
                    remember: self.remember.with_fit_changed().with_mark(true),
                    ..asked
                },
            )
        } else {
            None
        }
    }

    /// What a left click at the pointer does to the choice of the display fit.
    pub open spec fn resolution_click_step(self, layout: UiLayout, other: bool) -> AccessStep {
        let (x, y) = self.pointer;
        match self.after_option_click(layout) {
            Some(chosen) => chosen.shown(),
            None => if layout.submit.holds(x, y) {
                self.apply_choice(other)
            } else {
                self.silent()
            },
        }
    }

    /// What a left click at the pointer does.
    pub open spec fn click_step(self, other: bool) -> AccessStep {
        match self.client_size {
            Some(size) => if self.inert() || (self.authenticated && !self.host_available) {
                self.silent()
            } else if self.authenticated {
                self.resolution_click_step(
                    crate::layout::layout_of(size, true, self.takeover_required),
                    other,
                )
            } else {
                self.login_click_step(
                    crate::layout::layout_of(size, false, self.takeover_required),
                )
            },
            None => self.silent(),
        }
    }

    /// What a pointer event does.
    pub open spec fn mouse_step(self, event: MouseEvent, other: bool) -> AccessStep {
        match event {
            MouseEvent::Move { x, y } => AccessModel { pointer: (x, y), ..self }.silent(),
            MouseEvent::Button { x, y, button: MouseButton::Left, pressed: true } => AccessModel {
                pointer: (x, y),
                ..self
            }.click_step(other),
            _ => self.silent(),
        }
    }
}

/// The letter of a scan code, in lower case.
pub open spec fn letter_of(code: u8) -> Option<char> {
    match code {
        16 => Some('q'),
        17 => Some('w'),
        18 => Some('e'),
        19 => Some('r'),
        20 => Some('t'),
        21 => Some('y'),
        22 => Some('u'),
        23 => Some('i'),
        24 => Some('o'),
        25 => Some('p'),
        30 => Some('a'),
        31 => Some('s'),
        32 => Some('d'),
        33 => Some('f'),
        34 => Some('g'),
        35 => Some('h'),
        36 => Some('j'),
        37 => Some('k'),
        38 => Some('l'),
        44 => Some('z'),
        45 => Some('x'),
        46 => Some('c'),
        47 => Some('v'),
        48 => Some('b'),
        49 => Some('n'),
        50 => Some('m'),
        _ => None,
    }
}

/// The characters of a scan code that is no letter: without and with shift.
pub open spec fn symbols_of(code: u8) -> Option<(char, char)> {
    match code {
        2 => Some(('1', '!')),
        3 => Some(('2', '@')),
        4 => Some(('3', '#')),
        5 => Some(('4', '$')),
        6 => Some(('5', '%')),
        7 => Some(('6', '^')),
        8 => Some(('7', '&')),
        9 => Some(('8', '*')),
        10 => Some(('9', '(')),
        11 => Some(('0', ')')),
        12 => Some(('-', '_')),
        13 => Some(('=', '+')),
        26 => Some(('[', '{')),
        27 => Some((']', '}')),
        39 => Some((';', ':')),
        40 => Some(('\'', '"')),
        41 => Some(('`', '~')),
        43 => Some(('\\', '|')),
        51 => Some((',', '<')),
        52 => Some(('.', '>')),
        53 => Some(('/', '?')),
        57 => Some((' ', ' ')),
        71 => Some(('7', '7')),
        72 => Some(('8', '8')),
        73 => Some(('9', '9')),
        75 => Some(('4', '4')),
        76 => Some(('5', '5')),
        77 => Some(('6', '6')),
        79 => Some(('1', '1')),
        80 => Some(('2', '2')),
        81 => Some(('3', '3')),
        82 => Some(('0', '0')),
        83 => Some(('.', '.')),
        _ => None,
    }
}

/// The character that a key types: a letter is in upper case if exactly one of
/// shift and caps lock is active, another key has a second character for shift.
pub open spec fn typed_character(code: u8, shift: bool, caps_lock: bool) -> Option<char> {
    match letter_of(code) {
        Some(letter) => Some(
            if shift != caps_lock {
                crate::text::ascii_upper(letter)
            } else {
                letter
            },
        ),
        None => match symbols_of(code) {
            Some(pair) => Some(
                if shift {
                    pair.1
                } else {
                    pair.0
                },
            ),
            None => None,
        },
    }
}

/// The character that the key of a scan code types.
pub fn scan_code_character(code: u8, shift: bool, caps_lock: bool) -> (character: Option<char>)
    ensures
        character == typed_character(code, shift, caps_lock),
{
    let letter: Option<char> = match code {
        16 => Some('q'),
        17 => Some('w'),
        18 => Some('e'),
        19 => Some('r'),
        20 => Some('t'),
        21 => Some('y'),
        22 => Some('u'),
        23 => Some('i'),
        24 => Some('o'),
        25 => Some('p'),
        30 => Some('a'),
        31 => Some('s'),
        32 => Some('d'),
        33 => Some('f'),
        34 => Some('g'),
        35 => Some('h'),
        36 => Some('j'),
        37 => Some('k'),
        38 => Some('l'),
        44 => Some('z'),
        45 => Some('x'),
        46 => Some('c'),
        47 => Some('v'),
        48 => Some('b'),
        49 => Some('n'),
        50 => Some('m'),
        _ => None,
    };
    if let Some(letter) = letter {
        return Some(
            if shift != caps_lock {
                letter.to_ascii_uppercase()
            } else {
                letter
            },
        );
    }
    let pair: (char, char) = match code {
        2 => ('1', '!'),
        3 => ('2', '@'),
        4 => ('3', '#'),
        5 => ('4', '$'),
        6 => ('5', '%'),
        7 => ('6', '^'),
        8 => ('7', '&'),
        9 => ('8', '*'),
        10 => ('9', '('),
        11 => ('0', ')'),
        12 => ('-', '_'),
        13 => ('=', '+'),
        26 => ('[', '{'),
        27 => (']', '}'),
        39 => (';', ':'),
        40 => ('\'', '"'),
        41 => ('`', '~'),
        43 => ('\\', '|'),
        51 => (',', '<'),
        52 => ('.', '>'),
        53 => ('/', '?'),
        57 => (' ', ' '),
        71 => ('7', '7'),
        72 => ('8', '8'),
        73 => ('9', '9'),
        75 => ('4', '4'),
        76 => ('5', '5'),
        77 => ('6', '6'),
        79 => ('1', '1'),
        80 => ('2', '2'),
        81 => ('3', '3'),
        82 => ('0', '0'),
        83 => ('.', '.'),
        _ => return None,
    };
    Some(
        if shift {
            pair.1
        } else {
            pair.0
        },
    )
}

struct AccessState {
    username: String,
    password: String,
    focus: AccessField,
    status: AccessStatus,
    authenticated: bool,
    shift: bool,
    caps_lock: bool,
    generation: u64,
    client_size: Option<DesktopSize>,
    host_size: Option<DesktopSize>,
    host_available: bool,
    resolution_selection: ResolutionSelection,
    resolution_policy: Option<ResolutionSelection>,
    presentation: Option<DesktopPresentation>,
    takeover_required: bool,
    disconnect_others: bool,
    remember: RememberBoxes,
    pointer: (u16, u16),
}

impl AccessState {
    spec fn model(self) -> AccessModel {
        AccessModel {
            username: self.username@,
            password: self.password@,
            focus: self.focus,
            status: self.status,
            authenticated: self.authenticated,
            shift: self.shift,
            caps_lock: self.caps_lock,
            generation: self.generation,
            client_size: self.client_size,
            host_size: self.host_size,
            host_available: self.host_available,
            resolution_selection: self.resolution_selection,
            resolution_policy: self.resolution_policy,
            presentation: self.presentation,
            takeover_required: self.takeover_required,
            disconnect_others: self.disconnect_others,
            remember: self.remember@,
            pointer: self.pointer,
        }
    }

    fn fresh(generation: u64, host_size: Option<DesktopSize>, host_available: bool) -> (state: Self)
        ensures
            state.model() == (AccessModel {
                generation,
                host_size,
                host_available,
                ..AccessModel::initial()
            }),
    {
        AccessState {
            username: String::new(),
            password: String::new(),
            focus: AccessField::Username,
            status: AccessStatus::Ready,
            authenticated: false,
            shift: false,
            caps_lock: false,
            generation,
            client_size: None,
            host_size,
            host_available,
            resolution_selection: ResolutionSelection::Scale,
            resolution_policy: None,
            presentation: None,
            takeover_required: false,
            disconnect_others: false,
            remember: RememberBoxes::new(String::new()),
            pointer: (0, 0),
        }
    }

    fn snapshot(&self) -> (snapshot: AccessSnapshot)
        ensures
            snapshot@ == self.model().snapshot(),
    {
        AccessSnapshot {
            username: self.username.clone(),
            password_length: self.password.as_str().unicode_len(),
            focus: self.focus,
            status: self.status,
            authenticated: self.authenticated,
            client_size: self.client_size,
            host_size: self.host_size,
            host_available: self.host_available,
            resolution_selection: self.resolution_selection,
            resolution_policy: self.resolution_policy,
            presentation: self.presentation,
            takeover_required: self.takeover_required,
            disconnect_others: self.disconnect_others,
            remember: self.remember.clone(),
        }
    }

    fn is_inert(&self) -> (inert: bool)
        ensures
            inert == self.model().inert(),
    {
        (self.authenticated && self.presentation.is_some() && !self.takeover_required)
            || self.status == AccessStatus::Checking
    }

    /// Types a character into the field that has the focus, unless it is full, or ticks the
    /// box with a space.
    fn push_character(&mut self, character: char) -> (pushed: bool)
        ensures
            pushed == old(self).model().accepts_character(character),
            final(self).model() == old(self).model().after_character(character),
    {
        match self.focus {
            AccessField::Username => {
                if self.username.as_str().unicode_len() >= MAX_FIELD_LENGTH {
                    return false;
                }
                self.username.push(character);
            },
            AccessField::Password => {
                if self.password.as_str().unicode_len() >= MAX_FIELD_LENGTH {
                    return false;
                }
                self.password.push(character);
            },
            AccessField::Remember => {
                if character != ' ' {
                    return false;
                }
                self.remember.client = !self.remember.client;
            },
        }
        true
    }

    /// Removes the last character of the field that has the focus.
    fn pop_character(&mut self)
        ensures
            final(self).model() == if old(self).model().active_field().len() == 0 {
                old(self).model()
            } else {
                old(self).model().with_active_field(old(self).model().active_field().drop_last())
            },
    {
        match self.focus {
            AccessField::Username => {
                self.username.pop();
            },
            AccessField::Password => {
                self.password.pop();
            },
            AccessField::Remember => {},
        }
    }

    /// Handles a key of the sign-in form; says whether the form has changed and
    /// whether it is submitted.
    #[verifier::spinoff_prover]
    #[verifier::rlimit(40)]
    fn handle_login_keyboard(&mut self, event: &KeyboardEvent) -> (outcome: (bool, bool))
        ensures
            (final(self).model(), outcome.0, outcome.1) == old(self).model().login_key(*event),
    {
        match *event {
            KeyboardEvent::Pressed { code, extended } => {
                if code == 42 || code == 54 {
                    self.shift = true;
                    (false, false)
                } else if code == 58 {
                    self.caps_lock = !self.caps_lock;
                    (false, false)
                } else if code == 14 {
                    self.pop_character();
                    (true, false)
                } else if code == 15 {
                    self.focus = match self.focus {
                        AccessField::Username => AccessField::Password,
                        AccessField::Password => AccessField::Remember,
                        AccessField::Remember => AccessField::Username,
                    };
                    (true, false)
                } else if code == 28 {
                    (false, true)
                } else if extended {
                    (false, false)
                } else {
                    match scan_code_character(code, self.shift, self.caps_lock) {
                        Some(character) => (self.push_character(character), false),
                        None => (false, false),
                    }
                }
            },
            KeyboardEvent::Released { code, .. } => {
                if code == 42 || code == 54 {
                    self.shift = false;
                }
                (false, false)
            },
            KeyboardEvent::UnicodePressed(code) => {
                match char::from_u32(code as u32) {
                    Some(character) => {
                        if character.is_control() {
                            (false, false)
                        } else {
                            (self.push_character(character), false)
                        }
                    },
                    None => (false, false),
                }
            },
            _ => (false, false),
        }
    }

    /// Handles a key of the choice of the display fit; says whether the choice is
    /// to be applied.
    fn handle_resolution_keyboard(&mut self, event: &KeyboardEvent) -> (apply: bool)
        ensures
            (final(self).model(), apply) == old(self).model().resolution_key(*event),
    {
        match *event {
            KeyboardEvent::Pressed { code, .. } => {
                if self.takeover_required && (code == 72 || code == 80) {
                    self.remember.marked = !self.remember.marked;
                    self.status = AccessStatus::ResolutionRequired;
                    false
                } else if code == 15 || code == 75 || code == 77 || code == 72 || code == 80 {
                    self.resolution_selection = match self.resolution_selection {
                        ResolutionSelection::Scale => ResolutionSelection::MatchDisplay,
                        ResolutionSelection::MatchDisplay => ResolutionSelection::Scale,
                    };
                    self.status = AccessStatus::ResolutionRequired;
                    false
                } else if code == 57 && self.takeover_required && !self.remember.marked {
                    self.disconnect_others = !self.disconnect_others;
                    self.status = AccessStatus::ResolutionRequired;
                    false
                } else if code == 57 {
                    self.remember.fit = !self.remember.fit;
                    self.status = AccessStatus::ResolutionRequired;
                    false
                } else {
                    code == 28
                }
            },
            _ => false,
        }
    }

    /// Handles a left click at the pointer on an option of the display fit; says whether
    /// there is one.
    fn click_option(&mut self, layout: &UiLayout) -> (hit: bool)
        ensures
            match old(self).model().after_option_click(*layout) {
                Some(chosen) => hit && final(self).model() == chosen,
                None => !hit && *final(self) == *old(self),
            },
    {
        let (x, y) = self.pointer;
        let takeover = match layout.takeover {
            Some(rect) => rect.contains(x, y),
            None => false,
        };
        if layout.primary.contains(x, y) {
            self.resolution_selection = ResolutionSelection::Scale;
        } else if layout.secondary.contains(x, y) {
            self.resolution_selection = ResolutionSelection::MatchDisplay;
        } else if takeover {
            self.disconnect_others = !self.disconnect_others;
            self.remember.marked = false;
        } else if layout.remember.contains(x, y) && !layout.submit.contains(x, y) {
            self.remember.fit = !self.remember.fit;
            self.remember.marked = true;
        } else {
            return false;
        }
        self.status = AccessStatus::ResolutionRequired;
        true
    }

    /// The display fit that is to be remembered when the choice is applied.
    fn fit_to_remember(&self) -> (remember: Option<RememberedResolution>)
        ensures
            remember == self.model().apply_choice(false).remember,
    {
        if !self.remember.fit {
            return None;
        }
        match self.resolution_selection {
            ResolutionSelection::Scale => Some(RememberedResolution::Scale),
            ResolutionSelection::MatchDisplay => if self.client_size.is_some() {
                Some(RememberedResolution::MatchDisplay)
            } else {
                None
            },
        }
    }

    /// Puts the chosen display fit into force.
    fn apply_resolution_choice(&mut self) -> (action: Option<AccessAction>)
        requires
            !old(self).takeover_required,
            !old(self).disconnect_others,
        ensures
            final(self).model() == old(self).model().apply_choice(false).state,
            action == old(self).model().apply_choice(false).action,
    {
        match self.resolution_selection {
            ResolutionSelection::Scale => {
                self.resolution_policy = Some(ResolutionSelection::Scale);
                self.presentation = Some(DesktopPresentation::Scale);
                self.status = AccessStatus::Granted;
                None
            },
            ResolutionSelection::MatchDisplay => {
                match self.client_size {
                    Some(target) => {
                        self.resolution_policy = Some(ResolutionSelection::MatchDisplay);
                        self.presentation = Some(DesktopPresentation::Scale);
                        self.status = AccessStatus::Granted;
                        Some(AccessAction::ChangeDisplaySize(target))
                    },
                    None => None,
                }
            },
        }
    }

    /// Hands the credentials of a complete form over; the password leaves the
    /// form.
    fn prepare_submission(&mut self) -> (submission: Option<ValidationSubmission>)
        ensures
            final(self).model() == old(self).model().after_submit(),
            submission_view(submission) == old(self).model().submitted(),
    {
        let username: String = self.username.as_str().trim().to_owned();
        if username.as_str().unicode_len() == 0 || self.password.as_str().unicode_len() == 0 {
            self.status = AccessStatus::MissingCredentials;
            return None;
        }
        self.status = AccessStatus::Checking;
        let mut password = String::new();
        std::mem::swap(&mut password, &mut self.password);
        Some(ValidationSubmission { generation: self.generation, username, password })
    }
}

/// The choice of a display fit that was remembered.
pub open spec fn selection_of(resolution: RememberedResolution) -> ResolutionSelection {
    match resolution {
        RememberedResolution::Scale => ResolutionSelection::Scale,
        RememberedResolution::MatchDisplay => ResolutionSelection::MatchDisplay,
    }
}

/// What is remembered of a choice of a display fit.
pub open spec fn remembered_of(selection: ResolutionSelection) -> RememberedResolution {
    match selection {
        ResolutionSelection::Scale => RememberedResolution::Scale,
        ResolutionSelection::MatchDisplay => RememberedResolution::MatchDisplay,
    }
}

/// The credentials of a submission, as mathematical values.
pub open spec fn submission_view(submission: Option<ValidationSubmission>) -> Option<
    (u64, Seq<char>, Seq<char>),
> {
    match submission {
        Some(credentials) => Some(
            (credentials.generation, credentials.username@, credentials.password@),
        ),
        None => None,
    }
}

/// A barrier, as mathematical values.
#[verifier::ext_equal]
pub struct GateModel {
    /// The settings file against which accounts are checked.
    pub config_path: Seq<char>,
    /// The session of the client behind the barrier, where sessions are shared.
    pub session: Option<u64>,
    /// What is remembered of the client.
    pub remembered: PreferencesModel,
    pub state: AccessModel,
    /// What watchers of the screen see.
    pub published: SnapshotModel,
    /// A number that changes whenever the screen is published.
    pub revision: u64,
}

impl GateModel {
    /// The barrier in front of a client that has just connected.
    pub open spec fn of_client(
        config_path: Seq<char>,
        session: u64,
        detail: Seq<char>,
        remembered: PreferencesModel,
    ) -> GateModel {
        let state = AccessModel::of_client(detail);
        GateModel {
            config_path,
            session: Some(session),
            remembered,
            state,
            published: state.snapshot(),
            revision: 0,
        }
    }

    /// Whether watchers see the current state.
    pub open spec fn shows_current_state(self) -> bool {
        self.published == self.state.snapshot()
    }

    /// Whether another session owns the display.
    pub open spec fn other_owner(self, sessions: SessionModel) -> bool {
        self.session matches Some(id) && sessions.other_owner(id)
    }

    /// Whether the client behind the barrier owns the display.
    pub open spec fn owns_display(self, sessions: SessionModel) -> bool {
        self.session matches Some(id) ==> sessions.owner == Some(id)
    }

    /// Whether the account that the client signed in with before is still one that may
    /// connect.
    pub open spec fn trusts(self, config: ConfigModel, computer: Option<Seq<char>>) -> bool {
        self.remembered.trusted_username matches Some(username) && config.allows(
            crate::auth::candidates(
                crate::auth::account_parts(username).0,
                crate::auth::account_parts(username).1,
                computer,
            ),
        )
    }

    /// The barrier after the client was signed in with the account that is remembered of
    /// it: as if that account had been checked and accepted. Where the account may not
    /// connect any more, or the client signs in or has signed in itself, nothing happens.
    pub open spec fn signed_in_again(
        self,
        config: ConfigModel,
        computer: Option<Seq<char>>,
        sessions: SessionModel,
    ) -> GateModel {
        if self.trusts(config, computer) && !self.state.authenticated && self.state.status
            != AccessStatus::Checking {
            let username = self.remembered.trusted_username->0;
            let checking = self.publishing(self.state.checking(username));
            checking.publishing(
                checking.state.after_validation(
                    self.state.generation,
                    username,
                    Ok(true),
                    self.other_owner(sessions),
                ),
            )
        } else {
            self
        }
    }

    /// The barrier with another state that watchers do not see as a change.
    pub open spec fn keeping(self, state: AccessModel) -> GateModel {
        GateModel { state, ..self }
    }

    /// The barrier with another state that is published.
    pub open spec fn publishing(self, state: AccessModel) -> GateModel {
        GateModel {
            state,
            published: state.snapshot(),
            revision: self.revision.wrapping_add(1),
            ..self
        }
    }

    /// The barrier with another state, published if the screen changes.
    pub open spec fn updated(self, state: AccessModel) -> GateModel {
        if state.snapshot() == self.state.snapshot() {
            self.keeping(state)
        } else {
            self.publishing(state)
        }
    }

    /// The barrier after a key or a click.
    pub open spec fn after_step(self, step: AccessStep) -> GateModel {
        if step.publish {
            self.publishing(step.state)
        } else {
            self.keeping(step.state)
        }
    }

    /// What a step does to the sessions: a client that goes on to the desktop and
    /// does not own the display takes it over.
    pub open spec fn handover(
        self,
        step: AccessStep,
        before: SessionModel,
        desktop: DesktopSize,
        after: SessionModel,
        disconnected: Seq<u64>,
    ) -> bool {
        if step.proceeds && !self.owns_display(before) {
            let id = self.session->0;
            &&& after == before.taken_over(id, desktop)
            &&& if before.sessions.contains_key(id) {
                crate::session::lists_reachable(disconnected, before.sessions, Some(id))
            } else {
                disconnected == Seq::<u64>::empty()
            }
        } else {
            after == before && disconnected == Seq::<u64>::empty()
        }
    }
}

/// The barrier of one connection.
pub struct AccessGate {
    config_path: String,
    session: Option<SessionLease>,
    remembered: ClientPreferences,
    state: AccessState,
    published: AccessSnapshot,
    revision: u64,
}

impl View for AccessGate {
    type V = GateModel;

    closed spec fn view(&self) -> GateModel {
        GateModel {
            config_path: self.config_path@,
            session: match self.session {
                Some(lease) => Some(lease.number()),
                None => None,
            },
            remembered: self.remembered@,
            state: self.state.model(),
            published: self.published@,
            revision: self.revision,
        }
    }
}

impl AccessGate {
    /// The barrier of a connection that shares the display with nobody.
    pub fn new(config_path: String) -> (gate: Self)
        ensures
            gate@ == (GateModel {
                config_path: config_path@,
                session: None,
                remembered: PreferencesModel::nothing(),
                state: AccessModel::initial(),
                published: AccessModel::initial().snapshot(),
                revision: 0,
            }),
    {
        AccessGate::new_with_session(
            config_path,
            None,
            String::new(),
            ClientPreferences::default(),
        )
    }

    /// The barrier of a session that may have to take the display over.
    pub fn new_for_session(config_path: String, session: SessionLease) -> (gate: Self)
        ensures
            gate@ == (GateModel {
                config_path: config_path@,
                session: Some(session.number()),
                remembered: PreferencesModel::nothing(),
                state: AccessModel::initial(),
                published: AccessModel::initial().snapshot(),
                revision: 0,
            }),
    {
        AccessGate::new_with_session(
            config_path,
            Some(session),
            String::new(),
            ClientPreferences::default(),
        )
    }

    /// The barrier of a session whose client is known: what is remembered of it can be
    /// recalled with `recall_sign_in` and `recall_fit`.
    pub fn new_for_client(
        config_path: String,
        session: SessionLease,
        identity: &ClientIdentity,
        remembered: ClientPreferences,
    ) -> (gate: Self)
        ensures
            gate@ == GateModel::of_client(
                config_path@,
                session.number(),
                identity@.detail(),
                remembered@,
            ),
    {
        AccessGate::new_with_session(
            config_path,
            Some(session),
            identity.remember_detail(),
            remembered,
        )
    }

    fn new_with_session(
        config_path: String,
        session: Option<SessionLease>,
        detail: String,
        remembered: ClientPreferences,
    ) -> (gate: Self)
        ensures
            gate@ == (GateModel {
                config_path: config_path@,
                session: match session {
                    Some(lease) => Some(lease.number()),
                    None => None,
                },
                remembered: remembered@,
                state: AccessModel::of_client(detail@),
                published: AccessModel::of_client(detail@).snapshot(),
                revision: 0,
            }),
    {
        let mut state = AccessState::fresh(0, None, false);
        state.remember = RememberBoxes::new(detail);
        let published = state.snapshot();
        AccessGate { config_path, session, remembered, state, published, revision: 0 }
    }

    /// The settings file against which accounts are checked.
    pub fn config_path(&self) -> (path: &str)
        ensures
            path@ == self@.config_path,
    {
        self.config_path.as_str()
    }

    /// What watchers of the screen see.
    pub fn published(&self) -> (snapshot: &AccessSnapshot)
        ensures
            snapshot@ == self@.published,
    {
        &self.published
    }

    /// A number that changes whenever the screen is published.
    pub fn revision(&self) -> (revision: u64)
        ensures
            revision == self@.revision,
    {
        self.revision
    }

    /// What the access screen shows now.
    pub fn snapshot(&self) -> (snapshot: AccessSnapshot)
        ensures
            snapshot@ == self@.state.snapshot(),
    {
        self.state.snapshot()
    }

    /// The generation of the connection, which changes with every reset.
    pub fn connection_generation(&self) -> (generation: u64)
        ensures
            generation == self@.state.generation,
    {
        self.state.generation
    }

    /// Whether the desktop may be shown.
    pub fn is_desktop_ready(&self) -> (ready: bool)
        ensures
            ready == self@.state.snapshot().desktop_ready(),
    {
        self.state.authenticated && self.state.presentation.is_some()
            && !self.state.takeover_required
    }

    /// Whether the client's account has been accepted.
    pub fn is_authenticated(&self) -> (authenticated: bool)
        ensures
            authenticated == self@.state.authenticated,
    {
        self.state.authenticated
    }

    fn publish(&mut self)
        ensures
            final(self)@ == old(self)@.publishing(old(self)@.state),
    {
        self.published = self.state.snapshot();
        self.revision = self.revision.wrapping_add(1);
    }

    /// Forgets the client of the connection, with what is remembered of it: the next one
    /// starts afresh.
    pub fn reset(&mut self)
        ensures
            final(self)@ == (GateModel {
                remembered: PreferencesModel::nothing(),
                ..old(self)@.publishing(old(self)@.state.after_reset())
            }),
            final(self)@.shows_current_state(),
    {
        self.remembered = ClientPreferences::default();
        self.state = AccessState::fresh(
            self.state.generation.wrapping_add(1),
            self.state.host_size,
            self.state.host_available,
        );
        self.publish();
    }

    fn has_other_owner(&self, sessions: &SessionCoordinator) -> (other: bool)
        ensures
            other == self@.other_owner(sessions@),
    {
        match self.session {
            Some(session) => session.has_other_owner(sessions),
            None => false,
        }
    }

    fn owns_display(&self, sessions: &SessionCoordinator) -> (owns: bool)
        ensures
            owns == self@.owns_display(sessions@),
    {
        match self.session {
            Some(session) => session.is_owner(sessions),
            None => true,
        }
    }

    /// Tells the barrier the sizes of the client canvas and of an available desktop.
    pub fn set_display_sizes(
        &mut self,
        client_size: DesktopSize,
        host_size: DesktopSize,
        sessions: &SessionCoordinator,
    )
        ensures
            final(self)@ == old(self)@.updated(
                old(self)@.state.after_display_state(
                    client_size,
                    host_size,
                    true,
                    old(self)@.other_owner(sessions@),
                ),
            ),
            old(self)@.shows_current_state() ==> final(self)@.shows_current_state(),
    {
        self.set_display_state(client_size, host_size, true, sessions);
    }

    /// Tells the barrier the sizes of the client canvas and of the desktop, and
    /// whether the desktop is available.
    #[verifier::spinoff_prover]
    #[verifier::rlimit(40)]
    pub fn set_display_state(
        &mut self,
        client_size: DesktopSize,
        host_size: DesktopSize,
        host_available: bool,
        sessions: &SessionCoordinator,
    )
        ensures
            final(self)@ == old(self)@.updated(
                old(self)@.state.after_display_state(
                    client_size,
                    host_size,
                    host_available,
                    old(self)@.other_owner(sessions@),
                ),
            ),
            old(self)@.shows_current_state() ==> final(self)@.shows_current_state(),
    {
        let old_snapshot = self.state.snapshot();
        let other = self.has_other_owner(sessions);
        self.state.client_size = Some(client_size);
        self.state.host_size = Some(host_size);
        self.state.host_available = host_available;
        self.state.takeover_required = self.state.authenticated && other;
        if self.state.authenticated {
            if other {
                self.state.presentation = None;
                self.state.status = AccessStatus::ResolutionRequired;
            } else if !host_available {
                self.state.presentation = None;
                self.state.status = AccessStatus::WaitingForDesktop;
            } else if client_size == host_size {
                self.state.presentation = Some(DesktopPresentation::Native);
                self.state.status = AccessStatus::Granted;
            } else if self.state.resolution_policy == Some(ResolutionSelection::Scale) {
                // The first choice keeps the physical mode fixed even if it is
                // later changed by hand.
                self.state.presentation = Some(DesktopPresentation::Scale);
                self.state.status = AccessStatus::Granted;
            } else if self.state.resolution_policy == Some(ResolutionSelection::MatchDisplay)
                && self.state.presentation == Some(DesktopPresentation::Scale) {
                // A physical mode may only come close to the size of a window:
                // the canvas stays exact and the desktop is fitted into it.
                self.state.status = AccessStatus::Granted;
            } else {
                self.state.presentation = None;
                self.state.status = AccessStatus::ResolutionRequired;
            }
        }
        if self.state.snapshot() != old_snapshot {
            self.publish();
        }
    }

    /// Applies a client's request for a canvas of another size.
    ///
    /// The physical display follows the client only after the user has chosen so
    /// for this connection. Otherwise the canvas follows the client and the
    /// display stays as it is.
    #[verifier::spinoff_prover]
    #[verifier::rlimit(40)]
    pub fn request_client_resize(
        &mut self,
        client_size: DesktopSize,
        sessions: &SessionCoordinator,
    ) -> (action: Option<AccessAction>)
        ensures
            final(self)@ == old(self)@.updated(
                old(self)@.state.after_client_resize(
                    client_size,
                    old(self)@.owns_display(sessions@),
                ),
            ),
            action == old(self)@.state.resize_action(
                client_size,
                old(self)@.owns_display(sessions@),
            ),
            old(self)@.shows_current_state() ==> final(self)@.shows_current_state(),
    {
        let old_snapshot = self.state.snapshot();
        let owns = self.owns_display(sessions);
        self.state.client_size = Some(client_size);
        let action = if !self.state.authenticated {
            None
        } else if !owns {
            self.state.takeover_required = true;
            self.state.presentation = None;
            self.state.status = AccessStatus::ResolutionRequired;
            None
        } else if !self.state.host_available {
            self.state.presentation = None;
            self.state.status = AccessStatus::WaitingForDesktop;
            None
        } else {
            let matches_host = self.state.host_size == Some(client_size);
            let fit = if matches_host {
                DesktopPresentation::Native
            } else {
                DesktopPresentation::Scale
            };
            match self.state.resolution_policy {
                Some(ResolutionSelection::Scale) => {
                    self.state.presentation = Some(fit);
                    self.state.status = AccessStatus::Granted;
                    None
                },
                Some(ResolutionSelection::MatchDisplay) => {
                    self.state.presentation = Some(fit);
                    self.state.status = AccessStatus::Granted;
                    if matches_host {
                        None
                    } else {
                        Some(AccessAction::ChangeDisplaySize(client_size))
                    }
                },
                None => {
                    if matches_host {
                        // No choice is needed while both sides match. A later
                        // request is scaled, which leaves the display alone.
                        self.state.resolution_policy = Some(ResolutionSelection::Scale);
                        self.state.presentation = Some(DesktopPresentation::Native);
                        self.state.status = AccessStatus::Granted;
                    } else {
                        self.state.presentation = None;
                        self.state.status = AccessStatus::ResolutionRequired;
                    }
                    None
                },
            }
        };
        if self.state.snapshot() != old_snapshot {
            self.publish();
        }
        action
    }

    /// Whether the physical display is to take the given size of the client.
    pub fn should_follow_client_size(
        &self,
        client_size: DesktopSize,
        sessions: &SessionCoordinator,
    ) -> (follow: bool)
        ensures
            follow == self@.state.follows(client_size, self@.owns_display(sessions@)),
    {
        self.state.authenticated && self.state.host_available && self.owns_display(sessions)
            && self.state.resolution_policy == Some(ResolutionSelection::MatchDisplay)
            && self.state.client_size == Some(client_size)
    }
}

impl AccessGate {
    /// Shows the sign-in form again, unless the client is signed in or its account
    /// is being checked.
    pub fn show_login(&mut self)
        ensures
            final(self)@ == if old(self)@.state.authenticated || old(self)@.state.status
                == AccessStatus::Checking {
                old(self)@
            } else {
                old(self)@.publishing(
                    AccessModel { status: AccessStatus::Ready, ..old(self)@.state },
                )
            },
            old(self)@.shows_current_state() ==> final(self)@.shows_current_state(),
    {
        if !self.state.authenticated && self.state.status != AccessStatus::Checking {
            self.state.status = AccessStatus::Ready;
            self.publish();
        }
    }

    /// Notes that an account is being checked, and returns the generation with
    /// which the outcome is to be reported.
    pub fn begin_validation(&mut self, username: &str) -> (generation: u64)
        ensures
            generation == old(self)@.state.generation,
            final(self)@ == old(self)@.publishing(old(self)@.state.checking(username@)),
            final(self)@.shows_current_state(),
    {
        self.state.username = username.trim().to_owned();
        self.state.password.clear();
        self.state.status = AccessStatus::Checking;
        self.state.authenticated = false;
        self.state.resolution_policy = None;
        self.state.presentation = None;
        self.state.takeover_required = false;
        self.state.disconnect_others = false;
        self.publish();
        self.state.generation
    }

    /// Takes the outcome of an account check. An outcome for a connection that is
    /// gone is ignored. Returns the account that is to be remembered of the client, where
    /// that was asked for.
    #[verifier::spinoff_prover]
    #[verifier::rlimit(40)]
    pub fn finish_validation(
        &mut self,
        generation: u64,
        username: &str,
        result: Result<bool, ValidationFailure>,
        sessions: &SessionCoordinator,
    ) -> (remember: Option<String>)
        ensures
            crate::trusted_clients::text_of(remember) == old(self)@.state.account_to_remember(
                generation,
                username@,
                result,
            ),
            final(self)@ == if generation != old(self)@.state.generation {
                old(self)@
            } else {
                old(self)@.publishing(
                    old(self)@.state.after_validation(
                        generation,
                        username@,
                        result,
                        old(self)@.other_owner(sessions@),
                    ),
                )
            },
            old(self)@.shows_current_state() ==> final(self)@.shows_current_state(),
    {
        if self.state.generation != generation {
            return None;
        }
        let mut remember: Option<String> = None;
        let other = self.has_other_owner(sessions);
        self.state.password.clear();
        match result {
            Ok(true) => {
                if self.state.remember.client {
                    remember = Some(username.trim().to_owned());
                }
                self.state.username = username.trim().to_owned();
                self.state.authenticated = true;
                self.state.takeover_required = other;
                self.state.disconnect_others = false;
                if other {
                    self.state.status = AccessStatus::ResolutionRequired;
                    self.state.resolution_policy = None;
                    self.state.presentation = None;
                    self.state.resolution_selection = ResolutionSelection::Scale;
                } else if !self.state.host_available {
                    self.state.status = AccessStatus::WaitingForDesktop;
                    self.state.presentation = None;
                } else if self.state.client_size.is_some() && self.state.client_size
                    == self.state.host_size {
                    self.state.status = AccessStatus::Granted;
                    self.state.resolution_policy = Some(ResolutionSelection::Scale);
                    self.state.presentation = Some(DesktopPresentation::Native);
                } else {
                    self.state.status = AccessStatus::ResolutionRequired;
                    self.state.resolution_policy = None;
                    self.state.presentation = None;
                    self.state.resolution_selection = ResolutionSelection::Scale;
                }
            },
            Ok(false) => {
                self.state.status = AccessStatus::Rejected;
                self.state.authenticated = false;
                self.state.resolution_policy = None;
                self.state.presentation = None;
                self.state.focus = AccessField::Password;
            },
            Err(_) => {
                self.state.status = AccessStatus::BackendError;
                self.state.authenticated = false;
                self.state.resolution_policy = None;
                self.state.presentation = None;
                self.state.focus = AccessField::Password;
            },
        }
        self.publish();
        remember
    }

    /// Signs the client in with the account that is remembered of it, where that account
    /// may still connect, and says whether it did. No session loses the display: where
    /// another one owns it, the client has to confirm a takeover as after any sign-in.
    pub fn recall_sign_in(
        &mut self,
        settings: &AppConfig,
        computer: Option<&str>,
        sessions: &SessionCoordinator,
    ) -> (signed_in: bool)
        ensures
            final(self)@ == old(self)@.signed_in_again(
                settings@,
                crate::auth::given(computer),
                sessions@,
            ),
            signed_in == (old(self)@.trusts(settings@, crate::auth::given(computer)) && !old(
                self,
            )@.state.authenticated && old(self)@.state.status != AccessStatus::Checking),
            old(self)@.shows_current_state() ==> final(self)@.shows_current_state(),
    {
        let username: String = match &self.remembered.trusted_username {
            Some(username) => username.clone(),
            None => {
                return false;
            },
        };
        if self.state.authenticated || self.state.status == AccessStatus::Checking
            || !is_account_allowed(settings, username.as_str(), computer) {
            return false;
        }
        let generation: u64 = self.begin_validation(username.as_str());
        let _ = self.finish_validation(generation, username.as_str(), Ok(true), sessions);
        true
    }

    /// Applies the display fit that is remembered of the client, once the client owns the
    /// display and has chosen none itself. Returns the change of the display that this
    /// asks for.
    pub fn recall_fit(&mut self, sessions: &SessionCoordinator) -> (action: Option<AccessAction>)
        ensures
            ({
                let step = old(self)@.state.fit_again(
                    old(self)@.remembered.resolution,
                    old(self)@.owns_display(sessions@),
                );
                &&& final(self)@ == old(self)@.after_step(step)
                &&& action == step.action
            }),
            old(self)@.shows_current_state() ==> final(self)@.shows_current_state(),
    {
        let owns = self.owns_display(sessions);
        let resolution = match self.remembered.resolution {
            Some(resolution) => resolution,
            None => {
                return None;
            },
        };
        let client = match self.state.client_size {
            Some(client) => client,
            None => {
                return None;
            },
        };
        if !self.state.authenticated || !owns || !self.state.host_available
            || self.state.resolution_policy.is_some() {
            return None;
        }
        let selection = match resolution {
            RememberedResolution::Scale => ResolutionSelection::Scale,
            RememberedResolution::MatchDisplay => ResolutionSelection::MatchDisplay,
        };
        let matching = self.state.host_size == Some(client);
        self.state.resolution_selection = selection;
        self.state.resolution_policy = Some(selection);
        self.state.presentation = Some(
            if matching {
                DesktopPresentation::Native
            } else {
                DesktopPresentation::Scale
            },
        );
        self.state.status = AccessStatus::Granted;
        self.state.takeover_required = false;
        self.state.disconnect_others = false;
        self.publish();
        if !matching && resolution == RememberedResolution::MatchDisplay {
            Some(AccessAction::ChangeDisplaySize(client))
        } else {
            None
        }
    }

    /// Applies the choice of the display fit, after taking the display over where
    /// another session owns it and the user has confirmed that.
    #[verifier::spinoff_prover]
    #[verifier::rlimit(40)]
    fn apply_resolution_choice(
        &mut self,
        sessions: &mut SessionCoordinator,
        desktop: DesktopSize,
    ) -> (outcome: (Option<AccessAction>, Vec<u64>, Option<RememberedResolution>))
        ensures
            ({
                let step = old(self)@.state.apply_choice(old(self)@.other_owner(old(sessions)@));
                &&& final(self)@ == old(self)@.keeping(step.state)
                &&& outcome.0 == step.action
                &&& outcome.2 == step.remember
                &&& old(self)@.handover(
                    step,
                    old(sessions)@,
                    desktop,
                    final(sessions)@,
                    outcome.1@,
                )
                &&& old(sessions)@.consistent() ==> final(sessions)@.consistent()
            }),
    {
        let other = self.has_other_owner(sessions);
        self.state.takeover_required = other;
        if other && !self.state.disconnect_others {
            self.state.status = AccessStatus::TakeoverConfirmationRequired;
            self.state.presentation = None;
            return (None, Vec::new(), None);
        }
        let mut disconnected: Vec<u64> = Vec::new();
        if let Some(session) = self.session {
            if !session.is_owner(sessions) {
                disconnected = session.take_over(sessions, desktop);
            }
        }
        self.state.takeover_required = false;
        self.state.disconnect_others = false;
        let remember = self.state.fit_to_remember();
        (self.state.apply_resolution_choice(), disconnected, remember)
    }

    /// Handles a key. `desktop` is the size of the desktop, which is remembered
    /// where the client takes a display over that nobody owned.
    #[verifier::spinoff_prover]
    #[verifier::rlimit(40)]
    pub fn handle_keyboard(
        &mut self,
        event: &KeyboardEvent,
        sessions: &mut SessionCoordinator,
        desktop: DesktopSize,
    ) -> (response: AccessResponse)
        ensures
            ({
                let step = old(self)@.state.key_step(
                    *event,
                    old(self)@.other_owner(old(sessions)@),
                );
                &&& final(self)@ == old(self)@.after_step(step)
                &&& response.action == step.action
                &&& response.remember == step.remember
                &&& submission_view(response.submission) == step.submission
                &&& old(self)@.handover(
                    step,
                    old(sessions)@,
                    desktop,
                    final(sessions)@,
                    response.disconnected@,
                )
            }),
            old(self)@.shows_current_state() ==> final(self)@.shows_current_state(),
            old(sessions)@.consistent() ==> final(sessions)@.consistent(),
    {
        let mut response = AccessResponse {
            action: None,
            submission: None,
            remember: None,
            disconnected: Vec::new(),
        };
        if self.state.is_inert() || (self.state.authenticated && !self.state.host_available) {
            return response;
        }
        if self.state.authenticated {
            let (action, disconnected, remember) = self.resolution_keyboard(
                event,
                sessions,
                desktop,
            );
            response.action = action;
            response.disconnected = disconnected;
            response.remember = remember;
        } else {
            response.submission = self.login_keyboard(event);
        }
        response
    }

    #[verifier::spinoff_prover]
    #[verifier::rlimit(40)]
    fn login_keyboard(&mut self, event: &KeyboardEvent) -> (submission: Option<
        ValidationSubmission,
    >)
        requires
            !old(self)@.state.inert(),
            !old(self)@.state.authenticated,
        ensures
            ({
                let step = old(self)@.state.key_step(*event, false);
                &&& final(self)@ == old(self)@.after_step(step)
                &&& submission_view(submission) == step.submission
            }),
    {
        let mut submission: Option<ValidationSubmission> = None;
        let (changed, submit) = self.state.handle_login_keyboard(event);
        if changed {
            self.state.status = AccessStatus::Ready;
        }
        if submit {
            submission = self.state.prepare_submission();
        }
        if changed || submit {
            self.publish();
        }
        submission
    }

    #[verifier::spinoff_prover]
    #[verifier::rlimit(40)]
    fn resolution_keyboard(
        &mut self,
        event: &KeyboardEvent,
        sessions: &mut SessionCoordinator,
        desktop: DesktopSize,
    ) -> (outcome: (Option<AccessAction>, Vec<u64>, Option<RememberedResolution>))
        requires
            !old(self)@.state.inert(),
            old(self)@.state.authenticated,
            old(self)@.state.host_available,
        ensures
            ({
                let step = old(self)@.state.key_step(
                    *event,
                    old(self)@.other_owner(old(sessions)@),
                );
                &&& final(self)@ == old(self)@.after_step(step)
                &&& outcome.0 == step.action
                &&& outcome.2 == step.remember
                &&& step.submission is None
                &&& old(self)@.handover(
                    step,
                    old(sessions)@,
                    desktop,
                    final(sessions)@,
                    outcome.1@,
                )
                &&& old(sessions)@.consistent() ==> final(sessions)@.consistent()
            }),
    {
        if self.state.handle_resolution_keyboard(event) {
            let outcome = self.apply_resolution_choice(sessions, desktop);
            self.publish();
            outcome
        } else {
            if !matches!(event, KeyboardEvent::Released { .. }) {
                self.publish();
            }
            (None, Vec::new(), None)
        }
    }

    /// Handles what the pointer does; only moves and left clicks matter.
    #[verifier::spinoff_prover]
    #[verifier::rlimit(40)]
    pub fn handle_mouse(
        &mut self,
        event: &MouseEvent,
        sessions: &mut SessionCoordinator,
        desktop: DesktopSize,
    ) -> (response: AccessResponse)
        ensures
            ({
                let step = old(self)@.state.mouse_step(
                    *event,
                    old(self)@.other_owner(old(sessions)@),
                );
                &&& final(self)@ == old(self)@.after_step(step)
                &&& response.action == step.action
                &&& response.remember == step.remember
                &&& submission_view(response.submission) == step.submission
                &&& old(self)@.handover(
                    step,
                    old(sessions)@,
                    desktop,
                    final(sessions)@,
                    response.disconnected@,
                )
            }),
            old(self)@.shows_current_state() ==> final(self)@.shows_current_state(),
            old(sessions)@.consistent() ==> final(sessions)@.consistent(),
    {
        match *event {
            MouseEvent::Move { x, y } => {
                self.state.pointer = (x, y);
            },
            MouseEvent::Button { x, y, button, pressed } => {
                if button == MouseButton::Left && pressed {
                    self.state.pointer = (x, y);
                    return self.click(sessions, desktop);
                }
            },
            _ => {},
        }
        AccessResponse {
            action: None,
            submission: None,
            remember: None,
            disconnected: Vec::new(),
        }
    }

    #[verifier::spinoff_prover]
    #[verifier::rlimit(40)]
    fn click(&mut self, sessions: &mut SessionCoordinator, desktop: DesktopSize) -> (response:
        AccessResponse)
        ensures
            ({
                let step = old(self)@.state.click_step(old(self)@.other_owner(old(sessions)@));
                &&& final(self)@ == old(self)@.after_step(step)
                &&& response.action == step.action
                &&& response.remember == step.remember
                &&& submission_view(response.submission) == step.submission
                &&& old(self)@.handover(
                    step,
                    old(sessions)@,
                    desktop,
                    final(sessions)@,
                    response.disconnected@,
                )
            }),
            old(sessions)@.consistent() ==> final(sessions)@.consistent(),
    {
        let mut response = AccessResponse {
            action: None,
            submission: None,
            remember: None,
            disconnected: Vec::new(),
        };
        if self.state.is_inert() || (self.state.authenticated && !self.state.host_available) {
            return response;
        }
        if let Some(size) = self.state.client_size {
            let layout = UiLayout::new(
                size,
                self.state.authenticated,
                self.state.takeover_required,
            );
            if self.state.authenticated {
                let (action, disconnected, remember) = self.resolution_click(
                    &layout,
                    sessions,
                    desktop,
                );
                response.action = action;
                response.disconnected = disconnected;
                response.remember = remember;
            } else {
                response.submission = self.login_click(&layout);
            }
        }
        response
    }

    #[verifier::spinoff_prover]
    #[verifier::rlimit(40)]
    fn login_click(&mut self, layout: &UiLayout) -> (submission: Option<ValidationSubmission>)
        ensures
            ({
                let step = old(self)@.state.login_click_step(*layout);
                &&& final(self)@ == old(self)@.after_step(step)
                &&& submission_view(submission) == step.submission
                &&& step.action is None && step.remember is None && !step.proceeds
            }),
    {
        let (x, y) = self.state.pointer;
        let mut submission: Option<ValidationSubmission> = None;
        if layout.primary.contains(x, y) {
            self.state.focus = AccessField::Username;
            self.state.status = AccessStatus::Ready;
            self.publish();
        } else if layout.secondary.contains(x, y) {
            self.state.focus = AccessField::Password;
            self.state.status = AccessStatus::Ready;
            self.publish();
        } else if layout.submit.contains(x, y) {
            submission = self.state.prepare_submission();
            self.publish();
        } else if layout.remember.contains(x, y) {
            self.state.focus = AccessField::Remember;
            self.state.remember.client = !self.state.remember.client;
            self.state.status = AccessStatus::Ready;
            self.publish();
        }
        submission
    }

    #[verifier::spinoff_prover]
    #[verifier::rlimit(40)]
    fn resolution_click(
        &mut self,
        layout: &UiLayout,
        sessions: &mut SessionCoordinator,
        desktop: DesktopSize,
    ) -> (outcome: (Option<AccessAction>, Vec<u64>, Option<RememberedResolution>))
        ensures
            ({
                let step = old(self)@.state.resolution_click_step(
                    *layout,
                    old(self)@.other_owner(old(sessions)@),
                );
                &&& final(self)@ == old(self)@.after_step(step)
                &&& outcome.0 == step.action
                &&& outcome.2 == step.remember
                &&& step.submission is None
                &&& old(self)@.handover(
                    step,
                    old(sessions)@,
                    desktop,
                    final(sessions)@,
                    outcome.1@,
                )
                &&& old(sessions)@.consistent() ==> final(sessions)@.consistent()
            }),
    {
        let (x, y) = self.state.pointer;
        if self.state.click_option(layout) {
            self.publish();
            (None, Vec::new(), None)
        } else if layout.submit.contains(x, y) {
            let outcome = self.apply_resolution_choice(sessions, desktop);
            self.publish();
            outcome
        } else {
            (None, Vec::new(), None)
        }
    }

    /// The published access screen, as it stands on a canvas of the given size.
    pub fn render_frame(&self, size: DesktopSize) -> (scene: Scene)
        ensures
            scene@ == crate::scene::access_screen(size, self@.published),
    {
        render_access_frame(size, &self.published)
    }

    /// Notes that the display could not be changed: a client that wanted it to
    /// follow sees it scaled instead.
    pub fn resolution_change_failed(&mut self)
        ensures
            final(self)@ == if old(self)@.state.authenticated && old(self)@.state.resolution_policy
                == Some(ResolutionSelection::MatchDisplay) {
                old(self)@.publishing(old(self)@.state.after_failed_change())
            } else {
                old(self)@
            },
            old(self)@.shows_current_state() ==> final(self)@.shows_current_state(),
    {
        if self.state.authenticated && self.state.resolution_policy == Some(
            ResolutionSelection::MatchDisplay,
        ) {
            self.state.presentation = Some(DesktopPresentation::Scale);
            self.state.status = AccessStatus::Granted;
            self.publish();
        }
    }
}

} // verus!
