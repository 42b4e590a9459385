//! The settings under edit in the administration window.

use vstd::prelude::*;

use crate::config::{AppConfig, ConfigModel};

verus! {

/// What the window says below the settings.
#[derive(Debug, Clone, Copy, PartialEq, Eq, Structural)]
pub enum AdminStatus {
    Loaded,
    Reloaded,
    UserAdded,
    UserRemoved,
    Saved,
    SaveFailed,
    LoadFailed,
}

/// The settings under edit, the name in the entry field and the chosen account.
pub struct AdminState {
    pub config: AppConfig,
    pub new_user: String,
    pub selected_user: Option<usize>,
    pub status: AdminStatus,
}

/// Whether a name is listed, where only the letters of ASCII have a case.
pub open spec fn is_listed(users: Seq<Seq<char>>, user: Seq<char>) -> bool {
    exists|i: int|
        0 <= i < users.len() && crate::text::ascii_lowercase(#[trigger] users[i])
            == crate::text::ascii_lowercase(user)
}

/// The settings with one more account at the end of the list.
pub open spec fn with_user(config: ConfigModel, user: Seq<char>) -> ConfigModel {
    ConfigModel { allowed_users: config.allowed_users.push(user), ..config }
}

/// The settings without the account at a place of the list.
pub open spec fn without_user(config: ConfigModel, at: int) -> ConfigModel {
    ConfigModel { allowed_users: config.allowed_users.remove(at), ..config }
}

impl AdminState {
    /// The settings as they were loaded.
    pub fn load(config: AppConfig) -> (state: Self)
        ensures
            state.config@ == config@,
            state.new_user@ == Seq::<char>::empty(),
            state.selected_user is None,
            state.status == AdminStatus::Loaded,
    {
        AdminState {
            config,
            new_user: String::new(),
            selected_user: None,
            status: AdminStatus::Loaded,
        }
    }

    /// Whether a name is listed.
    fn lists(&self, user: &str) -> (listed: bool)
        ensures
            listed == is_listed(self.config@.allowed_users, user@),
    {
        let ghost users = self.config@.allowed_users;
        let mut k: usize = 0;
        while k < self.config.allowed_users.len()
            invariant
                k <= self.config.allowed_users.len(),
                users == crate::text::texts(self.config.allowed_users@),
                forall|i: int|
                    0 <= i < k ==> crate::text::ascii_lowercase(#[trigger] users[i])
                        != crate::text::ascii_lowercase(user@),
            decreases self.config.allowed_users.len() - k,
        {
            assert(users[k as int] == self.config.allowed_users@[k as int]@);
            if self.config.allowed_users[k].as_str().eq_ignore_ascii_case(user) {
                return true;
            }
            k += 1;
        }
        false
    }

    /// Adds the account in the entry field to the list, unless the field is blank or
    /// the account is listed. An added account leaves the field empty.
    pub fn add_user(&mut self)
        ensures
            final(self).selected_user == old(self).selected_user,
            ({
                let user = crate::text::trimmed(old(self).new_user@);
                if user.len() == 0 || is_listed(old(self).config@.allowed_users, user) {
                    final(self).config@ == old(self).config@ && final(self).new_user@ == old(
                        self,
                    ).new_user@ && final(self).status == old(self).status
                } else {
                    with_user(old(self).config@, user).normalizes_to(final(self).config@)
                        && final(self).new_user@ == Seq::<char>::empty() && final(self).status
                        == AdminStatus::UserAdded
                }
            }),
    {
        let user = self.new_user.as_str().trim().to_owned();
        if user.as_str().is_empty() {
            return ;
        }
        if self.lists(user.as_str()) {
            return ;
        }
        let ghost before = self.config@;
        let ghost name = user@;
        self.config.allowed_users.push(user);
        assert(self.config@ =~= with_user(before, name));
        self.config.normalize();
        self.new_user.clear();
        self.status = AdminStatus::UserAdded;
    }

    /// Removes the chosen account from the list; afterwards none is chosen.
    pub fn remove_selected_user(&mut self)
        ensures
            final(self).new_user@ == old(self).new_user@,
            final(self).selected_user is None,
            match old(self).selected_user {
                Some(at) if at < old(self).config@.allowed_users.len() => final(self).config@
                    == without_user(old(self).config@, at as int) && final(self).status
                    == AdminStatus::UserRemoved,
                _ => final(self).config@ == old(self).config@ && final(self).status == old(
                    self,
                ).status,
            },
    {
        let chosen = self.selected_user;
        self.selected_user = None;
        if let Some(at) = chosen {
            if at < self.config.allowed_users.len() {
                let ghost before = self.config@;
                let _ = self.config.allowed_users.remove(at);
                assert(self.config@ =~= without_user(before, at as int));
                self.status = AdminStatus::UserRemoved;
            }
        }
    }

    /// Brings the settings into their normal form before they are written down.
    pub fn prepare_save(&mut self)
        ensures
            old(self).config@.normalizes_to(final(self).config@),
            final(self).new_user@ == old(self).new_user@,
            final(self).selected_user == old(self).selected_user,
            final(self).status == old(self).status,
    {
        self.config.normalize();
    }

    /// Takes whether the settings were written down.
    pub fn saved(&mut self, written: bool)
        ensures
            final(self).config@ == old(self).config@,
            final(self).new_user@ == old(self).new_user@,
            final(self).selected_user == old(self).selected_user,
            final(self).status == (if written {
                AdminStatus::Saved
            } else {
                AdminStatus::SaveFailed
            }),
    {
        self.status = if written {
            AdminStatus::Saved
        } else {
            AdminStatus::SaveFailed
        };
    }

    /// Takes the settings as they were loaded again, if they were.
    pub fn reload(&mut self, loaded: Option<AppConfig>)
        ensures
            final(self).new_user@ == old(self).new_user@,
            match loaded {
                Some(config) => final(self).config@ == config@ && final(self).selected_user is None
                    && final(self).status == AdminStatus::Reloaded,
                None => final(self).config@ == old(self).config@ && final(self).selected_user
                    == old(self).selected_user && final(self).status == AdminStatus::LoadFailed,
            },
    {
        match loaded {
            Some(config) => {
                self.config = config;
                self.selected_user = None;
                self.status = AdminStatus::Reloaded;
            },
            None => {
                self.status = AdminStatus::LoadFailed;
            },
        }
    }
}

/// An account that was added may connect under any spelling with the same key.
pub proof fn law_added_account_may_connect(
    config: ConfigModel,
    user: Seq<char>,
    next: ConfigModel,
    account: Seq<char>,
)
    requires
        with_user(config, user).normalizes_to(next),
        crate::config::account_key(user).len() > 0,
        crate::config::account_key(account) == crate::config::account_key(user),
    ensures
        next.allows(seq![account]),
{
    let users = with_user(config, user).allowed_users;
    assert(users[users.len() - 1] == user);
    crate::config::law_listed_accounts_may_connect(with_user(config, user), next, account);
}

/// An account that was listed once and removed may no longer connect.
pub proof fn law_removed_account_is_gone(config: ConfigModel, at: int, account: Seq<char>)
    requires
        0 <= at < config.allowed_users.len(),
        crate::sorted::strictly_sorted(config.allowed_users),
        config.allowed_users[at] == crate::config::account_key(account),
    ensures
        !without_user(config, at).allows(seq![account]),
{
    let next = without_user(config, at);
    let key = crate::config::account_key(account);
    if next.allowed_users.contains(key) {
        let i = choose|i: int| 0 <= i < next.allowed_users.len() && next.allowed_users[i] == key;
        crate::sorted::lemma_not_before_itself(key);
        if i < at {
            assert(config.allowed_users[i] == key);
        } else {
            assert(config.allowed_users[i + 1] == key);
        }
    }
    assert(seq![account][0] == account);
}

/// A name is listed whatever its case, and not for its beginning alone; adding one puts it
/// behind the others, and removing one leaves the others in their order.
pub proof fn law_lists_change_by_one_name(
    config: ConfigModel,
    user: Seq<char>,
    other: Seq<char>,
    at: int,
    i: int,
)
    requires
        0 <= at < config.allowed_users.len(),
        0 <= i < config.allowed_users.len(),
    ensures
        is_listed(config.allowed_users, config.allowed_users[at]),
        crate::text::ascii_lowercase(user) == crate::text::ascii_lowercase(other) ==> is_listed(
            config.allowed_users,
            user,
        ) == is_listed(config.allowed_users, other),
        crate::text::ascii_lowercase(user) == crate::text::ascii_lowercase(
            config.allowed_users[at],
        ) ==> is_listed(config.allowed_users, user),
        (forall|k: int|
            0 <= k < config.allowed_users.len() ==> (#[trigger] config.allowed_users[k]).len()
                != user.len()) ==> !is_listed(config.allowed_users, user),
        ({
            let more = with_user(config, user);
            let fewer = without_user(config, at);
            &&& more.allowed_users.len() == config.allowed_users.len() + 1
            &&& more.allowed_users.last() == user && more.allowed_users[i]
                == config.allowed_users[i]
            &&& fewer.allowed_users.len() == config.allowed_users.len() - 1
            &&& i < at ==> fewer.allowed_users[i] == config.allowed_users[i]
            &&& i > at ==> fewer.allowed_users[i - 1] == config.allowed_users[i]
            &&& more.port == config.port && fewer.port == config.port
            &&& more.bind_address == config.bind_address && fewer.bind_address
                == config.bind_address
            &&& more.enabled == config.enabled && fewer.enabled == config.enabled
            &&& more.allow_control == config.allow_control && fewer.allow_control
                == config.allow_control
            &&& more.fps == config.fps && fewer.fps == config.fps
            &&& more.max_clients == config.max_clients && fewer.max_clients == config.max_clients
        }),
{
    let users = config.allowed_users;
    assert(crate::text::ascii_lowercase(users[at]) == crate::text::ascii_lowercase(users[at]));
    if is_listed(users, user) {
        let k = choose|k: int|
            0 <= k < users.len() && crate::text::ascii_lowercase(#[trigger] users[k])
                == crate::text::ascii_lowercase(user);
        assert(users[k].len() == crate::text::ascii_lowercase(users[k]).len());
        assert(user.len() == crate::text::ascii_lowercase(user).len());
    }
}

} // verus!
