//! What is remembered of clients. A change is planned first and takes effect only
//! when it has been written down, so that nothing is trusted that a restart would
//! forget.

use vstd::prelude::*;

use crate::trust::{ClientIdentity, IdentityModel, TRUST_SCHEMA_VERSION};

verus! {

/// How a client wants the desktop shown.
#[derive(Debug, Clone, Copy, PartialEq, Eq, Structural)]
pub enum RememberedResolution {
    Scale,
    MatchDisplay,
}

/// What is remembered of a client.
#[derive(Debug, PartialEq, Eq)]
pub struct ClientPreferences {
    pub trusted_username: Option<String>,
    pub resolution: Option<RememberedResolution>,
}

/// What is remembered of a client, as values.
#[verifier::ext_equal]
pub struct PreferencesModel {
    pub trusted_username: Option<Seq<char>>,
    pub resolution: Option<RememberedResolution>,
}

/// A text that may be missing, as a value.
pub open spec fn text_of(text: Option<String>) -> Option<Seq<char>> {
    match text {
        Some(text) => Some(text@),
        None => None,
    }
}

impl View for ClientPreferences {
    type V = PreferencesModel;

    open spec fn view(&self) -> PreferencesModel {
        PreferencesModel {
            trusted_username: text_of(self.trusted_username),
            resolution: self.resolution,
        }
    }
}

impl PreferencesModel {
    /// What is remembered of a client that was never seen.
    pub open spec fn nothing() -> PreferencesModel {
        PreferencesModel { trusted_username: None, resolution: None }
    }
}

impl Default for ClientPreferences {
    fn default() -> (preferences: Self)
        ensures
            preferences@ == PreferencesModel::nothing(),
    {
        ClientPreferences { trusted_username: None, resolution: None }
    }
}

/// The record of a client.
#[derive(Debug)]
pub struct TrustedClientRecord {
    pub identity: String,
    pub label: String,
    pub trusted_username: Option<String>,
    pub resolution: Option<RememberedResolution>,
}

/// The record of a client, as values.
#[verifier::ext_equal]
pub struct RecordModel {
    pub identity: Seq<char>,
    pub label: Seq<char>,
    pub preferences: PreferencesModel,
}

impl View for TrustedClientRecord {
    type V = RecordModel;

    open spec fn view(&self) -> RecordModel {
        RecordModel {
            identity: self.identity@,
            label: self.label@,
            preferences: PreferencesModel {
                trusted_username: text_of(self.trusted_username),
                resolution: self.resolution,
            },
        }
    }
}

/// A copy of a text that may be missing.
fn copy_text(text: &Option<String>) -> (copy: Option<String>)
    ensures
        text_of(copy) == text_of(*text),
{
    match text {
        Some(text) => Some(text.clone()),
        None => None,
    }
}

impl Clone for TrustedClientRecord {
    fn clone(&self) -> (copy: Self)
        ensures
            copy@ == self@,
    {
        TrustedClientRecord {
            identity: self.identity.clone(),
            label: self.label.clone(),
            trusted_username: copy_text(&self.trusted_username),
            resolution: self.resolution,
        }
    }
}

/// The records of a list.
pub open spec fn records(list: Seq<TrustedClientRecord>) -> Seq<RecordModel> {
    list.map_values(|record: TrustedClientRecord| record@)
}

impl RecordModel {
    /// Whether the record says anything.
    pub open spec fn says_something(self) -> bool {
        self.preferences.trusted_username is Some || self.preferences.resolution is Some
    }

    /// Whether the record is kept when it is read: it says something of someone.
    pub open spec fn valid(self) -> bool {
        crate::text::trimmed(self.identity).len() > 0 && self.says_something()
    }
}

/// Whether every record says something.
pub open spec fn all_say_something(clients: Seq<RecordModel>) -> bool {
    forall|i: int| 0 <= i < clients.len() ==> (#[trigger] clients[i]).says_something()
}

/// The records that say anything, in their order.
pub open spec fn kept(clients: Seq<RecordModel>) -> Seq<RecordModel>
    decreases clients.len(),
{
    if clients.len() == 0 {
        clients
    } else if clients[0].says_something() {
        seq![clients[0]] + kept(clients.drop_first())
    } else {
        kept(clients.drop_first())
    }
}

/// The records that are kept when they are read, in their order.
pub open spec fn readable(clients: Seq<RecordModel>) -> Seq<RecordModel>
    decreases clients.len(),
{
    if clients.len() == 0 {
        clients
    } else if clients[0].valid() {
        seq![clients[0]] + readable(clients.drop_first())
    } else {
        readable(clients.drop_first())
    }
}

/// What is remembered under a key: the first record with it.
pub open spec fn remembered(clients: Seq<RecordModel>, key: Seq<char>) -> PreferencesModel
    decreases clients.len(),
{
    if clients.len() == 0 {
        PreferencesModel::nothing()
    } else if clients[0].identity == key {
        clients[0].preferences
    } else {
        remembered(clients.drop_first(), key)
    }
}

/// A change of what is remembered.
pub enum ChangeModel {
    SignIn(Seq<char>),
    Resolution(Option<RememberedResolution>),
}

impl PreferencesModel {
    /// What is remembered after a change.
    pub open spec fn changed(self, change: ChangeModel) -> PreferencesModel {
        match change {
            ChangeModel::SignIn(username) => PreferencesModel {
                trusted_username: Some(username),
                ..self
            },
            ChangeModel::Resolution(resolution) => PreferencesModel { resolution, ..self },
        }
    }
}

/// The records after a change: the client's first one, or a new one, has it, and the
/// client's current label.
pub open spec fn changed(
    clients: Seq<RecordModel>,
    identity: IdentityModel,
    change: ChangeModel,
) -> Seq<RecordModel>
    decreases clients.len(),
{
    if clients.len() == 0 {
        seq![
            RecordModel {
                identity: identity.key,
                label: identity.label,
                preferences: PreferencesModel::nothing().changed(change),
            },
        ]
    } else if clients[0].identity == identity.key {
        seq![
            RecordModel {
                identity: identity.key,
                label: identity.label,
                preferences: clients[0].preferences.changed(change),
            },
        ] + clients.drop_first()
    } else {
        seq![clients[0]] + changed(clients.drop_first(), identity, change)
    }
}

/// The records that are written down after a change.
pub open spec fn updated(
    clients: Seq<RecordModel>,
    identity: IdentityModel,
    change: ChangeModel,
) -> Seq<RecordModel> {
    kept(changed(clients, identity, change))
}

/// A change of what is remembered.
enum Change {
    SignIn(String),
    Resolution(Option<RememberedResolution>),
}

impl View for Change {
    type V = ChangeModel;

    closed spec fn view(&self) -> ChangeModel {
        match *self {
            Change::SignIn(username) => ChangeModel::SignIn(username@),
            Change::Resolution(resolution) => ChangeModel::Resolution(resolution),
        }
    }
}

/// The file of remembered clients, as it was found.
pub enum StoredClients {
    /// There is no file.
    Missing,
    /// The file cannot be read.
    Unreadable,
    /// The file's version and records.
    Found { schema_version: u32, clients: Vec<TrustedClientRecord> },
}

/// Why nothing can be remembered.
#[derive(Debug, Clone, Copy, PartialEq, Eq, Structural)]
pub enum TrustError {
    /// The account has no name.
    EmptyUsername,
}

/// What is remembered of clients.
pub struct TrustedClientStore {
    clients: Vec<TrustedClientRecord>,
}

/// A change that is not in effect yet: the records to write down.
pub struct PendingClients {
    clients: Vec<TrustedClientRecord>,
}

impl TrustedClientStore {
    /// Every record says something.
    #[verifier::type_invariant]
    spec fn holds(self) -> bool {
        all_say_something(self@)
    }
}

impl PendingClients {
    /// Every record says something.
    #[verifier::type_invariant]
    spec fn holds(self) -> bool {
        all_say_something(self@)
    }
}

impl View for TrustedClientStore {
    type V = Seq<RecordModel>;

    closed spec fn view(&self) -> Seq<RecordModel> {
        records(self.clients@)
    }
}

impl View for PendingClients {
    type V = Seq<RecordModel>;

    closed spec fn view(&self) -> Seq<RecordModel> {
        records(self.clients@)
    }
}

impl PendingClients {
    /// The version of the file.
    pub fn schema_version(&self) -> (version: u32)
        ensures
            version == TRUST_SCHEMA_VERSION,
    {
        TRUST_SCHEMA_VERSION
    }

    /// The records to write down.
    pub fn clients(&self) -> (clients: &Vec<TrustedClientRecord>)
        ensures
            records(clients@) == self@,
    {
        &self.clients
    }
}

/// What is kept and what is readable of one record.
proof fn lemma_one_record(record: RecordModel)
    ensures
        kept(seq![record]) == (if record.says_something() {
            seq![record]
        } else {
            Seq::empty()
        }),
        readable(seq![record]) == (if record.valid() {
            seq![record]
        } else {
            Seq::empty()
        }),
{
    reveal_with_fuel(kept, 2);
    reveal_with_fuel(readable, 2);
    assert(seq![record].drop_first() =~= Seq::<RecordModel>::empty());
    assert(seq![record] + Seq::<RecordModel>::empty() =~= seq![record]);
}

/// What is kept of two lists, one behind the other.
proof fn lemma_kept_of_both(first: Seq<RecordModel>, second: Seq<RecordModel>)
    ensures
        kept(first + second) == kept(first) + kept(second),
    decreases first.len(),
{
    if first.len() == 0 {
        assert(first + second =~= second);
        assert(kept(first) + kept(second) =~= kept(second));
    } else {
        assert((first + second)[0] == first[0]);
        assert((first + second).drop_first() =~= first.drop_first() + second);
        lemma_kept_of_both(first.drop_first(), second);
        assert(kept(first + second) =~= kept(first) + kept(second));
    }
}

/// What is readable of two lists, one behind the other.
proof fn lemma_readable_of_both(first: Seq<RecordModel>, second: Seq<RecordModel>)
    ensures
        readable(first + second) == readable(first) + readable(second),
    decreases first.len(),
{
    if first.len() == 0 {
        assert(first + second =~= second);
        assert(readable(first) + readable(second) =~= readable(second));
    } else {
        assert((first + second)[0] == first[0]);
        assert((first + second).drop_first() =~= first.drop_first() + second);
        lemma_readable_of_both(first.drop_first(), second);
        assert(readable(first + second) =~= readable(first) + readable(second));
    }
}

/// The records of a file: those that can be read, and none of a file that is missing,
/// unreadable or of another version.
pub open spec fn loaded(stored: StoredClients) -> Seq<RecordModel> {
    match stored {
        StoredClients::Found { schema_version, clients } => if schema_version
            == TRUST_SCHEMA_VERSION {
            readable(records(clients@))
        } else {
            Seq::empty()
        },
        _ => Seq::empty(),
    }
}

/// Where the file is missing, unreadable or of another version, no client is known: all
/// have to sign in.
pub proof fn law_lost_records_trust_nobody(stored: StoredClients, key: Seq<char>)
    requires
        !(stored matches StoredClients::Found { schema_version, .. } && schema_version
            == TRUST_SCHEMA_VERSION),
    ensures
        remembered(loaded(stored), key) == PreferencesModel::nothing(),
{
}

impl TrustedClientStore {
    /// A store from its file. A file that is missing, unreadable or of another version
    /// leaves nothing remembered.
    pub fn load(stored: StoredClients) -> (store: Self)
        ensures
            store@ == loaded(stored),
    {
        let mut list: Vec<TrustedClientRecord> = Vec::new();
        let ghost found = stored;
        assert(records(list@) =~= Seq::<RecordModel>::empty());
        if let StoredClients::Found { schema_version, clients } = stored {
            if schema_version == TRUST_SCHEMA_VERSION {
                let ghost all = records(clients@);
                let mut k: usize = 0;
                assert(all.take(0) =~= Seq::<RecordModel>::empty());
                while k < clients.len()
                    invariant
                        k <= clients.len(),
                        all == records(clients@),
                        records(list@) == readable(all.take(k as int)),
                    decreases clients.len() - k,
                {
                    let record = &clients[k];
                    let ghost before = list@;
                    let valid = !record.identity.as_str().trim().is_empty() && (
                    record.trusted_username.is_some() || record.resolution.is_some());
                    if valid {
                        list.push(record.clone());
                    }
                    proof {
                        let one = seq![all[k as int]];
                        assert(all.take(k + 1) =~= all.take(k as int) + one);
                        lemma_readable_of_both(all.take(k as int), one);
                        lemma_one_record(all[k as int]);
                        assert(records(list@) =~= records(before) + readable(one));
                    }
                    k += 1;
                }
                assert(all.take(k as int) =~= all);
            }
        }
        proof {
            if let StoredClients::Found { clients, .. } = found {
                law_read_records_are_valid(records(clients@));
            }
        }
        TrustedClientStore { clients: list }
    }

    /// What is remembered of a client.
    pub fn preferences(&self, identity: &ClientIdentity) -> (preferences: ClientPreferences)
        ensures
            preferences@ == remembered(self@, identity@.key),
    {
        let ghost all = self@;
        let ghost key = identity@.key;
        let mut k: usize = 0;
        assert(all.skip(0) =~= all);
        while k < self.clients.len()
            invariant
                k <= self.clients.len(),
                all == records(self.clients@),
                key == identity@.key,
                remembered(all, key) == remembered(all.skip(k as int), key),
            decreases self.clients.len() - k,
        {
            let record = &self.clients[k];
            assert(all.skip(k as int)[0] == record@);
            assert(all.skip(k as int).drop_first() =~= all.skip(k + 1));
            if crate::text::same_text(record.identity.as_str(), identity.key()) {
                return ClientPreferences {
                    trusted_username: copy_text(&record.trusted_username),
                    resolution: record.resolution,
                };
            }
            k += 1;
        }
        ClientPreferences::default()
    }

    /// Plans to remember that a client signed in with an account. The way that it wants
    /// the desktop shown stays, and so does what is remembered of every other client.
    pub fn remember_sign_in(&self, identity: &ClientIdentity, username: &str) -> (result: Result<
        PendingClients,
        TrustError,
    >)
        ensures
            if crate::text::trimmed(username@).len() == 0 {
                result matches Err(error) && error == TrustError::EmptyUsername
            } else {
                result matches Ok(pending) && {
                    &&& pending@ == updated(
                        self@,
                        identity@,
                        ChangeModel::SignIn(crate::text::trimmed(username@)),
                    )
                    &&& remembered(pending@, identity@.key) == (PreferencesModel {
                        trusted_username: Some(crate::text::trimmed(username@)),
                        resolution: remembered(self@, identity@.key).resolution,
                    })
                    &&& forall|other: Seq<char>|
                        other != identity@.key ==> #[trigger] remembered(pending@, other)
                            == remembered(self@, other)
                }
            },
    {
        let username = username.trim();
        if username.is_empty() {
            return Err(TrustError::EmptyUsername);
        }
        proof {
            law_sign_in_is_remembered(self@, identity@, username@);
        }
        Ok(self.update(identity, Change::SignIn(username.to_owned())))
    }

    /// Plans to remember how a client wants the desktop shown, or to forget it. What is
    /// remembered of every other client stays, and so does the account of this one, where
    /// the file held no second record of it.
    pub fn set_resolution(
        &self,
        identity: &ClientIdentity,
        resolution: Option<RememberedResolution>,
    ) -> (pending: PendingClients)
        ensures
            pending@ == updated(self@, identity@, ChangeModel::Resolution(resolution)),
            one_record_each(self@) ==> remembered(pending@, identity@.key) == (PreferencesModel {
                trusted_username: remembered(self@, identity@.key).trusted_username,
                resolution,
            }),
            forall|other: Seq<char>|
                other != identity@.key ==> #[trigger] remembered(pending@, other) == remembered(
                    self@,
                    other,
                ),
    {
        proof {
            if one_record_each(self@) {
                law_resolution_is_remembered(self@, identity@, resolution);
            }
        }
        self.update(identity, Change::Resolution(resolution))
    }

    /// Puts a change into effect, now that it has been written down.
    pub fn commit(&mut self, pending: PendingClients)
        ensures
            final(self)@ == pending@,
    {
        proof {
            use_type_invariant(&pending);
        }
        self.clients = pending.clients;
    }

    /// Applies a change to a record.
    fn apply(
        record: &TrustedClientRecord,
        identity: &ClientIdentity,
        change: &Change,
    ) -> (next: TrustedClientRecord)
        ensures
            next@ == (RecordModel {
                identity: record@.identity,
                label: identity@.label,
                preferences: record@.preferences.changed(change@),
            }),
    {
        let mut next = record.clone();
        next.label = identity.label().to_owned();
        match change {
            Change::SignIn(username) => {
                next.trusted_username = Some(username.clone());
            },
            Change::Resolution(resolution) => {
                next.resolution = *resolution;
            },
        }
        next
    }

    /// Adds a record to a list where it says anything.
    fn push_kept(list: &mut Vec<TrustedClientRecord>, record: TrustedClientRecord)
        ensures
            records(final(list)@) == records(old(list)@) + kept(seq![record@]),
    {
        let ghost one = seq![record@];
        let ghost before = list@;
        proof {
            lemma_one_record(record@);
        }
        if record.trusted_username.is_some() || record.resolution.is_some() {
            list.push(record);
        }
        assert(records(list@) =~= records(before) + kept(one));
    }

    fn update(&self, identity: &ClientIdentity, change: Change) -> (pending: PendingClients)
        ensures
            pending@ == updated(self@, identity@, change@),
            forall|other: Seq<char>|
                other != identity@.key ==> #[trigger] remembered(pending@, other) == remembered(
                    self@,
                    other,
                ),
    {
        let ghost all = self@;
        let ghost client = identity@;
        let mut list: Vec<TrustedClientRecord> = Vec::new();
        let mut found = false;
        let mut k: usize = 0;
        proof {
            assert(records(list@) =~= kept(all.take(0)));
            assert(all.skip(0) =~= all);
            assert(all.take(0) + changed(all, client, change@) =~= changed(all, client, change@));
        }
        while k < self.clients.len()
            invariant
                k <= self.clients.len(),
                all == records(self.clients@),
                client == identity@,
                !found ==> records(list@) == kept(all.take(k as int)) && changed(
                    all,
                    client,
                    change@,
                ) == all.take(k as int) + changed(all.skip(k as int), client, change@),
                found ==> exists|done: Seq<RecordModel>| #[trigger]
                    kept(done) == records(list@) && changed(all, client, change@) == done
                        + all.skip(k as int),
            decreases self.clients.len() - k,
        {
            let record = &self.clients[k];
            let ghost rest = all.skip(k as int);
            proof {
                assert(rest[0] == record@);
                assert(rest.drop_first() =~= all.skip(k + 1));
                assert(all.take(k + 1) =~= all.take(k as int) + seq![record@]);
            }
            if !found && crate::text::same_text(record.identity.as_str(), identity.key()) {
                let next = Self::apply(record, identity, &change);
                let ghost one = seq![next@];
                Self::push_kept(&mut list, next);
                found = true;
                proof {
                    let done = all.take(k as int) + one;
                    lemma_kept_of_both(all.take(k as int), one);
                    assert(kept(done) == records(list@));
                    assert(changed(all, client, change@) =~= done + all.skip(k + 1));
                }
            } else {
                let ghost one = seq![record@];
                let ghost before = list@;
                Self::push_kept(&mut list, record.clone());
                proof {
                    if found {
                        let done = choose|done: Seq<RecordModel>| #[trigger]
                            kept(done) == records(before) && changed(all, client, change@) == done
                                + all.skip(k as int);
                        lemma_kept_of_both(done, one);
                        assert(kept(done + one) == records(list@));
                        assert(changed(all, client, change@) =~= (done + one) + all.skip(k + 1));
                    } else {
                        lemma_kept_of_both(all.take(k as int), one);
                        assert(changed(all, client, change@) =~= all.take(k + 1) + changed(
                            all.skip(k + 1),
                            client,
                            change@,
                        ));
                    }
                }
            }
            k += 1;
        }
        if !found {
            let fresh = TrustedClientRecord {
                identity: identity.key().to_owned(),
                label: identity.label().to_owned(),
                trusted_username: None,
                resolution: None,
            };
            let next = Self::apply(&fresh, identity, &change);
            let ghost one = seq![next@];
            Self::push_kept(&mut list, next);
            proof {
                assert(all.skip(k as int) =~= Seq::<RecordModel>::empty());
                assert(changed(all.skip(k as int), client, change@) =~= one);
                lemma_kept_of_both(all.take(k as int), one);
            }
        } else {
            proof {
                let done = choose|done: Seq<RecordModel>| #[trigger]
                    kept(done) == records(list@) && changed(all, client, change@) == done
                        + all.skip(k as int);
                assert(done + all.skip(k as int) =~= done);
            }
        }
        proof {
            use_type_invariant(self);
            lemma_kept_say_something(changed(all, client, change@));
            assert forall|other: Seq<char>| other != client.key implies #[trigger] remembered(
                records(list@),
                other,
            ) == remembered(all, other) by {
                law_other_clients_are_left_alone(all, client, change@, other);
            }
        }
        PendingClients { clients: list }
    }
}

/// What is remembered under a key is the same in what is kept, where the client's
/// first record says anything or none of its records does.
proof fn lemma_kept_is_remembered(clients: Seq<RecordModel>, key: Seq<char>)
    requires
        remembered(clients, key) != PreferencesModel::nothing() || forall|i: int|
            0 <= i < clients.len() && (#[trigger] clients[i]).identity == key
                ==> !clients[i].says_something(),
    ensures
        remembered(kept(clients), key) == remembered(clients, key),
    decreases clients.len(),
{
    if clients.len() > 0 {
        let rest = clients.drop_first();
        assert forall|i: int| 0 <= i < rest.len() implies #[trigger] rest[i] == clients[i + 1] by {}
        if clients[0].identity != key || !clients[0].says_something() {
            lemma_kept_is_remembered(rest, key);
        }
        if clients[0].says_something() {
            let next = kept(clients);
            assert(next[0] == clients[0]);
            assert(next.drop_first() =~= kept(rest));
        } else if clients[0].identity == key {
            assert(clients[0].preferences =~= PreferencesModel::nothing());
            lemma_nothing_remembered(rest, key);
        }
    }
}

/// Where no record of a client says anything, nothing is remembered of it.
proof fn lemma_nothing_remembered(clients: Seq<RecordModel>, key: Seq<char>)
    requires
        forall|i: int|
            0 <= i < clients.len() && (#[trigger] clients[i]).identity == key
                ==> !clients[i].says_something(),
    ensures
        remembered(clients, key) == PreferencesModel::nothing(),
    decreases clients.len(),
{
    if clients.len() > 0 {
        if clients[0].identity == key {
            assert(clients[0].preferences =~= PreferencesModel::nothing());
        } else {
            let rest = clients.drop_first();
            assert forall|i: int| 0 <= i < rest.len() implies #[trigger] rest[i] == clients[i
                + 1] by {}
            lemma_nothing_remembered(rest, key);
        }
    }
}

/// A change is remembered of its client and of no other.
proof fn lemma_change_is_remembered(
    clients: Seq<RecordModel>,
    identity: IdentityModel,
    change: ChangeModel,
    key: Seq<char>,
)
    ensures
        remembered(changed(clients, identity, change), key) == if key == identity.key {
            remembered(clients, key).changed(change)
        } else {
            remembered(clients, key)
        },
    decreases clients.len(),
{
    reveal_with_fuel(remembered, 2);
    let next = changed(clients, identity, change);
    if clients.len() == 0 {
        assert(next.drop_first() =~= Seq::<RecordModel>::empty());
    } else if clients[0].identity == identity.key {
        assert(next[0].identity == identity.key);
        assert(next.drop_first() =~= clients.drop_first());
    } else {
        lemma_change_is_remembered(clients.drop_first(), identity, change, key);
        assert(next[0] == clients[0]);
        assert(next.drop_first() =~= changed(clients.drop_first(), identity, change));
    }
}

/// Whether no client has two records.
pub open spec fn one_record_each(clients: Seq<RecordModel>) -> bool {
    forall|i: int, j: int|
        0 <= i < j < clients.len() ==> (#[trigger] clients[i]).identity != (
        #[trigger] clients[j]).identity
}

/// A sign-in is remembered, and the way the client wants the desktop shown stays.
pub proof fn law_sign_in_is_remembered(
    clients: Seq<RecordModel>,
    identity: IdentityModel,
    username: Seq<char>,
)
    ensures
        remembered(updated(clients, identity, ChangeModel::SignIn(username)), identity.key) == (
        PreferencesModel {
            trusted_username: Some(username),
            resolution: remembered(clients, identity.key).resolution,
        }),
{
    let change = ChangeModel::SignIn(username);
    lemma_change_is_remembered(clients, identity, change, identity.key);
    lemma_kept_is_remembered(changed(clients, identity, change), identity.key);
}

/// The way a client wants the desktop shown is remembered, or forgotten, and the
/// account that it signed in with stays.
pub proof fn law_resolution_is_remembered(
    clients: Seq<RecordModel>,
    identity: IdentityModel,
    resolution: Option<RememberedResolution>,
)
    requires
        one_record_each(clients),
    ensures
        remembered(
            updated(clients, identity, ChangeModel::Resolution(resolution)),
            identity.key,
        ) == (PreferencesModel {
            trusted_username: remembered(clients, identity.key).trusted_username,
            resolution,
        }),
{
    let change = ChangeModel::Resolution(resolution);
    let next = changed(clients, identity, change);
    lemma_change_is_remembered(clients, identity, change, identity.key);
    lemma_one_changed_record(clients, identity, change);
    if remembered(next, identity.key) == PreferencesModel::nothing() {
        assert forall|i: int|
            0 <= i < next.len() && (#[trigger] next[i]).identity == identity.key implies !next[i].says_something() by {
            lemma_only_record_is_remembered(next, identity.key, i);
        }
    }
    lemma_kept_is_remembered(next, identity.key);
}

/// A change adds no second record of a client.
proof fn lemma_one_changed_record(
    clients: Seq<RecordModel>,
    identity: IdentityModel,
    change: ChangeModel,
)
    requires
        one_record_each(clients),
    ensures
        one_record_each(changed(clients, identity, change)),
        forall|i: int|
            0 <= i < changed(clients, identity, change).len() ==> (#[trigger] changed(
                clients,
                identity,
                change,
            )[i]).identity == identity.key || exists|j: int|
                0 <= j < clients.len() && (#[trigger] clients[j]).identity == changed(
                    clients,
                    identity,
                    change,
                )[i].identity,
    decreases clients.len(),
{
    let next = changed(clients, identity, change);
    if clients.len() > 0 {
        let rest = clients.drop_first();
        assert forall|i: int| 0 <= i < rest.len() implies #[trigger] rest[i] == clients[i + 1] by {}
        if clients[0].identity == identity.key {
            assert forall|i: int| 0 <= i < next.len() implies (#[trigger] next[i]).identity
                == clients[i].identity by {
                if i > 0 {
                    assert(next[i] == rest[i - 1]);
                }
            }
        } else {
            lemma_one_changed_record(rest, identity, change);
            let tail = changed(rest, identity, change);
            assert forall|i: int| 1 <= i < next.len() implies #[trigger] next[i] == tail[i
                - 1] by {}
            assert forall|i: int, j: int| 0 <= i < j < next.len() implies (
            #[trigger] next[i]).identity != (#[trigger] next[j]).identity by {
                assert(next[j] == tail[j - 1]);
                if i == 0 {
                    if tail[j - 1].identity != identity.key {
                        let k = choose|k: int|
                            0 <= k < rest.len() && (#[trigger] rest[k]).identity == tail[j
                                - 1].identity;
                        assert(clients[k + 1].identity == tail[j - 1].identity);
                    }
                } else {
                    assert(next[i] == tail[i - 1]);
                }
            }
            assert forall|i: int| 0 <= i < next.len() implies (#[trigger] next[i]).identity
                == identity.key || exists|j: int|
                0 <= j < clients.len() && (#[trigger] clients[j]).identity == next[i].identity by {
                if i == 0 {
                    assert(clients[0].identity == next[0].identity);
                } else if tail[i - 1].identity != identity.key {
                    assert(next[i] == tail[i - 1]);
                    let k = choose|k: int|
                        0 <= k < rest.len() && (#[trigger] rest[k]).identity == tail[i
                            - 1].identity;
                    assert(clients[k + 1].identity == next[i].identity);
                } else {
                    assert(next[i] == tail[i - 1]);
                }
            }
        }
    }
}

/// The only record of a client is the one that is remembered.
proof fn lemma_only_record_is_remembered(clients: Seq<RecordModel>, key: Seq<char>, at: int)
    requires
        one_record_each(clients),
        0 <= at < clients.len(),
        clients[at].identity == key,
    ensures
        remembered(clients, key) == clients[at].preferences,
    decreases clients.len(),
{
    if at > 0 {
        let rest = clients.drop_first();
        assert forall|i: int| 0 <= i < rest.len() implies #[trigger] rest[i] == clients[i + 1] by {}
        assert(clients[0].identity != clients[at].identity);
        lemma_only_record_is_remembered(rest, key, at - 1);
    }
}

/// A change of one client leaves what is remembered of every other one alone.
pub proof fn law_other_clients_are_left_alone(
    clients: Seq<RecordModel>,
    identity: IdentityModel,
    change: ChangeModel,
    other: Seq<char>,
)
    requires
        other != identity.key,
        all_say_something(clients),
    ensures
        remembered(updated(clients, identity, change), other) == remembered(clients, other),
    decreases clients.len(),
{
    reveal_with_fuel(kept, 2);
    reveal_with_fuel(remembered, 2);
    let next = changed(clients, identity, change);
    if clients.len() == 0 {
        assert(next.drop_first() =~= Seq::<RecordModel>::empty());
        lemma_one_record(next[0]);
        assert(next =~= seq![next[0]]);
    } else {
        let rest = clients.drop_first();
        assert forall|i: int| 0 <= i < rest.len() implies #[trigger] rest[i] == clients[i + 1] by {}
        if clients[0].identity == identity.key {
            assert(next.drop_first() =~= rest);
            lemma_all_kept(rest);
            if next[0].says_something() {
                assert(kept(next)[0] == next[0]);
                assert(kept(next).drop_first() =~= rest);
            }
        } else {
            law_other_clients_are_left_alone(rest, identity, change, other);
            assert(next[0] == clients[0]);
            assert(next.drop_first() =~= changed(rest, identity, change));
            assert(kept(next)[0] == clients[0]);
            assert(kept(next).drop_first() =~= updated(rest, identity, change));
        }
    }
}

/// Where every record says something, all are kept.
proof fn lemma_all_kept(clients: Seq<RecordModel>)
    requires
        all_say_something(clients),
    ensures
        kept(clients) == clients,
    decreases clients.len(),
{
    if clients.len() > 0 {
        let rest = clients.drop_first();
        assert forall|i: int| 0 <= i < rest.len() implies #[trigger] rest[i] == clients[i + 1] by {}
        lemma_all_kept(rest);
        assert(kept(clients) =~= clients);
    }
}

/// What is kept says something.
proof fn lemma_kept_say_something(clients: Seq<RecordModel>)
    ensures
        all_say_something(kept(clients)),
    decreases clients.len(),
{
    if clients.len() > 0 {
        let rest = clients.drop_first();
        lemma_kept_say_something(rest);
        if clients[0].says_something() {
            let next = kept(clients);
            assert forall|i: int| 0 <= i < next.len() implies (
            #[trigger] next[i]).says_something() by {
                if i > 0 {
                    assert(next[i] == kept(rest)[i - 1]);
                }
            }
        }
    }
}

/// Every record in force says something of someone: the ones that are read and the
/// ones that a change leaves, of a client with a key.
pub open spec fn all_valid(clients: Seq<RecordModel>) -> bool {
    forall|i: int| 0 <= i < clients.len() ==> (#[trigger] clients[i]).valid()
}

/// What is read is valid.
pub proof fn law_read_records_are_valid(clients: Seq<RecordModel>)
    ensures
        all_valid(readable(clients)),
    decreases clients.len(),
{
    if clients.len() > 0 {
        let rest = clients.drop_first();
        law_read_records_are_valid(rest);
        if clients[0].valid() {
            let next = readable(clients);
            assert forall|i: int| 0 <= i < next.len() implies (#[trigger] next[i]).valid() by {
                if i > 0 {
                    assert(next[i] == readable(rest)[i - 1]);
                }
            }
        }
    }
}

/// A change leaves valid records.
pub proof fn law_changed_records_are_valid(
    clients: Seq<RecordModel>,
    identity: IdentityModel,
    change: ChangeModel,
)
    requires
        all_valid(clients),
        crate::text::trimmed(identity.key).len() > 0,
    ensures
        all_valid(updated(clients, identity, change)),
    decreases clients.len(),
{
    let next = changed(clients, identity, change);
    if clients.len() == 0 {
        lemma_one_record(next[0]);
        assert(next =~= seq![next[0]]);
    } else {
        let rest = clients.drop_first();
        assert forall|i: int| 0 <= i < rest.len() implies #[trigger] rest[i] == clients[i + 1] by {}
        if clients[0].identity == identity.key {
            assert(next.drop_first() =~= rest);
            lemma_all_kept(rest);
            assert(kept(next) =~= if next[0].says_something() {
                seq![next[0]] + rest
            } else {
                rest
            });
        } else {
            law_changed_records_are_valid(rest, identity, change);
            assert(next[0] == clients[0]);
            assert(next.drop_first() =~= changed(rest, identity, change));
            assert(kept(next) =~= seq![clients[0]] + updated(rest, identity, change));
        }
    }
}

/// A restart changes nothing: what was written down is what is read.
pub proof fn law_restart_changes_nothing(clients: Seq<RecordModel>)
    requires
        all_valid(clients),
    ensures
        readable(clients) == clients,
    decreases clients.len(),
{
    if clients.len() > 0 {
        let rest = clients.drop_first();
        assert forall|i: int| 0 <= i < rest.len() implies #[trigger] rest[i] == clients[i + 1] by {}
        law_restart_changes_nothing(rest);
        assert(readable(clients) =~= clients);
    }
}

/// What is kept, and what is read, of two lists is what is of the one and of the other; a
/// record is kept exactly if it says something of its client, and read exactly if moreover
/// its client has a name.
pub proof fn law_records_are_judged_one_by_one(
    first: Seq<RecordModel>,
    record: RecordModel,
    second: Seq<RecordModel>,
)
    ensures
        ({
            let telling = record.preferences.trusted_username is Some
                || record.preferences.resolution is Some;
            let named = crate::text::trimmed(record.identity).len() > 0;
            let one = seq![record];
            let none = Seq::<RecordModel>::empty();
            &&& kept(first + one + second) == kept(first) + (if telling { one } else { none })
                + kept(second)
            &&& readable(first + one + second) == readable(first) + (if telling && named {
                one
            } else {
                none
            }) + readable(second)
            &&& kept(none) == none && readable(none) == none
        }),
{
    lemma_one_record(record);
    lemma_kept_of_both(first, seq![record]);
    lemma_kept_of_both(first + seq![record], second);
    lemma_readable_of_both(first, seq![record]);
    lemma_readable_of_both(first + seq![record], second);
}

/// A change of a client without a record puts one behind the others, with its key, what it is
/// called and what changed; a change of one with a record changes that alone, and keeps the
/// rest of what it says.
pub proof fn law_changes_touch_one_record(
    clients: Seq<RecordModel>,
    identity: IdentityModel,
    change: ChangeModel,
    at: int,
)
    requires
        0 <= at <= clients.len(),
        forall|i: int| 0 <= i < at ==> (#[trigger] clients[i]).identity != identity.key,
        at < clients.len() ==> clients[at].identity == identity.key,
    ensures
        ({
            let next = changed(clients, identity, change);
            let before = if at < clients.len() {
                clients[at].preferences
            } else {
                PreferencesModel { trusted_username: None, resolution: None }
            };
            let record = next[at];
            &&& next.len() == if at < clients.len() { clients.len() } else { clients.len() + 1 }
            &&& record.identity == identity.key && record.label == identity.label
            &&& change matches ChangeModel::SignIn(username) ==> {
                &&& record.preferences.trusted_username == Some(username)
                &&& record.preferences.resolution == before.resolution
            }
            &&& change matches ChangeModel::Resolution(resolution) ==> {
                &&& record.preferences.resolution == resolution
                &&& record.preferences.trusted_username == before.trusted_username
            }
            &&& forall|i: int| 0 <= i < clients.len() && i != at ==> #[trigger] next[i]
                == clients[i]
        }),
    decreases clients.len(),
{
    let next = changed(clients, identity, change);
    if clients.len() > 0 {
        let rest = clients.drop_first();
        assert forall|i: int| 0 <= i < rest.len() implies #[trigger] rest[i] == clients[i + 1] by {}
        if at == 0 {
            assert forall|i: int| 1 <= i < clients.len() implies #[trigger] next[i]
                == clients[i] by {
                assert(next[i] == rest[i - 1]);
            }
        } else {
            assert(clients[0].identity != identity.key);
            law_changes_touch_one_record(rest, identity, change, at - 1);
            let tail = changed(rest, identity, change);
            assert forall|i: int| 1 <= i < next.len() implies #[trigger] next[i] == tail[i - 1] by {}
            assert forall|i: int| 0 <= i < clients.len() && i != at implies #[trigger] next[i]
                == clients[i] by {
                if i > 0 {
                    assert(tail[i - 1] == rest[i - 1]);
                }
            }
        }
    }
}

/// Of a client's records the first is the one that is remembered, and nothing of a client
/// without one.
pub proof fn law_first_record_is_remembered(clients: Seq<RecordModel>, key: Seq<char>, at: int)
    requires
        0 <= at <= clients.len(),
        forall|i: int| 0 <= i < at ==> (#[trigger] clients[i]).identity != key,
        at < clients.len() ==> clients[at].identity == key,
    ensures
        at < clients.len() ==> remembered(clients, key) == clients[at].preferences,
        at == clients.len() ==> remembered(clients, key).trusted_username is None && remembered(
            clients,
            key,
        ).resolution is None,
    decreases clients.len(),
{
    if at > 0 {
        let rest = clients.drop_first();
        assert forall|i: int| 0 <= i < rest.len() implies #[trigger] rest[i] == clients[i + 1] by {}
        assert(clients[0].identity != key);
        law_first_record_is_remembered(rest, key, at - 1);
    }
}

/// Only records of version 1 are read.
pub proof fn law_other_versions_are_not_read(
    schema_version: u32,
    clients: Vec<TrustedClientRecord>,
)
    ensures
        schema_version != 1 ==> loaded(StoredClients::Found { schema_version, clients }).len() == 0,
        schema_version == 1 ==> loaded(StoredClients::Found { schema_version, clients })
            == readable(records(clients@)),
{
}

} // verus!
