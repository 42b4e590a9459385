//! The display size that each account prefers.

use vstd::prelude::*;

use crate::config::normalize_account;

verus! {

/// The version of the file of preferences.
pub const PREFERENCE_SCHEMA_VERSION: u32 = 2;

/// A display size that an account prefers.
#[derive(Debug, Clone, Copy, PartialEq, Eq, Structural)]
pub struct ResolutionPreference {
    pub width: u16,
    pub height: u16,
}

/// An account and the display size that it prefers.
#[derive(Debug)]
pub struct PreferenceEntry {
    pub account: String,
    pub preference: ResolutionPreference,
}

/// The file of preferences, as it was found.
pub enum StoredPreferences {
    /// There is no file.
    Missing,
    /// The file cannot be read.
    Unreadable,
    /// The file's version and entries.
    Found { schema_version: u32, entries: Vec<PreferenceEntry> },
}

/// Why a preference cannot be set.
#[derive(Debug, Clone, Copy, PartialEq, Eq, Structural)]
pub enum PreferenceError {
    /// The account has no name.
    EmptyAccount,
}

/// The preferences that a list of entries holds; of two for one account the later
/// one counts.
pub open spec fn preferences_of(entries: Seq<PreferenceEntry>) -> Map<
    Seq<char>,
    ResolutionPreference,
>
    decreases entries.len(),
{
    if entries.len() == 0 {
        Map::empty()
    } else {
        preferences_of(entries.drop_last()).insert(
            entries.last().account@,
            entries.last().preference,
        )
    }
}

/// The preferences of accounts that have a name.
pub open spec fn named(preferences: Map<Seq<char>, ResolutionPreference>) -> Map<
    Seq<char>,
    ResolutionPreference,
> {
    preferences.restrict(
        preferences.dom().filter(|account: Seq<char>| crate::text::trimmed(account).len() > 0),
    )
}

/// Whether no account has two entries.
spec fn unique(entries: Seq<PreferenceEntry>) -> bool {
    forall|i: int, j: int|
        0 <= i < j < entries.len() ==> (#[trigger] entries[i]).account@ != (
        #[trigger] entries[j]).account@
}

/// The entries of accounts that occur once each are what the list holds.
proof fn lemma_entries_are_held(entries: Seq<PreferenceEntry>)
    requires
        unique(entries),
    ensures
        forall|account: Seq<char>| #[trigger]
            preferences_of(entries).contains_key(account) <==> exists|i: int|
                0 <= i < entries.len() && (#[trigger] entries[i]).account@ == account,
        forall|i: int|
            0 <= i < entries.len() ==> preferences_of(entries)[(#[trigger] entries[i]).account@]
                == entries[i].preference,
    decreases entries.len(),
{
    if entries.len() > 0 {
        let front = entries.drop_last();
        assert forall|i: int| 0 <= i < front.len() implies #[trigger] front[i] == entries[i] by {}
        lemma_entries_are_held(front);
        assert forall|account: Seq<char>| #[trigger]
            preferences_of(entries).contains_key(account) <==> exists|i: int|
                0 <= i < entries.len() && (#[trigger] entries[i]).account@ == account by {
            if preferences_of(front).contains_key(account) {
                let i = choose|i: int|
                    0 <= i < front.len() && (#[trigger] front[i]).account@ == account;
                assert(entries[i].account@ == account);
            }
            if account == entries.last().account@ {
                assert(entries[entries.len() - 1].account@ == account);
            }
            if exists|i: int| 0 <= i < entries.len() && (#[trigger] entries[i]).account@ == account {
                let i = choose|i: int|
                    0 <= i < entries.len() && (#[trigger] entries[i]).account@ == account;
                if i < front.len() {
                    assert(front[i].account@ == account);
                }
            }
        }
        assert forall|i: int| 0 <= i < entries.len() implies preferences_of(entries)[(
        #[trigger] entries[i]).account@] == entries[i].preference by {
            if i < front.len() {
                assert(front[i] == entries[i]);
                assert(entries[i].account@ != entries[entries.len() - 1].account@);
            }
        }
    }
}

/// The preferences of accounts.
pub struct ResolutionPreferenceStore {
    entries: Vec<PreferenceEntry>,
}

/// A change that is not in effect yet: the entries to write down.
pub struct PendingPreferences {
    entries: Vec<PreferenceEntry>,
}

impl View for ResolutionPreferenceStore {
    type V = Map<Seq<char>, ResolutionPreference>;

    closed spec fn view(&self) -> Map<Seq<char>, ResolutionPreference> {
        preferences_of(self.entries@)
    }
}

impl View for PendingPreferences {
    type V = Map<Seq<char>, ResolutionPreference>;

    closed spec fn view(&self) -> Map<Seq<char>, ResolutionPreference> {
        preferences_of(self.entries@)
    }
}

impl PendingPreferences {
    #[verifier::type_invariant]
    spec fn inv(self) -> bool {
        unique(self.entries@)
    }

    /// The version of the file.
    pub fn schema_version(&self) -> (version: u32)
        ensures
            version == PREFERENCE_SCHEMA_VERSION,
    {
        PREFERENCE_SCHEMA_VERSION
    }

    /// The entries to write down.
    pub fn entries(&self) -> (entries: &Vec<PreferenceEntry>)
        ensures
            preferences_of(entries@) == self@,
    {
        &self.entries
    }
}

/// The entries without the one of an account.
fn without(entries: &Vec<PreferenceEntry>, account: &str) -> (rest: Vec<PreferenceEntry>)
    requires
        unique(entries@),
    ensures
        unique(rest@),
        preferences_of(rest@) == preferences_of(entries@).remove(account@),
        forall|i: int| 0 <= i < rest@.len() ==> (#[trigger] rest@[i]).account@ != account@,
{
    let mut rest: Vec<PreferenceEntry> = Vec::new();
    let mut k: usize = 0;
    while k < entries.len()
        invariant
            k <= entries.len(),
            unique(entries@),
            unique(rest@),
            forall|i: int| 0 <= i < rest@.len() ==> (#[trigger] rest@[i]).account@ != account@,
            forall|i: int|
                0 <= i < rest@.len() ==> exists|j: int|
                    0 <= j < k && (#[trigger] entries@[j]).account@ == (
                    #[trigger] rest@[i]).account@ && entries@[j].preference == rest@[i].preference,
            forall|j: int|
                0 <= j < k && (#[trigger] entries@[j]).account@ != account@ ==> exists|i: int|
                    0 <= i < rest@.len() && (#[trigger] rest@[i]).account@ == entries@[j].account@,
        decreases entries.len() - k,
    {
        let entry = &entries[k];
        if !crate::text::same_text(entry.account.as_str(), account) {
            let ghost before = rest@;
            let copy = PreferenceEntry {
                account: entry.account.clone(),
                preference: entry.preference,
            };
            rest.push(copy);
            proof {
                assert forall|i: int| 0 <= i < before.len() implies #[trigger] rest@[i]
                    == before[i] by {}
                assert(rest@[before.len() as int].account@ == entries@[k as int].account@);
                assert forall|i: int| 0 <= i < rest@.len() implies exists|j: int|
                    0 <= j < k + 1 && (#[trigger] entries@[j]).account@ == (
                    #[trigger] rest@[i]).account@ && entries@[j].preference
                        == rest@[i].preference by {
                    if i < before.len() {
                        assert(rest@[i] == before[i]);
                    } else {
                        assert(entries@[k as int].account@ == rest@[i].account@);
                    }
                }
                assert forall|j: int|
                    0 <= j < k + 1 && (#[trigger] entries@[j]).account@ != account@ implies exists|
                    i: int,
                |
                    0 <= i < rest@.len() && (#[trigger] rest@[i]).account@
                        == entries@[j].account@ by {
                    if j < k {
                        let i = choose|i: int|
                            0 <= i < before.len() && (#[trigger] before[i]).account@
                                == entries@[j].account@;
                        assert(rest@[i] == before[i]);
                    } else {
                        assert(rest@[before.len() as int].account@ == entries@[j].account@);
                    }
                }
                assert forall|i: int, j: int| 0 <= i < j < rest@.len() implies (
                #[trigger] rest@[i]).account@ != (#[trigger] rest@[j]).account@ by {
                    if j == before.len() {
                        let m = choose|m: int|
                            0 <= m < k && (#[trigger] entries@[m]).account@ == before[i].account@
                                && entries@[m].preference == before[i].preference;
                        assert(entries@[m].account@ != entries@[k as int].account@);
                    }
                }
            }
        }
        k += 1;
    }
    proof {
        lemma_entries_are_held(entries@);
        lemma_entries_are_held(rest@);
        let all = preferences_of(entries@);
        let next = preferences_of(rest@);
        assert(next.dom() =~= all.remove(account@).dom()) by {
            assert forall|other: Seq<char>| next.contains_key(other) <==> all.remove(
                account@,
            ).contains_key(other) by {
                if next.contains_key(other) {
                    let i = choose|i: int|
                        0 <= i < rest@.len() && (#[trigger] rest@[i]).account@ == other;
                    let j = choose|j: int|
                        0 <= j < k && (#[trigger] entries@[j]).account@ == rest@[i].account@
                            && entries@[j].preference == rest@[i].preference;
                    assert(entries@[j].account@ == other);
                }
                if all.remove(account@).contains_key(other) {
                    let j = choose|j: int|
                        0 <= j < entries@.len() && (#[trigger] entries@[j]).account@ == other;
                    assert(entries@[j].account@ != account@);
                }
            }
        }
        assert forall|other: Seq<char>| next.contains_key(other) implies next[other] == all.remove(
            account@,
        )[other] by {
            let i = choose|i: int| 0 <= i < rest@.len() && (#[trigger] rest@[i]).account@ == other;
            let j = choose|j: int|
                0 <= j < k && (#[trigger] entries@[j]).account@ == rest@[i].account@
                    && entries@[j].preference == rest@[i].preference;
            assert(next[rest@[i].account@] == rest@[i].preference);
            assert(all[entries@[j].account@] == entries@[j].preference);
        }
        assert(next =~= all.remove(account@));
    }
    rest
}

/// The entries with one of an account, in place of any that it had.
fn with(
    entries: &Vec<PreferenceEntry>,
    account: &str,
    preference: ResolutionPreference,
) -> (next: Vec<PreferenceEntry>)
    requires
        unique(entries@),
    ensures
        unique(next@),
        preferences_of(next@) == preferences_of(entries@).insert(account@, preference),
{
    let mut next = without(entries, account);
    let ghost before = next@;
    let entry = PreferenceEntry { account: account.to_owned(), preference };
    next.push(entry);
    proof {
        assert(next@.drop_last() =~= before);
        assert forall|i: int, j: int| 0 <= i < j < next@.len() implies (
        #[trigger] next@[i]).account@ != (#[trigger] next@[j]).account@ by {
            assert(next@[i] == before[i]);
            if j < before.len() {
                assert(next@[j] == before[j]);
            }
        }
        assert(preferences_of(next@) =~= preferences_of(entries@).insert(account@, preference));
    }
    next
}

impl ResolutionPreferenceStore {
    #[verifier::type_invariant]
    spec fn inv(self) -> bool {
        unique(self.entries@)
    }

    /// A store from its file. A file that is missing, unreadable or of another version
    /// leaves no preference in force.
    pub fn load(stored: StoredPreferences) -> (store: Self)
        ensures
            store@ == match stored {
                StoredPreferences::Found { schema_version, entries } => if schema_version
                    == PREFERENCE_SCHEMA_VERSION {
                    named(preferences_of(entries@))
                } else {
                    Map::empty()
                },
                _ => Map::empty(),
            },
    {
        let mut list: Vec<PreferenceEntry> = Vec::new();
        assert(preferences_of(list@) =~= Map::<Seq<char>, ResolutionPreference>::empty());
        if let StoredPreferences::Found { schema_version, entries } = stored {
            if schema_version == PREFERENCE_SCHEMA_VERSION {
                let mut k: usize = 0;
                assert(entries@.take(0) =~= Seq::<PreferenceEntry>::empty());
                assert(named(preferences_of(entries@.take(0))) =~= preferences_of(list@));
                while k < entries.len()
                    invariant
                        k <= entries.len(),
                        unique(list@),
                        preferences_of(list@) == named(preferences_of(entries@.take(k as int))),
                    decreases entries.len() - k,
                {
                    let entry = &entries[k];
                    proof {
                        let now = entries@.take(k + 1);
                        assert(now.drop_last() =~= entries@.take(k as int));
                    }
                    let ghost earlier = preferences_of(entries@.take(k as int));
                    let ghost now = earlier.insert(entry.account@, entry.preference);
                    if !entry.account.as_str().trim().is_empty() {
                        list = with(&list, entry.account.as_str(), entry.preference);
                        assert(named(now) =~= named(earlier).insert(
                            entry.account@,
                            entry.preference,
                        ));
                    } else {
                        assert(named(now) =~= named(earlier));
                    }
                    k += 1;
                }
                assert(entries@.take(k as int) =~= entries@);
            }
        }
        ResolutionPreferenceStore { entries: list }
    }

    /// The display size that an account prefers.
    pub fn get(&self, account: &str) -> (preference: Option<ResolutionPreference>)
        ensures
            ({
                let key = crate::config::account_key(account@);
                preference == if self@.contains_key(key) {
                    Some(self@[key])
                } else {
                    None
                }
            }),
    {
        proof {
            use_type_invariant(&*self);
            lemma_entries_are_held(self.entries@);
        }
        let key = normalize_account(account);
        let mut k: usize = 0;
        while k < self.entries.len()
            invariant
                k <= self.entries.len(),
                key@ == crate::config::account_key(account@),
                forall|i: int| 0 <= i < k ==> (#[trigger] self.entries@[i]).account@ != key@,
            decreases self.entries.len() - k,
        {
            let entry = &self.entries[k];
            if entry.account == key {
                proof {
                    use_type_invariant(&*self);
                    lemma_entries_are_held(self.entries@);
                    assert(self.entries@[k as int].account@ == key@);
                }
                return Some(entry.preference);
            }
            k += 1;
        }
        None
    }

    /// Plans to set or to forget the display size that an account prefers.
    pub fn set(&self, account: &str, preference: Option<ResolutionPreference>) -> (result: Result<
        PendingPreferences,
        PreferenceError,
    >)
        ensures
            ({
                let key = crate::config::account_key(account@);
                if key.len() == 0 {
                    result matches Err(error) && error == PreferenceError::EmptyAccount
                } else {
                    result matches Ok(pending) && pending@ == match preference {
                        Some(preference) => self@.insert(key, preference),
                        None => self@.remove(key),
                    }
                }
            }),
    {
        proof {
            use_type_invariant(&*self);
        }
        let key = normalize_account(account);
        if key.as_str().is_empty() {
            return Err(PreferenceError::EmptyAccount);
        }
        let entries = match preference {
            Some(preference) => with(&self.entries, key.as_str(), preference),
            None => without(&self.entries, key.as_str()),
        };
        Ok(PendingPreferences { entries })
    }

    /// Puts a change into effect, now that it has been written down.
    pub fn commit(&mut self, pending: PendingPreferences)
        ensures
            final(self)@ == pending@,
    {
        proof {
            use_type_invariant(&pending);
        }
        self.entries = pending.entries;
    }
}

/// A preference is an account's own: setting or forgetting it leaves every other
/// account's alone, and any spelling of the account with the same key finds it.
pub proof fn law_preferences_are_the_accounts_own(
    preferences: Map<Seq<char>, ResolutionPreference>,
    account: Seq<char>,
    other: Seq<char>,
    preference: ResolutionPreference,
)
    ensures
        ({
            let key = crate::config::account_key(account);
            let asked = crate::config::account_key(other);
            let set = preferences.insert(key, preference);
            let forgotten = preferences.remove(key);
            &&& asked == key ==> set.contains_key(asked) && set[asked] == preference
                && !forgotten.contains_key(asked)
            &&& asked != key ==> (set.contains_key(asked) <==> preferences.contains_key(asked)) && (
            forgotten.contains_key(asked) <==> preferences.contains_key(asked)) && (
            preferences.contains_key(asked) ==> set[asked] == preferences[asked]
                && forgotten[asked] == preferences[asked])
        }),
{
}

/// A restart changes nothing: what was written down of accounts with names is what
/// is read.
pub proof fn law_restart_keeps_preferences(preferences: Map<Seq<char>, ResolutionPreference>)
    requires
        forall|account: Seq<char>| #[trigger]
            preferences.contains_key(account) ==> crate::text::trimmed(account).len() > 0,
    ensures
        named(preferences) == preferences,
{
    assert(named(preferences) =~= preferences);
}

/// The last entry of an account is the one that counts, and only accounts with an entry have
/// a preference.
pub proof fn law_last_entry_counts(entries: Seq<PreferenceEntry>, at: int, account: Seq<char>)
    requires
        0 <= at < entries.len(),
        forall|i: int| at < i < entries.len() ==> (#[trigger] entries[i]).account@
            != entries[at].account@,
    ensures
        preferences_of(entries).contains_key(entries[at].account@),
        preferences_of(entries)[entries[at].account@] == entries[at].preference,
        (forall|i: int| 0 <= i < entries.len() ==> (#[trigger] entries[i]).account@ != account)
            ==> !preferences_of(entries).contains_key(account),
    decreases entries.len(),
{
    reveal_with_fuel(preferences_of, 2);
    let front = entries.drop_last();
    assert forall|i: int| 0 <= i < front.len() implies #[trigger] front[i] == entries[i] by {}
    if front.len() > 0 {
        if at < front.len() {
            assert(entries[entries.len() - 1].account@ != entries[at].account@);
            law_last_entry_counts(front, at, account);
        } else {
            law_last_entry_counts(front, front.len() - 1, account);
        }
    }
    if forall|i: int| 0 <= i < entries.len() ==> (#[trigger] entries[i]).account@ != account {
        assert(entries[entries.len() - 1].account@ != account);
    }
}

/// Of what is read, exactly the preferences of accounts whose name is not blank are kept.
pub proof fn law_blank_accounts_have_no_preference(
    preferences: Map<Seq<char>, ResolutionPreference>,
    account: Seq<char>,
)
    ensures
        named(preferences).contains_key(account) <==> preferences.contains_key(account)
            && crate::text::trimmed(account).len() > 0,
        named(preferences).contains_key(account) ==> named(preferences)[account]
            == preferences[account],
{
}

} // verus!
