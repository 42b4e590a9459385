//! What is remembered of clients and accounts.

use sun_remote_desktop::preferences::{
    PreferenceEntry, PreferenceError, ResolutionPreference, ResolutionPreferenceStore,
    StoredPreferences, PREFERENCE_SCHEMA_VERSION,
};
use sun_remote_desktop::trust::{
    accepts_tailscale_status, ClientAddress, ClientIdentity, ClientIdentityResolver, TailscalePeer,
    MAX_TAILSCALE_STATUS_BYTES, TRUST_SCHEMA_VERSION,
};
use sun_remote_desktop::trusted_clients::{
    ClientPreferences, PendingClients, RememberedResolution, StoredClients, TrustError,
    TrustedClientRecord, TrustedClientStore,
};

/// An address of version 4 in its usual notation, an address of version 6 as the
/// number of its digits.
fn address(text: &str) -> ClientAddress {
    match text {
        "fd7a:115c:a1e0::4b34:5744" => ClientAddress::V6(0xfd7a115ca1e0000000000000_4b345744),
        "::ffff:100.64.33.3" => ClientAddress::V6(0xffff_6440_2103),
        "::1" => ClientAddress::V6(1),
        _ => {
            let mut number = 0;
            for part in text.split('.') {
                number = number * 256 + part.parse::<u32>().unwrap();
            }
            ClientAddress::V4(number)
        }
    }
}

fn peer(id: &str, host_name: &str, addresses: &[&str]) -> TailscalePeer {
    TailscalePeer {
        id: id.to_string(),
        host_name: host_name.to_string(),
        addresses: addresses.iter().map(|text| address(text)).collect(),
    }
}

/// Writes a change down and puts it into effect, as a program does.
fn persist(store: &mut TrustedClientStore, pending: PendingClients) -> StoredClients {
    let stored = StoredClients::Found {
        schema_version: pending.schema_version(),
        clients: pending.clients().clone(),
    };
    store.commit(pending);
    stored
}

fn record(identity: &str, username: Option<&str>) -> TrustedClientRecord {
    TrustedClientRecord {
        identity: identity.to_string(),
        label: "label".to_string(),
        trusted_username: username.map(str::to_string),
        resolution: None,
    }
}

#[test]
fn tailscale_ipv4_and_ipv6_resolve_to_the_same_stable_node() {
    let peers = vec![peer("nStable123", "jzd-mb0", &["100.64.33.3", "fd7a:115c:a1e0::4b34:5744"])];
    let resolver = ClientIdentityResolver::from_tailscale_status(&peers);
    let ipv4 = resolver.resolve(address("100.64.33.3"), "100.64.33.3");
    let ipv6 =
        resolver.resolve(address("fd7a:115c:a1e0::4b34:5744"), "fd7a:115c:a1e0::4b34:5744");
    assert!(ipv4.same_as(&ipv6));
    assert_eq!(ipv4.key(), "tailscale:nStable123");
    assert_eq!(ipv4.label(), "jzd-mb0");
}

#[test]
fn unknown_clients_are_their_address() {
    let resolver = ClientIdentityResolver::new();
    let identity = resolver.resolve(address("192.0.2.7"), "192.0.2.7");
    assert_eq!(identity.key(), "address:192.0.2.7");
    assert_eq!(identity.label(), "192.0.2.7");
    assert_eq!(
        identity.remember_detail(),
        "Trust address 192.0.2.7; no password is stored"
    );
    assert_eq!(
        ClientIdentity::tailscale("n1", "phone").remember_detail(),
        "phone via Tailscale; no password is stored"
    );
}

#[test]
fn mapped_addresses_are_those_of_version_four() {
    let mapped = address("::ffff:100.64.33.3");
    assert_eq!(mapped.normalized(), address("100.64.33.3"));
    assert_eq!(mapped.number(), address("100.64.33.3").number());
    assert_eq!(address("::1").normalized(), address("::1"));
    let peers = vec![peer("n1", "first", &["100.64.33.3"])];
    let resolver = ClientIdentityResolver::from_tailscale_status(&peers);
    assert_eq!(resolver.resolve(mapped, "100.64.33.3").key(), "tailscale:n1");
}

#[test]
fn nodes_without_usable_names_are_left_out() {
    let long = "x".repeat(129);
    let wide = "\u{e9}".repeat(65);
    let peers = vec![
        peer(" ", "blank", &["192.0.2.1"]),
        peer(&long, "long", &["192.0.2.2"]),
        peer(" n3 ", &wide, &["192.0.2.3"]),
        peer("n4", " ", &["192.0.2.4"]),
        peer("n5", "later", &["192.0.2.4"]),
        peer(&"\u{e9}".repeat(64), "fits", &["192.0.2.5"]),
    ];
    let resolver = ClientIdentityResolver::from_tailscale_status(&peers);
    let key = |text: &str| resolver.resolve(address(text), text);
    assert_eq!(key("192.0.2.1").key(), "address:192.0.2.1");
    assert_eq!(key("192.0.2.2").key(), "address:192.0.2.2");
    assert_eq!(key("192.0.2.3").label(), "n3");
    assert_eq!(key("192.0.2.4").key(), "tailscale:n5");
    assert_eq!(key("192.0.2.5").label(), "fits");
    assert!(accepts_tailscale_status(MAX_TAILSCALE_STATUS_BYTES));
    assert!(!accepts_tailscale_status(MAX_TAILSCALE_STATUS_BYTES + 1));
}

#[test]
fn store_keeps_sign_in_and_resolution_preferences_without_a_password() {
    let identity = ClientIdentity::tailscale("nStable123", "jzd-mb0");
    let mut store = TrustedClientStore::load(StoredClients::Missing);
    let pending = store.remember_sign_in(&identity, "mikoto").unwrap();
    persist(&mut store, pending);
    let pending = store.set_resolution(&identity, Some(RememberedResolution::Scale));
    let written = format!("{:?}", pending.clients());
    let stored = persist(&mut store, pending);

    let reloaded = TrustedClientStore::load(stored);
    assert_eq!(
        reloaded.preferences(&identity),
        ClientPreferences {
            trusted_username: Some("mikoto".to_string()),
            resolution: Some(RememberedResolution::Scale),
        }
    );
    assert!(!written.to_ascii_lowercase().contains("password"));
}

#[test]
fn clearing_resolution_preserves_trusted_sign_in() {
    let identity = ClientIdentity::tailscale("nStable456", "phone");
    let mut store = TrustedClientStore::load(StoredClients::Missing);
    let pending = store.remember_sign_in(&identity, "mikoto").unwrap();
    persist(&mut store, pending);
    let pending = store.set_resolution(&identity, Some(RememberedResolution::MatchDisplay));
    persist(&mut store, pending);
    let pending = store.set_resolution(&identity, None);
    persist(&mut store, pending);

    assert_eq!(
        store.preferences(&identity),
        ClientPreferences { trusted_username: Some("mikoto".to_string()), resolution: None }
    );
}

#[test]
fn failed_persistence_does_not_trust_the_client_in_memory() {
    let store = TrustedClientStore::load(StoredClients::Unreadable);
    let identity = ClientIdentity::tailscale("nStable789", "tablet");

    // The change cannot be written down, so it is dropped.
    assert!(store.remember_sign_in(&identity, "mikoto").is_ok());
    assert_eq!(store.preferences(&identity), ClientPreferences::default());
}

#[test]
fn a_change_leaves_every_other_client_alone() {
    let mut store = TrustedClientStore::load(StoredClients::Found {
        schema_version: TRUST_SCHEMA_VERSION,
        clients: vec![
            record("tailscale:n1", Some("alice")),
            record("tailscale:n2", Some("bob")),
        ],
    });
    let first = ClientIdentity::tailscale("n1", "phone");
    let second = ClientIdentity::tailscale("n2", "tablet");
    let pending = store.remember_sign_in(&first, " carol ").unwrap();
    persist(&mut store, pending);
    assert_eq!(store.preferences(&first).trusted_username, Some("carol".to_string()));
    assert_eq!(store.preferences(&second).trusted_username, Some("bob".to_string()));
    let pending = store.set_resolution(&second, Some(RememberedResolution::Scale));
    persist(&mut store, pending);
    assert_eq!(store.preferences(&first).resolution, None);
    assert_eq!(store.preferences(&second).resolution, Some(RememberedResolution::Scale));
    assert_eq!(store.preferences(&second).trusted_username, Some("bob".to_string()));
}

#[test]
fn a_blank_account_is_not_remembered() {
    let store = TrustedClientStore::load(StoredClients::Missing);
    let identity = ClientIdentity::address("192.0.2.1");
    assert_eq!(store.remember_sign_in(&identity, "  ").err(), Some(TrustError::EmptyUsername));
}

#[test]
fn records_that_say_nothing_are_dropped() {
    let identity = ClientIdentity::tailscale("n1", "phone");
    let other = ClientIdentity::tailscale("n2", "tablet");
    let clients = vec![
        record(" ", Some("ghost")),
        record("tailscale:n1", None),
        record("tailscale:n2", Some("alice")),
    ];
    let stored = StoredClients::Found { schema_version: TRUST_SCHEMA_VERSION, clients };
    let mut store = TrustedClientStore::load(stored);
    assert_eq!(store.preferences(&identity), ClientPreferences::default());
    let pending = store.set_resolution(&identity, Some(RememberedResolution::Scale));
    assert_eq!(pending.clients().len(), 2);
    assert_eq!(pending.clients()[1].label, "phone");
    persist(&mut store, pending);
    let pending = store.set_resolution(&identity, None);
    assert_eq!(pending.clients().len(), 1);
    persist(&mut store, pending);
    assert_eq!(store.preferences(&other).trusted_username, Some("alice".to_string()));
}

#[test]
fn a_file_of_another_version_is_not_trusted() {
    let clients = vec![record("tailscale:n2", Some("alice"))];
    let stored = StoredClients::Found { schema_version: TRUST_SCHEMA_VERSION + 1, clients };
    let store = TrustedClientStore::load(stored);
    let identity = ClientIdentity::tailscale("n2", "tablet");
    assert_eq!(store.preferences(&identity), ClientPreferences::default());
}

#[test]
fn a_lost_file_trusts_nobody() {
    let identity = ClientIdentity::tailscale("n2", "tablet");
    for stored in [StoredClients::Missing, StoredClients::Unreadable] {
        let store = TrustedClientStore::load(stored);
        assert_eq!(store.preferences(&identity), ClientPreferences::default());
    }
}

#[test]
fn preferences_are_account_scoped_and_contain_no_credentials() {
    let mut store = ResolutionPreferenceStore::load(StoredPreferences::Missing);
    let alice = ResolutionPreference { width: 1920, height: 1200 };
    let bob = ResolutionPreference { width: 1280, height: 800 };
    let pending = store.set("HOST\\Alice", Some(alice)).unwrap();
    store.commit(pending);
    let pending = store.set("HOST\\Bob", Some(bob)).unwrap();
    assert_eq!(pending.schema_version(), PREFERENCE_SCHEMA_VERSION);
    let written = format!("{:?}", pending.entries());
    let entries: Vec<PreferenceEntry> = pending
        .entries()
        .iter()
        .map(|entry| PreferenceEntry {
            account: entry.account.clone(),
            preference: entry.preference,
        })
        .collect();
    store.commit(pending);

    let reloaded = ResolutionPreferenceStore::load(StoredPreferences::Found {
        schema_version: PREFERENCE_SCHEMA_VERSION,
        entries,
    });
    assert_eq!(reloaded.get("host\\ALICE"), Some(alice));
    assert_eq!(reloaded.get("host\\bob"), Some(bob));
    assert!(!written.to_lowercase().contains("password"));
}

#[test]
fn failed_write_does_not_change_the_in_memory_preference() {
    let store = ResolutionPreferenceStore::load(StoredPreferences::Unreadable);
    let preference = ResolutionPreference { width: 1920, height: 1080 };
    assert!(store.set("alice", Some(preference)).is_ok());
    assert_eq!(store.get("alice"), None);
}

#[test]
fn preferences_are_replaced_and_forgotten() {
    let first = ResolutionPreference { width: 800, height: 600 };
    let second = ResolutionPreference { width: 1024, height: 768 };
    let entry = |account: &str, preference: ResolutionPreference| PreferenceEntry {
        account: account.to_string(),
        preference,
    };
    let mut store = ResolutionPreferenceStore::load(StoredPreferences::Found {
        schema_version: PREFERENCE_SCHEMA_VERSION,
        entries: vec![entry("alice", first), entry(" ", first), entry("alice", second)],
    });
    assert_eq!(store.get("ALICE"), Some(second));
    assert_eq!(store.get(" "), None);
    let pending = store.set("alice", None).unwrap();
    assert!(pending.entries().is_empty());
    store.commit(pending);
    assert_eq!(store.get("alice"), None);
    assert_eq!(store.set("  ", Some(first)).err(), Some(PreferenceError::EmptyAccount));
    let other = ResolutionPreferenceStore::load(StoredPreferences::Found {
        schema_version: 1,
        entries: vec![entry("alice", first)],
    });
    assert_eq!(other.get("alice"), None);
}
