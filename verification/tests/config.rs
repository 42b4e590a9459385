//! Settings, accounts and the administration window.

use sun_remote_desktop::access::{AccessGate, AccessStatus};
use sun_remote_desktop::admin::{AdminState, AdminStatus};
use sun_remote_desktop::auth::{
    account_candidates, display_account, is_account_allowed, plan_client_info, split_account,
    verify_account, verify_credentials, AccountCheck, ClientInfoPlan,
};
use sun_remote_desktop::config::{
    certificate_path, config_path, data_dir, loaded_config, normalize_account, private_key_path,
    service_log_path, trusted_clients_path, AppConfig, DataDirectory,
};
use sun_remote_desktop::wide::wide;

fn listing(users: &[&str]) -> AppConfig {
    let mut config = AppConfig::default();
    config.allowed_users = users.iter().map(|user| user.to_string()).collect();
    config.normalize();
    config
}

#[test]
fn normalize_deduplicates_and_clamps_values() {
    let mut config = AppConfig {
        fps: 999,
        max_clients: 0,
        allowed_users: vec![" Alice ".into(), "alice".into(), "".into()],
        ..Default::default()
    };

    config.normalize();

    assert_eq!(config.fps, 120);
    assert_eq!(config.max_clients, 1);
    assert_eq!(config.allowed_users, vec!["alice"]);
}

#[test]
fn round_trip_preserves_policy() {
    let config = AppConfig {
        allowed_users: vec![".\\alice".into()],
        allow_control: false,
        ..Default::default()
    };

    let mut saved = config.clone();
    saved.normalize();
    let (loaded, fresh) = loaded_config(Some(saved));

    assert!(!fresh);
    assert!(!loaded.allow_control);
    assert!(loaded.allows_user(&vec![".\\alice".into()]));
}

#[test]
fn a_missing_file_gives_the_usual_settings() {
    let (config, fresh) = loaded_config(None);
    assert!(fresh);
    assert!(config.enabled);
    assert_eq!(config.bind_address, "0.0.0.0");
    assert_eq!(config.port, 3390);
    assert_eq!(config.fps, 30);
    assert_eq!(config.max_clients, 1);
    assert!(config.allow_control);
    assert!(config.allowed_users.is_empty());
    assert!(!config.allows_user(&vec!["alice".into()]));
}

#[test]
fn normalizing_sorts_trims_and_settles() {
    let mut config = AppConfig {
        bind_address: " 127.0.0.1 ".into(),
        fps: 0,
        max_clients: 99,
        allowed_users: vec!["zoe".into(), "\u{c9}MILE".into(), "bob".into(), "bobby".into()],
        ..Default::default()
    };
    config.normalize();
    assert_eq!(config.bind_address, "127.0.0.1");
    assert_eq!(config.fps, 1);
    assert_eq!(config.max_clients, 16);
    assert_eq!(config.allowed_users, vec!["bob", "bobby", "zoe", "\u{e9}mile"]);
    let settled = config.clone();
    config.normalize();
    assert_eq!(config, settled);
}

#[test]
fn the_order_of_names_is_that_of_sorted_strings() {
    let names = ["b", "a", "ab", "B", "", "a ", "\u{1f600}", "\u{ffff}", "z"];
    let mut expected: Vec<String> =
        names.iter().map(|name| name.trim().to_lowercase()).filter(|name| !name.is_empty()).collect();
    expected.sort();
    expected.dedup();
    assert_eq!(listing(&names).allowed_users, expected);
}

#[test]
fn any_spelling_of_a_listed_account_may_connect() {
    let config = listing(&["Alice"]);
    assert!(config.allows_user(&vec![" ALICE ".into()]));
    assert!(config.allows_user(&vec!["bob".into(), "alice".into()]));
    assert!(!config.allows_user(&vec!["bob".into()]));
    assert!(!config.allows_user(&vec![" ".into()]));
    assert_eq!(normalize_account(" HOST\\Alice "), "host\\alice");
}

#[test]
fn files_lie_where_the_documentation_says() {
    let directory = DataDirectory::on_windows_under(None);
    assert_eq!(data_dir(&directory), "C:\\ProgramData\\SunRemoteDesktop");
    assert_eq!(config_path(&directory), "C:\\ProgramData\\SunRemoteDesktop\\config.toml");
    assert_eq!(certificate_path(&directory), "C:\\ProgramData\\SunRemoteDesktop\\server-cert.pem");
    assert_eq!(private_key_path(&directory), "C:\\ProgramData\\SunRemoteDesktop\\server-key.pem");
    assert_eq!(
        trusted_clients_path(&directory),
        "C:\\ProgramData\\SunRemoteDesktop\\Maintenance\\trusted-clients.toml"
    );
    assert_eq!(
        service_log_path(&directory),
        "C:\\ProgramData\\SunRemoteDesktop\\sunrdp-service.log"
    );
}

#[test]
fn paths_are_joined_as_the_system_does() {
    assert_eq!(data_dir(&DataDirectory::on_windows_under(Some("D:\\"))), "D:\\SunRemoteDesktop");
    assert_eq!(data_dir(&DataDirectory::on_windows_under(Some("D:"))), "D:SunRemoteDesktop");
    assert_eq!(data_dir(&DataDirectory::on_windows_under(Some(""))), "SunRemoteDesktop");
    let directory = DataDirectory::elsewhere(Some("/var/lib/host"));
    assert_eq!(config_path(&directory), "/var/lib/host/config.toml");
    let expected = std::path::Path::new("/var/lib/host").join("Maintenance");
    let expected = expected.join("trusted-clients.toml");
    assert_eq!(trusted_clients_path(&directory), expected.to_str().unwrap());
    assert_eq!(data_dir(&DataDirectory::elsewhere(None)), ".rdp-desktop-host");
}

#[test]
fn splits_local_and_qualified_accounts() {
    assert_eq!(split_account("alice"), ("", "alice"));
    assert_eq!(split_account(".\\alice"), (".", "alice"));
    assert_eq!(split_account("HOST\\alice"), ("HOST", "alice"));
}

#[test]
fn the_last_backslash_splits_an_account() {
    assert_eq!(split_account(" a\\b \\ c "), ("a\\b", "c"));
    assert_eq!(split_account("HOST\\"), ("HOST", ""));
    assert_eq!(split_account("  "), ("", ""));
}

#[test]
fn accounts_are_shown_with_their_domain() {
    assert_eq!(display_account(Some(" HOST "), "alice"), "HOST\\alice");
    assert_eq!(display_account(Some("  "), "alice"), "alice");
    assert_eq!(display_account(None, "alice"), "alice");
}

#[test]
fn an_account_has_every_name_it_may_be_listed_under() {
    assert_eq!(
        account_candidates("Domain", " Alice ", Some("PC")),
        vec!["alice", "domain\\alice", "pc\\alice", ".\\alice"]
    );
    assert_eq!(account_candidates(" ", "Alice", None), vec!["alice", ".\\alice"]);
}

#[test]
fn only_listed_accounts_reach_windows() {
    let config = listing(&["alice"]);
    match verify_account(&config, "HOST\\Alice", "secret", None) {
        AccountCheck::AskWindows(request) => {
            assert_eq!(request.domain, wide("HOST"));
            assert_eq!(request.username, wide("Alice"));
            assert_eq!(request.password, wide("secret"));
        }
        AccountCheck::Rejected => panic!("the account is listed"),
    }
    match verify_credentials(&config, " ", "alice", "secret", None) {
        AccountCheck::AskWindows(request) => assert_eq!(request.domain, wide(".")),
        AccountCheck::Rejected => panic!("the account is listed"),
    }
    assert!(matches!(verify_account(&config, "bob", "secret", None), AccountCheck::Rejected));
    assert!(matches!(verify_account(&config, "alice", "a\0b", None), AccountCheck::Rejected));
}

#[test]
fn an_authenticated_account_must_be_listed_too() {
    let config = listing(&["pc\\alice"]);
    assert!(is_account_allowed(&config, "PC\\Alice", None));
    assert!(is_account_allowed(&config, "alice", Some("PC")));
    assert!(!is_account_allowed(&config, "alice", None));
    assert!(!is_account_allowed(&listing(&[]), "alice", Some("PC")));
}

#[test]
fn credentials_of_a_connecting_client_are_planned() {
    let mut gate = AccessGate::new("unused.toml".to_string());
    assert!(matches!(plan_client_info(&mut gate, None, " ", "x"), ClientInfoPlan::ShowLogin));
    assert!(matches!(plan_client_info(&mut gate, None, "alice", ""), ClientInfoPlan::ShowLogin));
    assert_eq!(gate.snapshot().status, AccessStatus::Ready);
    match plan_client_info(&mut gate, Some("HOST"), "alice", "x") {
        ClientInfoPlan::Validate { generation, account } => {
            assert_eq!(generation, gate.connection_generation());
            assert_eq!(account, "HOST\\alice");
            assert_eq!(gate.snapshot().status, AccessStatus::Checking);
            let sessions = sun_remote_desktop::session::SessionCoordinator::new(1);
            gate.finish_validation(generation, &account, Ok(true), &sessions);
        }
        _ => panic!("the account is checked"),
    }
    assert!(matches!(plan_client_info(&mut gate, None, "", ""), ClientInfoPlan::SignedIn));
}

#[test]
fn accounts_are_added_once_and_removed() {
    let mut state = AdminState::load(listing(&["alice"]));
    assert_eq!(state.status, AdminStatus::Loaded);
    state.new_user = "  ".to_string();
    state.add_user();
    assert_eq!(state.config.allowed_users, vec!["alice"]);
    state.new_user = " ALICE ".to_string();
    state.add_user();
    assert_eq!(state.config.allowed_users, vec!["alice"]);
    assert_eq!(state.new_user, " ALICE ");
    state.new_user = " Aaron ".to_string();
    state.add_user();
    assert_eq!(state.config.allowed_users, vec!["aaron", "alice"]);
    assert_eq!(state.new_user, "");
    assert_eq!(state.status, AdminStatus::UserAdded);

    state.selected_user = Some(1);
    state.remove_selected_user();
    assert_eq!(state.config.allowed_users, vec!["aaron"]);
    assert_eq!(state.selected_user, None);
    assert_eq!(state.status, AdminStatus::UserRemoved);
    state.selected_user = Some(7);
    state.remove_selected_user();
    assert_eq!(state.config.allowed_users, vec!["aaron"]);
}

#[test]
fn edited_settings_are_normal_when_saved() {
    let mut state = AdminState::load(AppConfig::default());
    state.config.fps = 500;
    state.prepare_save();
    assert_eq!(state.config.fps, 120);
    state.saved(true);
    assert_eq!(state.status, AdminStatus::Saved);
    state.saved(false);
    assert_eq!(state.status, AdminStatus::SaveFailed);
    state.selected_user = Some(0);
    state.reload(None);
    assert_eq!(state.status, AdminStatus::LoadFailed);
    assert_eq!(state.selected_user, Some(0));
    state.reload(Some(listing(&["bob"])));
    assert_eq!(state.config.allowed_users, vec!["bob"]);
    assert_eq!(state.selected_user, None);
    assert_eq!(state.status, AdminStatus::Reloaded);
}
