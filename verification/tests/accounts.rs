use plausible_cli::config::accounts::{
    validate_alias, AccountEntry, AccountProfile, AccountStore, AccountStoreError, AccountsState,
    StateSource,
};
use plausible_cli::config::{project_names, ConfigError, ConfigPaths, FileRead, IoFailure, Location};
use plausible_cli::nonzero::NonZeroU32;
use std::path::{Path, PathBuf};

fn store_for_test() -> AccountStore {
    AccountStore::new(ConfigPaths::from_base_dir(PathBuf::from("/tmp/config")), Ok(()))
        .expect("store")
}

fn path(location: Location) -> PathBuf {
    let mut path = location.base;
    for segment in location.segments {
        path.push(segment);
    }
    path
}

fn failure() -> IoFailure {
    IoFailure { path: "\"/x\"".into(), source: "denied".into() }
}

fn entry(alias: &str, label: &str) -> AccountEntry {
    AccountEntry {
        alias: alias.into(),
        profile: AccountProfile { label: Some(label.into()), ..AccountProfile::default() },
        daily_budget: None,
    }
}

#[test]
fn add_account_persists_metadata_and_secret() {
    let mut store = store_for_test();
    let secret = store
        .add_account(
            "prod",
            "test-key",
            AccountProfile {
                label: Some("Production".into()),
                email: Some("ops@example.com".into()),
                description: Some("Primary account".into()),
            },
        )
        .expect("add account");

    let accounts = store.list_accounts();
    assert_eq!(accounts.len(), 1);
    let summary = &accounts[0];
    assert_eq!(summary.alias, "prod");
    assert!(summary.is_default);
    assert_eq!(summary.profile.label.as_deref(), Some("Production"));

    let record = store.get_account("prod", Ok(secret.contents)).expect("get account");
    assert_eq!(record.api_key, "test-key");
}

#[test]
fn cannot_add_duplicate_alias() {
    let mut store = store_for_test();
    store
        .add_account("dup", "k1", AccountProfile::default())
        .expect("add first");
    let err = store
        .add_account("dup", "k2", AccountProfile::default())
        .expect_err("duplicate");
    assert!(matches!(
        err,
        AccountStoreError::DuplicateAlias(alias) if alias == "dup"
    ));
}

#[test]
fn set_default_updates_state() {
    let mut store = store_for_test();
    store
        .add_account("a", "ka", AccountProfile::default())
        .expect("add a");
    store
        .add_account("b", "kb", AccountProfile::default())
        .expect("add b");

    store.set_default("b").expect("set default");
    let accounts = store.list_accounts();
    let defaults: Vec<_> = accounts
        .into_iter()
        .filter(|summary| summary.is_default)
        .collect();
    assert_eq!(defaults.len(), 1);
    assert_eq!(defaults[0].alias, "b");
}

#[test]
fn remove_account_drops_secret_and_selects_new_default() {
    let mut store = store_for_test();
    store
        .add_account("first", "k1", AccountProfile::default())
        .expect("add first");
    store
        .add_account("second", "k2", AccountProfile::default())
        .expect("add second");

    let dropped = store.remove_account("first").expect("remove account");
    assert_eq!(path(dropped), Path::new("/tmp/config/accounts/first.key"));
    let accounts = store.list_accounts();
    assert_eq!(accounts.len(), 1);
    assert_eq!(accounts[0].alias, "second");
    assert!(accounts[0].is_default);
    assert!(store.get_account("first", Ok("k1".into())).is_err());
}

#[test]
fn alias_validation_rejects_path_segments() {
    assert!(validate_alias("valid-alias").is_ok());
    assert!(validate_alias("nested/alias").is_err());
    assert!(validate_alias("..").is_err());
    assert!(validate_alias("").is_err());
}

#[test]
fn alias_faults_are_named() {
    let message = |alias: &str| validate_alias(alias).expect_err("fault").message();
    assert_eq!(message(" \t"), "account alias is invalid: alias cannot be empty");
    assert_eq!(message("a\\b"), "account alias is invalid: alias may not contain path separators");
    assert_eq!(
        message("a..b"),
        "account alias is invalid: alias may not contain parent directory segments"
    );
    assert!(validate_alias("a.b.c").is_ok());
}

#[test]
fn accounts_are_listed_in_alphabetical_order() {
    let mut store = store_for_test();
    for alias in ["b", "c", "a", "B", "ab"] {
        store.add_account(alias, "k", AccountProfile::default()).expect("add");
    }
    let aliases: Vec<String> = store.list_accounts().into_iter().map(|s| s.alias).collect();
    assert_eq!(aliases, vec!["B", "a", "ab", "b", "c"]);
    assert_eq!(store.default_alias().as_deref(), Some("b"));
    store.remove_account("b").expect("remove");
    assert_eq!(store.default_alias().as_deref(), Some("B"));
    store.remove_account("c").expect("remove");
    assert_eq!(store.default_alias().as_deref(), Some("B"));
}

#[test]
fn removing_the_last_account_leaves_no_default() {
    let mut store = store_for_test();
    store.add_account("a", "k", AccountProfile::default()).expect("add");
    store.remove_account("a").expect("remove");
    assert_eq!(store.default_alias(), None);
    assert_eq!(store.list_accounts().len(), 0);
}

#[test]
fn keys_are_read_without_surrounding_white_space() {
    let mut store = store_for_test();
    let secret = store.add_account("a", " key\t", AccountProfile::default()).expect("add");
    assert_eq!(secret.contents, " key\t");
    let record = store.get_account("a", Ok(secret.contents)).expect("get");
    assert_eq!(record.api_key, "key");
    let again = store.get_account("a", Ok(record.api_key.clone())).expect("get");
    assert_eq!(again.api_key, "key");
    assert!(record.is_default);
    assert_eq!(record.daily_budget.map(NonZeroU32::get), None);
    assert!(matches!(store.get_account("a", Err(failure())), Err(AccountStoreError::Io(_))));
    assert!(matches!(
        store.get_account("b", Err(failure())),
        Err(AccountStoreError::AccountNotFound(alias)) if alias == "b"
    ));
}

#[test]
fn budgets_belong_to_their_accounts() {
    let mut store = store_for_test();
    store.add_account("a", "k", AccountProfile::default()).expect("add");
    store.add_account("b", "k", AccountProfile::default()).expect("add");
    store.set_daily_budget("b", NonZeroU32::new(7)).expect("budget");
    let budgets: Vec<Option<u32>> =
        store.export_accounts().into_iter().map(|e| e.daily_budget).collect();
    assert_eq!(budgets, vec![None, Some(7)]);
    assert!(store.set_daily_budget("c", None).is_err());
}

#[test]
fn removing_an_account_undoes_adding_it() {
    let mut store = store_for_test();
    store.add_account("b", "k", AccountProfile::default()).expect("add");
    let before = store.export_accounts();
    store.add_account("a", "k", AccountProfile::default()).expect("add");
    assert!(store.has_account("a"));
    store.remove_account("a").expect("remove");
    assert!(!store.has_account("a"));
    assert_eq!(store.export_accounts(), before);
    assert_eq!(store.default_alias().as_deref(), Some("b"));
}

#[test]
fn empty_keys_are_refused() {
    let mut store = store_for_test();
    let err = store.add_account("a", " \n", AccountProfile::default()).expect_err("empty");
    assert_eq!(err.message(), "API key cannot be empty");
    assert_eq!(store.list_accounts().len(), 0);
}

#[test]
fn stored_entries_replace_each_other() {
    let entries = vec![entry("b", "one"), entry("a", "two"), entry("b", "three")];
    let state = AccountsState::from_entries(Some("b".into()), entries);
    let store = store_for_test().with_state(state);
    let labels: Vec<Option<String>> =
        store.list_accounts().into_iter().map(|s| s.profile.label).collect();
    assert_eq!(labels, vec![Some("two".into()), Some("three".into())]);
    assert_eq!(store.default_alias().as_deref(), Some("b"));
    assert_eq!(store.state().accounts.len(), 2);
}

#[test]
fn missing_and_blank_files_stand_for_an_empty_store() {
    assert!(matches!(AccountStore::read_state(FileRead::Missing), Ok(StateSource::Fresh)));
    assert!(matches!(
        AccountStore::read_state(FileRead::Found(" \n".into())),
        Ok(StateSource::Fresh)
    ));
    assert!(matches!(
        AccountStore::read_state(FileRead::Found("{}".into())),
        Ok(StateSource::Parse(contents)) if contents == "{}"
    ));
    let err = AccountStore::read_state(FileRead::Failed(failure())).expect_err("failed");
    assert_eq!(err.message(), "I/O error at \"/x\"");
    assert_eq!(AccountsState::default().accounts.len(), 0);
}

#[test]
fn deleting_a_missing_key_file_is_fine() {
    assert!(AccountStore::delete_secret(FileRead::Found(())).is_ok());
    assert!(AccountStore::delete_secret(FileRead::Missing).is_ok());
    assert!(matches!(
        AccountStore::delete_secret(FileRead::Failed(failure())),
        Err(AccountStoreError::Io(_))
    ));
}

#[test]
fn store_needs_its_directories() {
    let paths = ConfigPaths::from_base_dir(PathBuf::from("/tmp/config"));
    let err = AccountStore::new(paths, Err(ConfigError::Io(failure()))).expect_err("failed");
    assert_eq!(err.message(), "configuration error: I/O error interacting with \"/x\"");
}

#[test]
fn messages_name_what_went_wrong() {
    let message = |error: AccountStoreError| error.message();
    assert_eq!(
        message(AccountStoreError::Deserialize("x".into())),
        "failed to parse accounts file: x"
    );
    assert_eq!(
        message(AccountStoreError::Serialize("x".into())),
        "failed to serialise accounts file: x"
    );
    assert_eq!(
        message(AccountStoreError::DuplicateAlias("x".into())),
        "account alias already exists: x"
    );
    assert_eq!(
        message(AccountStoreError::AccountNotFound("x".into())),
        "account not found: x"
    );
}

#[test]
fn config_paths_resolve_expected_files() {
    let tmp = Path::new("/tmp/somewhere");
    let paths = ConfigPaths::from_base_dir(tmp.to_path_buf());

    assert_eq!(path(paths.config_file()), tmp.join("config.toml"));
    assert_eq!(path(paths.usage_dir()), tmp.join("usage"));
    assert_eq!(path(paths.accounts_dir()), tmp.join("accounts"));
    assert_eq!(path(paths.accounts_file()), tmp.join("accounts.json"));
}

#[test]
fn required_directories_start_with_the_root() {
    let tmp = Path::new("/tmp/nested/plausible");
    let paths = ConfigPaths::from_base_dir(tmp.to_path_buf());
    let dirs: Vec<PathBuf> = paths.required_dirs().into_iter().map(path).collect();
    assert_eq!(dirs, vec![tmp.to_path_buf(), tmp.join("accounts"), tmp.join("usage")]);
    assert_eq!(paths.base_dir(), tmp);
}

#[test]
fn platform_directory_is_used_if_there_is_one() {
    let paths = ConfigPaths::from_platform_dir(Some(PathBuf::from("/p"))).expect("paths");
    assert_eq!(paths.base_dir(), Path::new("/p"));
    let err = ConfigPaths::from_platform_dir(None).expect_err("none");
    assert_eq!(
        err.message(),
        "failed to determine configuration directory for this platform"
    );
    if let Ok(paths) = ConfigPaths::with_project_dirs() {
        assert!(paths.base_dir().to_string_lossy().contains("plausible"));
    }
}

#[test]
fn platforms_know_the_project_by_these_names() {
    assert_eq!(project_names(), ("io", "plausible", "plausible-cli"));
}
