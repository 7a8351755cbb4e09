use account_pool::account_cmd::account_list;
use account_pool::account_cmd::account_set;
use account_pool::account_cmd::account_use;
use account_pool::account_cmd::added_message;
use account_pool::account_cmd::added_priority;
use account_pool::account_cmd::adding_message;
use account_pool::account_cmd::admit_account_add;
use account_pool::account_cmd::browser_login_message;
use account_pool::account_cmd::device_login_message;
use account_pool::account_cmd::existing_root_profile;
use account_pool::account_cmd::format_cooldown;
use account_pool::account_cmd::next_priority;
use account_pool::account_cmd::no_profiles_message;
use account_pool::account_cmd::selected_message;
use account_pool::account_cmd::AccountRemoval;
use account_pool::account_cmd::AccountRuntimeProfileState;
use account_pool::account_cmd::AccountRuntimeState;
use account_pool::account_cmd::ProfileIdentity;
use account_pool::account_cmd::RemovalStep;
use account_pool::account_selector::resolve_account;
use account_pool::account_selector::AccountProfileRecord;
use account_pool::account_selector::AccountProfileState;
use account_pool::accounts::AccountProfile;
use account_pool::time::UtcTime;

const NOW: i64 = 1_800_000_000;

fn at(seconds: i64) -> UtcTime {
    UtcTime::from_timestamp(seconds).unwrap()
}

fn record(id: &str, label: &str, priority: u32, disabled: bool) -> AccountProfileRecord {
    AccountProfileRecord {
        profile: AccountProfile {
            id: id.to_string(),
            label: Some(label.to_string()),
            priority,
        },
        state: AccountProfileState::Ready,
        disabled,
    }
}

fn sample_profiles() -> Vec<AccountProfileRecord> {
    vec![
        record("first", "Work Pro", 0, false),
        record("second", "Shared", 1, false),
        record("third", "Shared", 2, false),
        record("parked", "Parked", 3, true),
    ]
}

fn runtime() -> AccountRuntimeState {
    AccountRuntimeState {
        active_profile_id: None,
        profiles: Vec::new(),
    }
}

#[test]
fn account_use_resolves_labels_and_rejects_ambiguous_or_disabled_profiles() {
    let mut state = runtime();
    for (selector, expected) in [
        ("Work Pro", Some("first")),
        ("second", Some("second")),
        ("Shared", None),
        ("Parked", None),
        ("missing", None),
    ] {
        let before = state.clone();
        let outcome = account_use(&sample_profiles(), &mut state, selector, false, at(NOW));
        assert_eq!(outcome.is_ok(), expected.is_some(), "{outcome:?}");
        if let Some(id) = expected {
            assert_eq!(state.active_profile_id.as_deref(), Some(id));
        } else {
            assert_eq!(state, before);
        }
    }
}

#[test]
fn account_set_resolves_labels_and_list_hides_profile_by_default() {
    let mut profiles = sample_profiles();
    let set = account_set(&mut profiles, "Work Pro", Some(5), None);
    assert!(set.is_ok(), "{set:?}");
    let first = profiles
        .iter()
        .find(|record| record.profile.id == "first")
        .unwrap();
    assert_eq!(first.profile.priority, 5);

    let identities = vec![
        ProfileIdentity {
            plan: None,
            email: None
        };
        4
    ];
    let list = account_list(&profiles, &runtime(), &identities, false, at(NOW)).unwrap();
    let list_stdout = list.join("\n");
    assert!(
        list_stdout.starts_with("ACTIVE\tPRIORITY\tSTATE\tPLAN\tEMAIL\tCOOLDOWN\tLABEL"),
        "{list_stdout}"
    );
    assert!(!list_stdout.contains("\tPROFILE\t"), "{list_stdout}");
    assert!(!list_stdout.contains("first"), "{list_stdout}");

    let list_with_profile =
        account_list(&profiles, &runtime(), &identities, true, at(NOW)).unwrap();
    let list_with_profile_stdout = list_with_profile.join("\n");
    assert!(
        list_with_profile_stdout
            .starts_with("ACTIVE\tPRIORITY\tPROFILE\tSTATE\tPLAN\tEMAIL\tCOOLDOWN\tLABEL"),
        "{list_with_profile_stdout}"
    );
    assert!(
        list_with_profile_stdout.contains("first"),
        "{list_with_profile_stdout}"
    );
}

#[test]
fn selectors_say_what_is_wrong_with_them() {
    let profiles = sample_profiles();
    assert_eq!(resolve_account(&profiles, "third").unwrap(), &profiles[2]);
    assert_eq!(
        resolve_account(&profiles, "no\tone").unwrap_err(),
        "No account matches \"no\\tone\". Use `codex account list` to see IDs and labels."
    );
    assert_eq!(
        resolve_account(&profiles, "Shared").unwrap_err(),
        "Account label \"Shared\" is ambiguous. Select an exact profile ID or assign a unique label with `codex account set <id> --label <label>`."
    );
    let mut profiles = sample_profiles();
    profiles[1].profile.id = "Work Pro".to_string();
    assert_eq!(
        resolve_account(&profiles, "Work Pro").unwrap(),
        &profiles[1]
    );
}

fn cooling(id: &str, until: i64) -> AccountRuntimeState {
    AccountRuntimeState {
        active_profile_id: Some("second".to_string()),
        profiles: vec![AccountRuntimeProfileState {
            profile_id: id.to_string(),
            exhausted_until: Some(at(until)),
        }],
    }
}

#[test]
fn force_overrides_a_cooldown_and_nothing_else() {
    let profiles = sample_profiles();
    let mut state = cooling("first", 1_900_000_000);
    assert_eq!(
        account_use(&profiles, &mut state, "first", false, at(NOW)),
        Err(
            "Account profile first is cooling down until 2030-03-17 17:46:40 UTC. Use --force to probe it now."
                .to_string()
        )
    );
    assert_eq!(state, cooling("first", 1_900_000_000));
    assert_eq!(
        account_use(&profiles, &mut state, "first", true, at(NOW)),
        Ok("first".to_string())
    );
    assert_eq!(state.active_profile_id.as_deref(), Some("first"));
    assert_eq!(state.profiles[0].exhausted_until, None);

    let mut over = cooling("first", NOW);
    assert!(account_use(&profiles, &mut over, "first", false, at(NOW)).is_ok());
    assert_eq!(over.profiles[0].exhausted_until, Some(at(NOW)));

    let mut state = runtime();
    assert_eq!(
        account_use(&profiles, &mut state, "parked", true, at(NOW)),
        Err("Account profile parked is disabled.".to_string())
    );
    let mut pending = sample_profiles();
    pending[0].state = AccountProfileState::PendingLogin;
    assert_eq!(
        account_use(&pending, &mut state, "first", true, at(NOW)),
        Err("Account profile first has not completed login.".to_string())
    );
    assert_eq!(state, runtime());
    assert_eq!(
        selected_message("first"),
        "Selected Codex account profile first."
    );
}

#[test]
fn list_is_ordered_by_priority_and_id() {
    let mut profiles = vec![
        record("b", "B", 7, false),
        record("c", "C", 0, false),
        record("a", "A", 7, false),
    ];
    profiles[1].state = AccountProfileState::PendingLogin;
    profiles[2].profile.label = None;
    let mut state = cooling("b", 1_900_000_000);
    state.active_profile_id = Some("b".to_string());
    let identities = vec![
        ProfileIdentity {
            plan: Some("Pro".to_string()),
            email: Some("b@example.com".to_string()),
        },
        ProfileIdentity {
            plan: None,
            email: None,
        },
        ProfileIdentity {
            plan: Some("Plus".to_string()),
            email: None,
        },
    ];
    assert_eq!(
        account_list(&profiles, &state, &identities, true, at(NOW)).unwrap(),
        vec![
            "ACTIVE\tPRIORITY\tPROFILE\tSTATE\tPLAN\tEMAIL\tCOOLDOWN\tLABEL",
            "\t0\tc\tpending_login\t-\t-\t-\tC",
            "\t7\ta\tready\tPlus\t-\t-\t-",
            "*\t7\tb\tready\tPro\tb@example.com\t2030-03-17 17:46:40 UTC\tB",
        ]
    );
    assert_eq!(
        account_list(&vec![], &state, &vec![], true, at(NOW)),
        None
    );
}

#[test]
fn cooldowns_that_are_over_are_not_shown() {
    let state = AccountRuntimeProfileState {
        profile_id: "a".to_string(),
        exhausted_until: Some(at(NOW)),
    };
    assert_eq!(format_cooldown(Some(&state), at(NOW)), "-");
    assert_eq!(
        format_cooldown(Some(&state), at(NOW - 1)),
        "2027-01-15 08:00:00 UTC"
    );
    assert_eq!(format_cooldown(None, at(NOW)), "-");
}

#[test]
fn added_profiles_come_after_all_others() {
    assert_eq!(next_priority(&vec![]), 0);
    assert_eq!(next_priority(&sample_profiles()), 13);
    assert_eq!(
        next_priority(&vec![record("x", "X", u32::MAX - 3, false)]),
        u32::MAX
    );
    assert_eq!(added_priority(Some(2), &sample_profiles()), 2);
    assert_eq!(added_priority(None, &sample_profiles()), 13);
}

#[test]
fn adding_an_account_is_announced() {
    assert_eq!(admit_account_add(true), Ok(()));
    assert_eq!(
        admit_account_add(false),
        Err("ChatGPT login is disabled by the current authentication policy.".to_string())
    );
    let root = existing_root_profile(true).unwrap();
    assert_eq!(
        (root.id.as_str(), root.label.as_deref(), root.priority),
        ("legacy-root", Some("Existing login"), 0)
    );
    assert_eq!(existing_root_profile(false), None);
    assert_eq!(adding_message("p1"), "Adding Codex account profile p1.");
    assert_eq!(
        device_login_message(Some("https://example.com"), Some("AB-12")).unwrap(),
        "Open this URL and enter the code:\n\nhttps://example.com\n\nCode: AB-12\n"
    );
    assert_eq!(device_login_message(Some("https://example.com"), None), None);
    assert_eq!(
        browser_login_message("p1", Some(1455), Some("https://example.com")).unwrap(),
        "Adding Codex account profile p1.\nStarting local login server on http://localhost:1455.\nIf your browser did not open, navigate to:\n\nhttps://example.com\n"
    );
    assert_eq!(browser_login_message("p1", None, Some("https://example.com")), None);
    assert_eq!(
        added_message(&record("p1", "Work", 20, false).profile),
        "Added Codex account p1 (Work) with priority 20."
    );
    let mut profile = record("p1", "Work", 20, false).profile;
    profile.label = None;
    assert_eq!(
        added_message(&profile),
        "Added Codex account p1 with priority 20."
    );
}

#[test]
fn settings_change_only_where_they_are_given() {
    let mut profiles = sample_profiles();
    assert_eq!(
        account_set(&mut profiles, "second", None, Some("Own".to_string())),
        Ok("second".to_string())
    );
    let mut expected = sample_profiles();
    expected[1].profile.label = Some("Own".to_string());
    assert_eq!(profiles, expected);
    assert!(account_set(&mut profiles, "nobody", Some(1), None).is_err());
    assert_eq!(profiles, expected);
}

fn removal(id: &str, keep_credentials: bool) -> AccountRemoval {
    let mut profiles = sample_profiles();
    profiles.push(record("legacy-root", "Root", 9, false));
    AccountRemoval::begin(&profiles, id, keep_credentials).unwrap()
}

fn steps(mut removal: AccountRemoval) -> Vec<RemovalStep> {
    let mut steps = vec![removal.step];
    while removal.step != RemovalStep::Finished {
        assert_eq!(removal.after_step(Ok(true)), Ok(None));
        steps.push(removal.step);
    }
    steps
}

#[test]
fn removal_goes_through_its_steps() {
    assert_eq!(
        steps(removal("third", false)),
        vec![
            RemovalStep::RevokeCredentials,
            RemovalStep::RemoveMetadata,
            RemovalStep::RemoveRuntimeState,
            RemovalStep::PurgeCredentials,
            RemovalStep::Finished,
        ]
    );
    for kept in [removal("third", true), removal("legacy-root", false)] {
        assert_eq!(
            steps(kept),
            vec![
                RemovalStep::RemoveMetadata,
                RemovalStep::RemoveRuntimeState,
                RemovalStep::Finished,
            ]
        );
    }
    assert_eq!(removal("third", false).index, 2);
    assert_eq!(
        AccountRemoval::begin(&sample_profiles(), "Work Pro", false),
        Err("Unknown Codex account profile: Work Pro".to_string())
    );
}

#[test]
fn removal_says_what_was_done() {
    assert_eq!(
        removal("third", false).removed_message(),
        "Removed account profile third and revoked its credentials."
    );
    assert_eq!(
        removal("third", true).removed_message(),
        "Removed account profile third; its credential directory was preserved."
    );
    assert_eq!(
        removal("legacy-root", true).removed_message(),
        "Removed legacy-root from the account pool. Root Codex credentials were left untouched."
    );
}

#[test]
fn removal_stops_at_failures_that_matter() {
    let mut removal = removal("third", false);
    assert_eq!(
        removal.after_step(Err("offline".to_string())),
        Err("Error revoking account credentials: offline".to_string())
    );
    assert_eq!(removal.step, RemovalStep::RevokeCredentials);
    removal.after_step(Ok(true)).unwrap();
    assert_eq!(
        removal.after_step(Ok(false)),
        Err("Unknown Codex account profile: third".to_string())
    );
    assert_eq!(
        removal.after_step(Err("locked".to_string())),
        Err("Error removing account profile: locked".to_string())
    );
    removal.after_step(Ok(true)).unwrap();
    assert_eq!(
        removal.after_step(Err("busy".to_string())),
        Ok(Some(
            "Warning: failed to remove stale scheduler state: busy".to_string()
        ))
    );
    assert_eq!(removal.step, RemovalStep::PurgeCredentials);
    assert_eq!(
        removal.after_step(Err("denied".to_string())),
        Err("Error deleting account credentials: denied".to_string())
    );
}

#[test]
fn a_list_without_profiles_says_so() {
    assert_eq!(
        no_profiles_message(),
        "No Codex account profiles are configured."
    );
}
