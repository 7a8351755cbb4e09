use account_pool::config::AccountPoolRotationStrategy;
use account_pool::mobile_account_bridge::account_display_label;
use account_pool::mobile_account_bridge::availability_label;
use account_pool::mobile_account_bridge::format_account_pool_summary;
use account_pool::mobile_account_bridge::inject_workspace_messages_for_remote_client;
use account_pool::mobile_account_bridge::is_chatgpt_remote_client;
use account_pool::mobile_account_bridge::matches_slash_command;
use account_pool::mobile_account_bridge::mobile_account_slash_reply;
use account_pool::mobile_account_bridge::mobile_slash_command;
use account_pool::mobile_account_bridge::mobile_status_slash_reply;
use account_pool::mobile_account_bridge::now_unix_timestamp_ms;
use account_pool::mobile_account_bridge::overlay_get_account_for_remote_client;
use account_pool::mobile_account_bridge::overlay_get_account_rate_limits_for_remote_client;
use account_pool::mobile_account_bridge::push_account_pool_warning;
use account_pool::mobile_account_bridge::unix_timestamp_ms;
use account_pool::mobile_account_bridge::Account;
use account_pool::mobile_account_bridge::GetAccountRateLimitsResponse;
use account_pool::mobile_account_bridge::GetAccountResponse;
use account_pool::mobile_account_bridge::GetWorkspaceMessagesResponse;
use account_pool::mobile_account_bridge::LimitEntry;
use account_pool::mobile_account_bridge::MobileSlashCommand;
use account_pool::mobile_account_bridge::MobileSlashTurn;
use account_pool::mobile_account_bridge::RemoteClientRegistry;
use account_pool::mobile_account_bridge::ServerNotification;
use account_pool::mobile_account_bridge::SlashTurnIds;
use account_pool::mobile_account_bridge::ThreadItem;
use account_pool::mobile_account_bridge::TurnItemsView;
use account_pool::mobile_account_bridge::TurnStatus;
use account_pool::mobile_account_bridge::UserInput;
use account_pool::mobile_account_bridge::WorkspaceMessage;
use account_pool::mobile_account_bridge::WorkspaceMessageType;
use account_pool::mobile_account_bridge::LOCAL_WORKSPACE_MESSAGE_ID;
use account_pool::mobile_account_status::account_caption;
use account_pool::mobile_account_status::compact_label;
use account_pool::mobile_account_status::detail;
use account_pool::mobile_account_status::label;
use account_pool::mobile_account_status::list;
use account_pool::mobile_account_status::pool_caption;
use account_pool::mobile_account_status::resolve;
use account_pool::mobile_account_status::reset_label;
use account_pool::mobile_account_status::AccountTimeTexts;
use account_pool::mobile_commands::admit_slash_turn;
use account_pool::mobile_commands::mobile_account_action;
use account_pool::mobile_commands::selected_reply;
use account_pool::mobile_commands::strategy_reply;
use account_pool::mobile_commands::MobileAccountAction;
use account_pool::mobile_commands::SlashTurnThread;
use account_pool::percent::Percent;
use account_pool::protocol::AccountPoolAccount;
use account_pool::protocol::AccountPoolAvailability;
use account_pool::protocol::AccountPoolRateLimitWindow;
use account_pool::protocol::AccountPoolRateLimits;
use account_pool::protocol::AccountPoolReadResponse;
use account_pool::protocol::AccountPoolWindowWarmup;
use account_pool::protocol::AccountPoolWindowWarmupOutcome;
use account_pool::protocol::RateLimitSnapshot;
use account_pool::protocol::RateLimitWindow;

const NOW: i64 = 1_800_000_000;

fn percent(value: f64) -> Percent {
    Percent::from_bits(value.to_bits())
}

fn text_input(text: &str) -> UserInput {
    UserInput::Text {
        text: text.to_string(),
        text_elements: Vec::new(),
    }
}

fn account(profile_id: &str, label: Option<&str>, is_active: bool) -> AccountPoolAccount {
    AccountPoolAccount {
        profile_id: profile_id.to_string(),
        label: label.map(str::to_string),
        priority: 0,
        is_active,
        availability: AccountPoolAvailability::Available,
        plan_type: None,
        email: None,
        rate_limits: AccountPoolRateLimits::default(),
        window_warmup: None,
    }
}

fn pool_of(accounts: Vec<AccountPoolAccount>) -> AccountPoolReadResponse {
    AccountPoolReadResponse {
        enabled: true,
        active_profile_id: Some("primary".to_string()),
        active_generation: Some(1),
        accounts,
    }
}

fn hours_from_now(seconds: i64) -> String {
    format!("in {}h", (seconds - NOW) / 3_600)
}

/// How a host words the times of an account, relative to the present.
fn texts(pool: &AccountPoolReadResponse) -> Vec<AccountTimeTexts> {
    pool.accounts
        .iter()
        .map(|account| AccountTimeTexts {
            cooldown: match account.availability {
                AccountPoolAvailability::Exhausted {
                    resets_at: Some(resets_at),
                } => hours_from_now(resets_at),
                _ => String::new(),
            },
            primary_reset: match &account.rate_limits.primary {
                Some(window) if f64::from_bits(window.used_percent.bits) <= 0.0 => {
                    "not started".to_string()
                }
                Some(window) => window.resets_at.map(hours_from_now).unwrap_or_default(),
                None => String::new(),
            },
        })
        .collect()
}

#[test]
fn remote_client_detection_matches_ios_and_android_names() {
    assert!(is_chatgpt_remote_client(Some("codex_chatgpt_ios_remote")));
    assert!(is_chatgpt_remote_client(Some(
        "codex_chatgpt_android_remote"
    )));
    assert!(!is_chatgpt_remote_client(Some("codex-tui")));
}

#[test]
fn unnamed_clients_are_not_remote() {
    assert!(!is_chatgpt_remote_client(None));
    assert!(!is_chatgpt_remote_client(Some("")));
}

#[test]
fn mobile_status_slash_command_matches_plain_input() {
    let input = vec![text_input("/status")];
    assert_eq!(
        mobile_slash_command(&input, Some("codex_chatgpt_ios_remote")),
        Some(MobileSlashCommand::Status)
    );
}

#[test]
fn rate_limits_overlay_replaces_limit_name_with_pool_summary() {
    let pool = pool_of(vec![]);
    let mut response = GetAccountRateLimitsResponse {
        rate_limits: RateLimitSnapshot {
            limit_id: Some("codex".to_string()),
            limit_name: Some("Codex".to_string()),
            primary: None,
            secondary: None,
        },
        rate_limits_by_limit_id: None,
        account_id: None,
    };
    overlay_get_account_rate_limits_for_remote_client(&mut response, &pool);
    assert!(response
        .rate_limits
        .limit_name
        .as_deref()
        .is_some_and(|name| name == "Codex · 0/0 ready"));
}

#[test]
fn status_overlay_keeps_progress_windows_and_other_buckets() {
    let pool = pool_of(vec![account("primary", Some("Work"), true)]);
    let snapshot = RateLimitSnapshot {
        limit_id: Some("codex".to_string()),
        limit_name: Some("Codex".to_string()),
        primary: Some(RateLimitWindow {
            used_percent: 25,
            window_duration_mins: Some(300),
            resets_at: Some(1_900_000_000),
        }),
        secondary: Some(RateLimitWindow {
            used_percent: 10,
            window_duration_mins: Some(10080),
            resets_at: Some(1_900_100_000),
        }),
    };
    let mut other = snapshot.clone();
    other.limit_id = Some("other".to_string());
    other.limit_name = Some("Other model".to_string());
    let entry = |limit_id: &str, snapshot: &RateLimitSnapshot| LimitEntry {
        limit_id: limit_id.to_string(),
        snapshot: snapshot.clone(),
    };
    let mut response = GetAccountRateLimitsResponse {
        rate_limits: snapshot.clone(),
        rate_limits_by_limit_id: Some(vec![entry("codex", &snapshot), entry("other", &other)]),
        account_id: None,
    };
    overlay_get_account_rate_limits_for_remote_client(&mut response, &pool);
    let mut expected = snapshot;
    expected.limit_name = Some("Codex · 1/1 ready".to_string());
    assert_eq!(response.rate_limits, expected);
    assert_eq!(
        response.rate_limits_by_limit_id,
        Some(vec![entry("codex", &expected), entry("other", &other)])
    );
    assert_eq!(
        response.rate_limits.limit_name.unwrap(),
        "Codex · 1/1 ready"
    );
}

#[test]
fn mobile_account_slash_command_matches_plain_and_spaced_input() {
    let input = vec![text_input("  /account  ")];
    assert_eq!(
        mobile_slash_command(&input, Some("codex_chatgpt_ios_remote")),
        Some(MobileSlashCommand::Account)
    );
    assert_eq!(mobile_slash_command(&input, Some("codex-tui")), None);
}

#[test]
fn mobile_account_slash_command_rejects_non_text_or_multi_item_input() {
    let input = vec![text_input("/account"), text_input("extra")];
    assert_eq!(
        mobile_slash_command(&input, Some("codex_chatgpt_ios_remote")),
        None
    );
}

#[test]
fn slash_commands_are_recognized_in_any_case() {
    assert!(matches_slash_command("/Account list", "account"));
    assert!(matches_slash_command("// account", "ACCOUNT"));
    assert!(!matches_slash_command("account", "account"));
    assert!(!matches_slash_command("/accounts", "account"));
    assert!(!matches_slash_command("/", "account"));
    let image = vec![UserInput::Image {
        url: "/account".to_string(),
    }];
    assert_eq!(
        mobile_slash_command(&image, Some("codex_chatgpt_ios_remote")),
        None
    );
}

#[test]
fn mobile_account_slash_reply_includes_host_switch_hint_when_pool_enabled() {
    let pool = pool_of(vec![]);
    let reply = mobile_account_slash_reply(&pool, &vec![]);
    assert!(reply.contains("codex account use"));
}

#[test]
fn summary_lists_accounts_and_counts_the_rest() {
    let mut pool = pool_of(vec![]);
    for i in 0..10 {
        pool.accounts.push(account(&format!("p{i}"), None, i == 0));
    }
    pool.accounts[0].label = Some("Team".to_string());
    pool.accounts[1].availability = AccountPoolAvailability::Exhausted {
        resets_at: Some(NOW),
    };
    pool.accounts[2].email = Some("a@example.com".to_string());
    pool.accounts[2].availability = AccountPoolAvailability::Disabled;
    let cooldowns = vec!["tomorrow".to_string(); 10];
    let summary = format_account_pool_summary(&pool, &cooldowns);
    let lines: Vec<&str> = summary.lines().collect();
    assert_eq!(lines[0], "Codex account pool · active: primary");
    assert_eq!(lines[1], "· p0 (Team) (priority 0) — available");
    assert_eq!(lines[2], "· p1 (priority 0) — cooldown until tomorrow");
    assert_eq!(lines[3], "· p2 (a@example.com) (priority 0) — disabled");
    assert_eq!(lines.len(), 10);
    assert_eq!(
        lines[9],
        "2 more accounts. Run `codex account list` on the host."
    );
    pool.enabled = false;
    assert_eq!(
        format_account_pool_summary(&pool, &cooldowns),
        "Multi-account pool is not configured. Add profiles with `codex account add` on the host."
    );
}

#[test]
fn states_of_accounts_have_names() {
    let mut one = account("p", None, false);
    assert_eq!(availability_label(&one, "later"), "available");
    one.availability = AccountPoolAvailability::Exhausted { resets_at: None };
    assert_eq!(availability_label(&one, "later"), "cooling down");
    one.availability = AccountPoolAvailability::AuthenticationUnavailable {
        reason: "expired".to_string(),
    };
    assert_eq!(availability_label(&one, "later"), "login required on host");
    assert_eq!(account_display_label(&one), "p");
}

#[test]
fn workspace_message_injection_prepends_pool_headline() {
    let pool = pool_of(vec![account("primary", Some("Team"), true)]);
    let mut response = GetWorkspaceMessagesResponse {
        feature_enabled: true,
        messages: vec![WorkspaceMessage {
            message_id: "backend-1".to_string(),
            message_type: WorkspaceMessageType::Announcement,
            message_body: "Existing headline".to_string(),
            created_at: None,
            archived_at: None,
        }],
    };
    inject_workspace_messages_for_remote_client(&mut response, &pool, NOW);
    assert_eq!(response.messages.len(), 2);
    assert_eq!(response.messages[0].message_id, LOCAL_WORKSPACE_MESSAGE_ID);
    assert!(response.messages[0].message_body.contains("Team"));
}

#[test]
fn mobile_account_refresh_keeps_caption_and_desktop_payload() {
    let mut remote_clients = RemoteClientRegistry::new();
    remote_clients.register(1, "codex_chatgpt_ios_remote".to_string());
    remote_clients.caption = Some("Codex · 2/3 ready".to_string());
    let snapshot = RateLimitSnapshot {
        limit_id: Some("codex".to_string()),
        limit_name: Some("Codex".to_string()),
        primary: Some(RateLimitWindow {
            used_percent: 40,
            window_duration_mins: Some(300),
            resets_at: Some(1_900_000_000),
        }),
        secondary: None,
    };
    let mut mobile = snapshot.clone();
    mobile.limit_name = Some("Codex · 2/3 ready".to_string());
    let notification = ServerNotification::AccountRateLimitsUpdated {
        rate_limits: snapshot.clone(),
    };
    for (id, expected) in [(1, mobile), (2, snapshot)] {
        let mut sent = notification.clone();
        remote_clients.decorate_notification(id, &mut sent);
        assert_eq!(
            sent,
            ServerNotification::AccountRateLimitsUpdated {
                rate_limits: expected
            }
        );
    }
    remote_clients.unregister(1);
    let mut sent = notification.clone();
    remote_clients.decorate_notification(1, &mut sent);
    assert_eq!(sent, notification);
}

fn pool() -> AccountPoolReadResponse {
    let mut work = account("secret-work-id", Some("Work"), true);
    work.priority = 10;
    work.rate_limits.primary = Some(AccountPoolRateLimitWindow {
        used_percent: percent(37.0),
        resets_at: Some(1_900_000_000),
    });
    AccountPoolReadResponse {
        enabled: true,
        active_profile_id: Some("secret-work-id".to_string()),
        active_generation: Some(1),
        accounts: vec![work],
    }
}

#[test]
fn mobile_account_compact_views_hide_ids_and_show_unknown_quota() {
    let pool = pool();
    assert_eq!(
        list(&pool, &texts(&pool), 1, NOW).unwrap(),
        "Accounts · 1/1\n\nWork · Current\nUsed: primary 37% · secondary unknown · cached\n\nDetails: /account show <name>\nControls: /account help"
    );
    assert_eq!(pool_caption(&pool).as_deref(), Some("Work · 1/1 ready"));
    assert_eq!(resolve(&pool, "\"Work\"").unwrap(), &pool.accounts[0]);
}

#[test]
fn mobile_account_pages_are_bounded_and_names_cannot_inject_markup() {
    let mut pool = pool();
    let mut other = pool.accounts[0].clone();
    other.is_active = false;
    other.label = Some("[bad](https://example.com)\n**name**".repeat(100));
    pool.accounts.extend(std::iter::repeat_n(other, 8));
    let text = list(&pool, &texts(&pool), 1, NOW).unwrap();
    assert_eq!(text.matches("Used:").count(), 4);
    assert!(text.contains("Next: /account list 2"));
    assert!(!text.contains("secret-work-id"));
    assert!(!text.contains("[bad]"));
    assert!(text.len() < 1200);
    assert!(list(&pool, &texts(&pool), usize::MAX, NOW).is_err());
    assert!(resolve(&pool, "\"Work").is_err());
    pool.accounts[1].label = Some("Work".into());
    assert!(resolve(&pool, "Work").unwrap_err().contains("Ambiguous"));
}

#[test]
fn mobile_account_detail_reports_relative_reset_and_observation_time() {
    let pool = pool();
    let text = detail(&pool, &texts(&pool), "Work").unwrap();
    assert!(text.contains("Work · Current"));
    assert!(text.contains("Primary: 37% used"));
    assert!(text.contains("Reset: in "));
    assert!(text.contains("Secondary: unknown used"));
    assert!(text.contains("Reset: unknown"));
    assert!(text.contains("Checked: unknown"));
    assert!(text.contains("Cached values remain if refresh fails."));
}

#[test]
fn mobile_account_detail_marks_idle_primary_window_not_started() {
    let mut pool = pool();
    pool.accounts[0].rate_limits.primary = Some(AccountPoolRateLimitWindow {
        used_percent: percent(0.0),
        resets_at: Some(1_900_000_000),
    });
    let text = detail(&pool, &texts(&pool), "Work").unwrap();
    assert!(text.contains("Primary: 0% used"));
    assert!(text.contains("Reset: not started"));
}

#[test]
fn mobile_account_detail_includes_warmup_status() {
    let mut pool = pool();
    pool.accounts[0].window_warmup = Some(AccountPoolWindowWarmup {
        outcome: AccountPoolWindowWarmupOutcome::Succeeded,
        attempted_at: 1_900_000_000,
        retry_after: None,
    });
    let text = detail(&pool, &texts(&pool), "Work").unwrap();
    assert!(text.contains("Warmup: 5h warmed"));
}

#[test]
fn mobile_account_displayed_names_are_valid_selectors() {
    let mut pool = pool();
    pool.accounts[0].label = Some("Work_Pro [personal]".repeat(10));
    assert_eq!(
        resolve(&pool, &label(&pool.accounts[0])).unwrap(),
        &pool.accounts[0]
    );
}

#[test]
fn detail_shows_everything_known_of_an_account() {
    let mut pool = pool();
    let account = &mut pool.accounts[0];
    account.is_active = false;
    account.availability = AccountPoolAvailability::Exhausted {
        resets_at: Some(NOW + 7_200),
    };
    account.rate_limits.secondary = Some(AccountPoolRateLimitWindow {
        used_percent: percent(99.5),
        resets_at: Some(NOW),
    });
    account.rate_limits.observed_at = Some(1_900_000_000);
    assert_eq!(
        detail(&pool, &texts(&pool), "Work").unwrap(),
        "Work · Cooling down in 2h\nPrimary: 37% used\nReset: in 27777h\nSecondary: 100% used\nReset: 01-15 08:00 UTC\nChecked: 03-17 17:46 UTC\nCached values remain if refresh fails."
    );
    assert_eq!(
        detail(&pool, &texts(&pool), "missing").unwrap_err(),
        "Account not found. Use /account to see available names."
    );
}

#[test]
fn resets_are_worded_by_the_host_for_the_primary_window_only() {
    let words = AccountTimeTexts {
        cooldown: String::new(),
        primary_reset: "worded".to_string(),
    };
    let window = |used_percent: f64, resets_at: Option<i64>| {
        Some(AccountPoolRateLimitWindow {
            used_percent: percent(used_percent),
            resets_at,
        })
    };
    assert_eq!(reset_label(&window(37.0, Some(NOW)), true, &words), "worded");
    assert_eq!(reset_label(&window(0.0, None), true, &words), "worded");
    assert_eq!(reset_label(&window(37.0, None), true, &words), "unknown");
    assert_eq!(
        reset_label(&window(0.0, Some(NOW)), false, &words),
        "01-15 08:00 UTC"
    );
    assert_eq!(
        reset_label(&window(37.0, Some(i64::MAX)), false, &words),
        "unknown"
    );
    assert_eq!(reset_label(&None, true, &words), "unknown");
}

#[test]
fn list_shows_the_active_account_first_and_then_by_priority() {
    let mut pool = pool_of(vec![
        account("c", Some("Third"), false),
        account("b", Some("Second"), false),
        account("a", Some("Active"), true),
        account("d", Some("Fourth"), false),
        account("e", Some("Fifth"), false),
    ]);
    pool.accounts[2].priority = 50;
    pool.accounts[4].priority = 3;
    pool.accounts[4].availability = AccountPoolAvailability::Disabled;
    pool.accounts[0].rate_limits.observed_at = Some(NOW - 120);
    pool.accounts[1].rate_limits.observed_at = Some(NOW - 121);
    assert_eq!(
        list(&pool, &texts(&pool), 1, NOW).unwrap(),
        "Accounts · 1/2\n\nActive · Current\nUsed: primary unknown · secondary unknown · cached\n\nSecond\nUsed: primary unknown · secondary unknown · cached\n\nThird\nUsed: primary unknown · secondary unknown\n\nFourth\nUsed: primary unknown · secondary unknown · cached\n\nNext: /account list 2\n\nDetails: /account show <name>\nControls: /account help"
    );
    assert_eq!(
        list(&pool, &texts(&pool), 2, NOW).unwrap(),
        "Accounts · 2/2\n\nFifth · Disabled\nUsed: primary unknown · secondary unknown · cached\n\nDetails: /account show <name>\nControls: /account help"
    );
    assert_eq!(
        list(&pool, &texts(&pool), 3, NOW).unwrap_err(),
        "Page out of range. Use /account list 1 through 2."
    );
    assert_eq!(
        list(&pool_of(vec![]), &vec![], 1, NOW).unwrap(),
        "Accounts · 1/1\n\nDetails: /account show <name>\nControls: /account help"
    );
}

#[test]
fn selectors_go_by_id_before_names() {
    let pool = pool_of(vec![
        account("Work", Some("Home"), false),
        account("x", Some("Work"), false),
    ]);
    assert_eq!(resolve(&pool, "Work").unwrap().profile_id, "Work");
    assert_eq!(resolve(&pool, " 'Home' ").unwrap().profile_id, "Work");
    assert_eq!(
        resolve(&pool, "''").unwrap_err(),
        "Specify an account: /account use <label>"
    );
    assert_eq!(
        resolve(&pool, "\"").unwrap_err(),
        "Close the quoted account name."
    );
    assert_eq!(
        resolve(&pool, "  ").unwrap_err(),
        "Specify an account: /account use <label>"
    );
}

#[test]
fn compact_labels_are_plain_and_bounded() {
    assert_eq!(compact_label("a*b_c\nd", 10), "a b c d");
    assert_eq!(compact_label("abcdef", 3), "abc…");
    assert_eq!(compact_label("ab\u{202e}c\u{7}d", 10), "abcd");
    assert_eq!(compact_label("", 0), "");
}

#[test]
fn captions_name_the_active_account() {
    let mut pool = pool_of(vec![
        account("a", Some("A very long account name"), true),
        account("b", None, false),
    ]);
    pool.accounts[1].availability = AccountPoolAvailability::Disabled;
    assert_eq!(
        pool_caption(&pool).unwrap(),
        "A very long acco… · 1/2 ready"
    );
    pool.enabled = false;
    assert_eq!(pool_caption(&pool), None);
    assert_eq!(account_caption(&pool), "Account pool is not configured.");
    assert_eq!(
        mobile_status_slash_reply(&pool),
        "Account pool is not configured.\nUsage bars show the executing account's limits. Ready counts describe scheduler availability, not verified quota."
    );
}

#[test]
fn account_overlay_leaves_other_logins_alone() {
    let pool = pool();
    let mut response = GetAccountResponse {
        account: Some(Account::ApiKey),
        requires_openai_auth: true,
    };
    overlay_get_account_for_remote_client(&mut response, &pool);
    assert_eq!(response.account, Some(Account::ApiKey));
}

#[test]
fn warnings_are_only_pushed_to_someone() {
    assert_eq!(push_account_pool_warning(0, &pool()), None);
    assert!(matches!(
        push_account_pool_warning(2, &pool()),
        Some(ServerNotification::Warning { thread_id: None, .. })
    ));
}

#[test]
fn clock_readings_become_timestamps() {
    assert_eq!(unix_timestamp_ms(None), 0);
    assert_eq!(unix_timestamp_ms(Some(1_234)), 1_234);
    assert!(now_unix_timestamp_ms() > 1_600_000_000_000);
}

fn slash_turn(input: Vec<UserInput>, started_at_ms: i64) -> MobileSlashTurn {
    MobileSlashTurn::begin(
        SlashTurnIds {
            turn_id: "turn".to_string(),
            user_item_id: "user".to_string(),
            agent_item_id: "agent".to_string(),
        },
        "thread".to_string(),
        Some("client".to_string()),
        &input,
        MobileSlashCommand::Account,
        "the answer".to_string(),
        started_at_ms,
    )
}

#[test]
fn slash_turn_is_announced_in_order() {
    let mut turn = slash_turn(vec![text_input(" /account list ")], 5_999);
    assert_eq!(turn.response(), None);
    let user = ThreadItem::UserMessage {
        id: "user".to_string(),
        client_id: Some("client".to_string()),
        text: "/account list".to_string(),
    };
    let agent = ThreadItem::AgentMessage {
        id: "agent".to_string(),
        text: "the answer".to_string(),
    };
    let Some(ServerNotification::TurnStarted { thread_id, turn: started }) =
        turn.next_notification(6_000)
    else {
        panic!("the turn starts first");
    };
    assert_eq!(thread_id, "thread");
    assert_eq!(started.status, TurnStatus::InProgress);
    assert_eq!(started.items_view, TurnItemsView::NotLoaded);
    assert_eq!(started.started_at, Some(5));
    assert!(started.items.is_empty());
    for (item, now_ms) in [(&user, 6_001), (&agent, 6_003)] {
        assert_eq!(
            turn.next_notification(now_ms),
            Some(ServerNotification::ItemStarted {
                item: item.clone(),
                thread_id: "thread".to_string(),
                turn_id: "turn".to_string(),
                started_at_ms: 5_999,
            })
        );
        assert_eq!(
            turn.next_notification(now_ms + 1),
            Some(ServerNotification::ItemCompleted {
                item: item.clone(),
                thread_id: "thread".to_string(),
                turn_id: "turn".to_string(),
                completed_at_ms: now_ms + 1,
            })
        );
    }
    let Some(ServerNotification::TurnCompleted { turn: completed, .. }) =
        turn.next_notification(7_100)
    else {
        panic!("the turn completes last");
    };
    assert_eq!(completed.status, TurnStatus::Completed);
    assert_eq!(completed.items_view, TurnItemsView::Summary);
    assert_eq!(completed.items, vec![agent]);
    assert_eq!(completed.completed_at, Some(7));
    assert_eq!(completed.duration_ms, Some(1_101));
    assert_eq!(turn.response(), Some(completed));
    assert_eq!(turn.next_notification(8_000), None);
}

#[test]
fn slash_turn_survives_a_clock_that_goes_back() {
    let mut turn = slash_turn(vec![], -1_500);
    for _ in 0..6 {
        turn.next_notification(-9_999);
    }
    let response = turn.response().unwrap();
    assert_eq!(response.started_at, Some(-1));
    assert_eq!(response.completed_at, Some(-9));
    assert_eq!(response.duration_ms, Some(0));
    assert_eq!(
        turn.user_item,
        ThreadItem::UserMessage {
            id: "user".to_string(),
            client_id: Some("client".to_string()),
            text: "/account".to_string(),
        }
    );
}

fn action(text: &str) -> Result<MobileAccountAction, String> {
    mobile_account_action(&pool(), MobileSlashCommand::Account, text)
}

#[test]
fn account_commands_are_understood() {
    for text in ["/account", "/account list", " / account  LIST 1 "] {
        assert_eq!(action(text), Ok(MobileAccountAction::List { page: 1 }));
    }
    assert_eq!(
        action("/account show \"Work\""),
        Ok(MobileAccountAction::Show {
            selector: "\"Work\"".to_string()
        })
    );
    assert_eq!(
        action("/account use Work"),
        Ok(MobileAccountAction::Use {
            profile_id: Some("secret-work-id".to_string())
        })
    );
    assert_eq!(
        action("/account auto"),
        Ok(MobileAccountAction::Use { profile_id: None })
    );
    assert_eq!(
        action("/account strategy"),
        Ok(MobileAccountAction::ShowStrategy)
    );
    assert_eq!(
        action("/account strategy earliest_reset"),
        Ok(MobileAccountAction::SetStrategy {
            strategy: AccountPoolRotationStrategy::EarliestReset
        })
    );
    assert!(matches!(
        action("/account help"),
        Ok(MobileAccountAction::Reply { text }) if text.starts_with("/account list [page]\n")
    ));
}

#[test]
fn wrong_account_commands_are_answered_with_their_usage() {
    for (text, expected) in [
        ("/account list 0", "Usage: /account list <page>"),
        ("/account list x", "Usage: /account list <page>"),
        (
            "/account list 2",
            "Page out of range. Use /account list 1 through 1.",
        ),
        (
            "/account show",
            "Specify an account: /account use <label>",
        ),
        (
            "/account use nobody",
            "Account not found. Use /account to see available names.",
        ),
        ("/account auto now", "Usage: /account auto"),
        (
            "/account strategy random",
            "Usage: /account strategy [fill-first|earliest-reset]",
        ),
        (
            "/account help me",
            "Unknown /account command. Use /account help.",
        ),
        (
            "/account frobnicate",
            "Unknown /account command. Use /account help.",
        ),
    ] {
        assert_eq!(action(text), Err(expected.to_string()), "{text}");
    }
    assert_eq!(
        mobile_account_action(&pool(), MobileSlashCommand::Status, "/status now"),
        Err("Usage: /status. For accounts, use /account.".to_string())
    );
    assert_eq!(
        mobile_account_action(&pool(), MobileSlashCommand::Status, "/status"),
        Ok(MobileAccountAction::List { page: 1 })
    );
}

#[test]
fn commands_without_a_pool_say_so() {
    let mut pool = pool();
    pool.enabled = false;
    assert_eq!(
        mobile_account_action(&pool, MobileSlashCommand::Account, "/account frobnicate"),
        Ok(MobileAccountAction::Reply {
            text: "Account pool is not configured. Add accounts on the host with `codex account add`."
                .to_string()
        })
    );
}

#[test]
fn selections_and_strategies_are_confirmed() {
    assert_eq!(
        selected_reply(&pool()),
        "Selected: Work\nApplies to subsequent requests; automatic failover remains enabled."
    );
    assert_eq!(
        selected_reply(&pool_of(vec![])),
        "Selected: Account\nApplies to subsequent requests; automatic failover remains enabled."
    );
    let fill_first = AccountPoolRotationStrategy::FillFirst;
    let earliest_reset = AccountPoolRotationStrategy::EarliestReset;
    assert_eq!(
        strategy_reply(None, fill_first),
        "Strategy: fill-first\nUsed at the next automatic selection. Select now: /account auto"
    );
    assert_eq!(
        strategy_reply(Some(earliest_reset), earliest_reset),
        "Strategy: earliest-reset\nUsed at the next automatic selection. Select now: /account auto"
    );
    assert_eq!(
        strategy_reply(Some(earliest_reset), fill_first),
        "Saved, but overridden by a higher-priority configuration. Use /account strategy to see the effective strategy."
    );
}

#[test]
fn synthetic_turns_never_replace_running_ones() {
    assert_eq!(
        admit_slash_turn(&SlashTurnThread::Open { turn_running: false }),
        Ok(())
    );
    assert_eq!(
        admit_slash_turn(&SlashTurnThread::Open { turn_running: true }),
        Err("A turn is running. Open the Status panel or wait for it to finish.".to_string())
    );
    assert_eq!(
        admit_slash_turn(&SlashTurnThread::NotFound {
            thread_id: "t".to_string()
        }),
        Err("thread not found: t".to_string())
    );
    assert_eq!(
        admit_slash_turn(&SlashTurnThread::InvalidId {
            reason: "too short".to_string()
        }),
        Err("invalid thread id: too short".to_string())
    );
    assert_eq!(
        admit_slash_turn(&SlashTurnThread::InputRefused {
            reason: "read only".to_string()
        }),
        Err("read only".to_string())
    );
}
