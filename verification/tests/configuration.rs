use account_pool::account_config::format_rotation_strategy;
use account_pool::account_config::open_document;
use account_pool::account_config::parse_rotation_strategy;
use account_pool::account_config::patch_account_pool_config;
use account_pool::account_config::read_account_pool_config;
use account_pool::account_config::replace_account_pool;
use account_pool::config::AccountPoolConfigToml;
use account_pool::config::AccountPoolRotationStrategy;
use account_pool::config::AutoResetCredits;
use account_pool::percent::Percent;

fn percent(value: f64) -> Percent {
    Percent::from_bits(value.to_bits())
}

#[test]
fn rotation_strategy_defaults_to_fill_first() {
    assert_eq!(
        AccountPoolConfigToml::default().effective_rotation_strategy(),
        AccountPoolRotationStrategy::FillFirst
    );
}

#[test]
fn preemptive_switch_defaults_to_95_percent() {
    assert_eq!(
        AccountPoolConfigToml::default().effective_preemptive_switch_percent(),
        Some(percent(95.0))
    );
}

#[test]
fn out_of_range_percent_disables_preemptive_switch() {
    for value in [0.0, -1.0, 100.0, 250.0] {
        let config = AccountPoolConfigToml {
            preemptive_switch_percent: Some(percent(value)),
            ..Default::default()
        };
        assert_eq!(config.effective_preemptive_switch_percent(), None);
    }
}

#[test]
fn thresholds_inside_the_range_are_kept() {
    for value in [f64::MIN_POSITIVE, 0.5, 42.0, 99.999] {
        let config = AccountPoolConfigToml {
            preemptive_switch_percent: Some(percent(value)),
            ..Default::default()
        };
        assert_eq!(
            config.effective_preemptive_switch_percent(),
            Some(percent(value))
        );
    }
    for value in [f64::NAN, f64::INFINITY, f64::NEG_INFINITY, -0.0] {
        let config = AccountPoolConfigToml {
            preemptive_switch_percent: Some(percent(value)),
            ..Default::default()
        };
        assert_eq!(config.effective_preemptive_switch_percent(), None);
    }
}

#[test]
fn other_knobs_have_their_defaults() {
    let config = AccountPoolConfigToml::default();
    assert!(config.effective_return_to_preferred());
    assert_eq!(config.effective_auto_reset_credits(), AutoResetCredits::Never);
    assert_eq!(config.effective_reset_credit_min_wait_minutes(), 60);
    let config = AccountPoolConfigToml {
        return_to_preferred: Some(false),
        rotation_strategy: Some(AccountPoolRotationStrategy::EarliestReset),
        auto_reset_credits: Some(AutoResetCredits::WhenPoolExhausted),
        auto_reset_credit_min_wait_minutes: Some(-5),
        ..AccountPoolConfigToml::default()
    };
    assert!(!config.effective_return_to_preferred());
    assert_eq!(
        config.effective_rotation_strategy(),
        AccountPoolRotationStrategy::EarliestReset
    );
    assert_eq!(
        config.effective_auto_reset_credits(),
        AutoResetCredits::WhenPoolExhausted
    );
    assert_eq!(config.effective_reset_credit_min_wait_minutes(), 0);
}

#[test]
fn rotation_strategies_are_read_back_from_their_names() {
    for strategy in [
        AccountPoolRotationStrategy::FillFirst,
        AccountPoolRotationStrategy::EarliestReset,
    ] {
        assert_eq!(
            parse_rotation_strategy(format_rotation_strategy(strategy)),
            Ok(strategy)
        );
    }
    assert_eq!(
        parse_rotation_strategy("fill-first"),
        Ok(AccountPoolRotationStrategy::FillFirst)
    );
    assert_eq!(
        parse_rotation_strategy("earliest-reset"),
        Ok(AccountPoolRotationStrategy::EarliestReset)
    );
    assert_eq!(
        parse_rotation_strategy("Fill\"first\n"),
        Err(
            "invalid rotation strategy \"Fill\\\"first\\n\"; expected fill_first or earliest_reset"
                .to_string()
        )
    );
}

const CONFIG: &str = "model = \"m\"\n\n[account_pool]\nreturn_to_preferred = false\n\n[tui]\ntheme = \"dark\"\n";

#[test]
fn patching_replaces_the_pool_section_and_keeps_the_rest() {
    let patched = patch_account_pool_config(
        "config.toml",
        Some(CONFIG),
        "rotation_strategy = \"earliest_reset\"\n",
    )
    .unwrap();
    let read: toml::Table = patched.parse().unwrap();
    assert_eq!(read["model"].as_str(), Some("m"));
    assert_eq!(read["tui"]["theme"].as_str(), Some("dark"));
    let section = read["account_pool"].as_table().unwrap();
    assert_eq!(section.len(), 1);
    assert_eq!(section["rotation_strategy"].as_str(), Some("earliest_reset"));
    assert_eq!(
        read_account_pool_config("config.toml", Some(&patched)).unwrap(),
        "rotation_strategy = \"earliest_reset\"\n"
    );
}

#[test]
fn a_missing_file_counts_as_empty() {
    assert_eq!(read_account_pool_config("config.toml", None).unwrap(), "");
    assert_eq!(
        patch_account_pool_config("config.toml", None, "return_to_preferred = true\n").unwrap(),
        "[account_pool]\nreturn_to_preferred = true\n"
    );
}

#[test]
fn the_section_is_read_as_a_document_of_its_own() {
    assert_eq!(
        read_account_pool_config("config.toml", Some(CONFIG)).unwrap(),
        "return_to_preferred = false\n"
    );
    assert_eq!(
        read_account_pool_config("config.toml", Some("account_pool = 3\n")).unwrap(),
        ""
    );
    assert_eq!(
        read_account_pool_config("config.toml", Some("model = 3\n")).unwrap(),
        ""
    );
}

#[test]
fn what_is_wrong_with_a_configuration_is_told() {
    let message = patch_account_pool_config("config.toml", Some("= 1"), "").unwrap_err();
    assert!(message.starts_with("failed to parse config.toml: "));
    assert!(message.len() > "failed to parse config.toml: ".len());
    assert_eq!(
        read_account_pool_config("config.toml", Some("= 1")).unwrap_err(),
        message
    );
    let message = patch_account_pool_config("config.toml", None, "= 1").unwrap_err();
    assert!(message.starts_with("failed to serialize [account_pool]: "));
    let mut document = open_document(Some(CONFIG)).unwrap();
    assert!(replace_account_pool(&mut document, "= 1").is_err());
    assert_eq!(document, CONFIG.parse::<toml::Table>().unwrap());
}
