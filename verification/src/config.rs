//! Scheduling knobs of the account pool.
use vstd::prelude::*;

use crate::percent::Percent;
use crate::percent::HUNDRED_BITS;
use crate::percent::NINETY_FIVE_BITS;

verus! {

/// Default usage percentage that triggers a preemptive account rotation: ninety-five.
pub const DEFAULT_PREEMPTIVE_SWITCH_PERCENT_BITS: u64 = NINETY_FIVE_BITS;

/// Default minimum distance to the next natural quota reset before a reset credit is worth
/// redeeming automatically.
pub const DEFAULT_RESET_CREDIT_MIN_WAIT_MINUTES: i64 = 60;

/// When the scheduler may redeem an earned rate-limit reset credit on the user's behalf. Credits are
/// a limited resource, so automation is opt-in.
#[derive(Clone, Copy, Debug, PartialEq, Eq, Structural)]
pub enum AutoResetCredits {
    /// Never redeem automatically (default).
    Never,
    /// Redeem one credit only when every configured account is exhausted and the earliest natural
    /// reset is further away than `auto_reset_credit_min_wait_minutes`.
    WhenPoolExhausted,
}

impl Default for AutoResetCredits {
    fn default() -> (mode: Self)
        ensures
            mode == AutoResetCredits::Never,
    {
        AutoResetCredits::Never
    }
}

/// How the scheduler picks the next eligible account.
#[derive(Clone, Copy, Debug, PartialEq, Eq, Structural)]
pub enum AccountPoolRotationStrategy {
    /// Prefer the lowest `priority` value among eligible profiles (default).
    FillFirst,
    /// Prefer the eligible profile whose observed rate-limit window resets soonest.
    EarliestReset,
}

impl Default for AccountPoolRotationStrategy {
    fn default() -> (strategy: Self)
        ensures
            strategy == AccountPoolRotationStrategy::FillFirst,
    {
        AccountPoolRotationStrategy::FillFirst
    }
}

/// Scheduling knobs for the multi-account execution pool, each optional.
#[derive(Clone, Copy, Debug, PartialEq, Eq, Structural)]
pub struct AccountPoolConfigToml {
    /// Rotate the active account once its observed usage for any rate-limit window reaches this
    /// percentage. Values outside the exclusive (0, 100) range disable preemptive switching.
    pub preemptive_switch_percent: Option<Percent>,
    /// Return to the most preferred account when its quota cooldown expires.
    pub return_to_preferred: Option<bool>,
    /// Automatic account selection strategy.
    pub rotation_strategy: Option<AccountPoolRotationStrategy>,
    /// When a reset credit may be redeemed automatically.
    pub auto_reset_credits: Option<AutoResetCredits>,
    /// Skip redemption when the earliest natural reset is within this many minutes.
    pub auto_reset_credit_min_wait_minutes: Option<i64>,
}

impl Default for AccountPoolConfigToml {
    fn default() -> (config: Self)
        ensures
            config == (AccountPoolConfigToml {
                preemptive_switch_percent: None,
                return_to_preferred: None,
                rotation_strategy: None,
                auto_reset_credits: None,
                auto_reset_credit_min_wait_minutes: None,
            }),
    {
        AccountPoolConfigToml {
            preemptive_switch_percent: None,
            return_to_preferred: None,
            rotation_strategy: None,
            auto_reset_credits: None,
            auto_reset_credit_min_wait_minutes: None,
        }
    }
}

impl AccountPoolConfigToml {
    /// The configured threshold, or the default of ninety-five.
    pub open spec fn configured_switch_percent(self) -> Percent {
        match self.preemptive_switch_percent {
            Some(percent) => percent,
            None => Percent { bits: DEFAULT_PREEMPTIVE_SWITCH_PERCENT_BITS },
        }
    }

    /// The threshold that is in effect; none where the feature is disabled.
    pub open spec fn switch_threshold(self) -> Option<Percent> {
        if self.configured_switch_percent().is_above(Percent::zero())
            && Percent::hundred().is_above(self.configured_switch_percent()) {
            Some(self.configured_switch_percent())
        } else {
            None
        }
    }

    /// Effective preemptive switch threshold; `None` means the feature is disabled.
    pub fn effective_preemptive_switch_percent(&self) -> (threshold: Option<Percent>)
        ensures
            threshold == self.switch_threshold(),
    {
        let percent = match self.preemptive_switch_percent {
            Some(percent) => percent,
            None => Percent { bits: DEFAULT_PREEMPTIVE_SWITCH_PERCENT_BITS },
        };
        let zero = Percent { bits: 0 };
        let hundred = Percent { bits: HUNDRED_BITS };
        if percent.gt(zero) && hundred.gt(percent) {
            Some(percent)
        } else {
            None
        }
    }

    /// Whether the most preferred account is returned to.
    pub open spec fn returns_to_preferred(self) -> bool {
        self.return_to_preferred != Some(false)
    }

    pub fn effective_return_to_preferred(&self) -> (preferred: bool)
        ensures
            preferred == self.returns_to_preferred(),
    {
        match self.return_to_preferred {
            Some(value) => value,
            None => true,
        }
    }

    pub open spec fn rotation_strategy_or_default(self) -> AccountPoolRotationStrategy {
        match self.rotation_strategy {
            Some(strategy) => strategy,
            None => AccountPoolRotationStrategy::FillFirst,
        }
    }

    pub fn effective_rotation_strategy(&self) -> (strategy: AccountPoolRotationStrategy)
        ensures
            strategy == self.rotation_strategy_or_default(),
    {
        match self.rotation_strategy {
            Some(strategy) => strategy,
            None => AccountPoolRotationStrategy::default(),
        }
    }

    pub open spec fn auto_reset_credits_or_default(self) -> AutoResetCredits {
        match self.auto_reset_credits {
            Some(mode) => mode,
            None => AutoResetCredits::Never,
        }
    }

    pub fn effective_auto_reset_credits(&self) -> (mode: AutoResetCredits)
        ensures
            mode == self.auto_reset_credits_or_default(),
    {
        match self.auto_reset_credits {
            Some(mode) => mode,
            None => AutoResetCredits::default(),
        }
    }

    /// Minutes that the earliest natural reset must be away; never negative.
    pub open spec fn min_wait_minutes(self) -> i64 {
        match self.auto_reset_credit_min_wait_minutes {
            Some(minutes) => if minutes < 0 {
                0
            } else {
                minutes
            },
            None => DEFAULT_RESET_CREDIT_MIN_WAIT_MINUTES,
        }
    }

    pub fn effective_reset_credit_min_wait_minutes(&self) -> (minutes: i64)
        ensures
            minutes == self.min_wait_minutes(),
            minutes >= 0,
    {
        match self.auto_reset_credit_min_wait_minutes {
            Some(minutes) => if minutes < 0 {
                0
            } else {
                minutes
            },
            None => DEFAULT_RESET_CREDIT_MIN_WAIT_MINUTES,
        }
    }
}

/// Usage never switches accounts at zero: every effective threshold lies strictly between 0 and 100,
/// and usage that has reached the threshold is above zero.
pub proof fn law_switch_threshold_is_a_proper_percentage(
    config: AccountPoolConfigToml,
    usage: Percent,
)
    requires
        config.configured_switch_percent().is_above(Percent::zero()),
        Percent::hundred().is_above(config.configured_switch_percent()),
        usage.is_at_least(config.configured_switch_percent()),
    ensures
        0 < config.configured_switch_percent().bits < HUNDRED_BITS,
        usage.is_above(Percent::zero()),
{
}

/// What is configured is used as it stands; a setting that is left out has its default: a switch at
/// ninety-five percent, accounts filled one after the other, no automatic redemption, an hour
/// of waiting. A negative wait counts as none.
pub proof fn law_configured_values_are_used(config: AccountPoolConfigToml)
    ensures
        config.preemptive_switch_percent is Some ==> config.configured_switch_percent()
            == config.preemptive_switch_percent->0,
        config.preemptive_switch_percent is None ==> config.configured_switch_percent().bits
            == 0x4057_C000_0000_0000,
        config.rotation_strategy is Some ==> config.rotation_strategy_or_default()
            == config.rotation_strategy->0,
        config.rotation_strategy is None ==> config.rotation_strategy_or_default() is FillFirst,
        config.auto_reset_credits is Some ==> config.auto_reset_credits_or_default()
            == config.auto_reset_credits->0,
        config.auto_reset_credits is None ==> config.auto_reset_credits_or_default() is Never,
        config.auto_reset_credit_min_wait_minutes matches Some(minutes) ==> if minutes >= 0 {
            config.min_wait_minutes() == minutes
        } else {
            config.min_wait_minutes() == 0
        },
        config.auto_reset_credit_min_wait_minutes is None ==> config.min_wait_minutes() == 60,
{
}

/// A threshold is in effect exactly where it lies strictly between 0 and 100, and then it is the
/// configured one: 0, 100, what lies outside and what is no number switch the feature off. The most
/// preferred account is returned to unless that is switched off.
pub proof fn law_thresholds_outside_the_scale_are_off(config: AccountPoolConfigToml)
    ensures
        config.preemptive_switch_percent matches Some(percent) ==> {
            &&& config.switch_threshold() is Some <==> 0 < percent.bits < 0x4059_0000_0000_0000
            &&& config.switch_threshold() is Some ==> config.switch_threshold() == Some(percent)
        },
        config.preemptive_switch_percent is None ==> (config.switch_threshold() matches Some(
            percent,
        ) && percent.bits == 0x4057_C000_0000_0000),
        config.return_to_preferred matches Some(wanted) ==> config.returns_to_preferred() == wanted,
        config.return_to_preferred is None ==> config.returns_to_preferred(),
{
}

} // verus!
