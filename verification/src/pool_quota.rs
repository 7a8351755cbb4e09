//! Refreshing the quota of accounts on request. Looking at an account never makes it the active one.
use vstd::prelude::*;

use crate::accounts::AccountRateLimitWindow;
use crate::accounts::AccountRateLimits;
use crate::protocol;
use crate::protocol::account_pool_rate_limits;
use crate::protocol::AccountPoolAccount;
use crate::protocol::AccountPoolAvailability;
use crate::protocol::AccountPoolRateLimitWindow;
use crate::protocol::AccountPoolRateLimits;
use crate::protocol::AccountPoolReadResponse;
use crate::seqs;

verus! {

/// Longest time that one account is waited for, in seconds.
pub const PROBE_TIMEOUT_SECONDS: u64 = 3;

/// Longest time that a whole refresh takes, in seconds.
pub const REFRESH_TIMEOUT_SECONDS: u64 = 8;

/// Accounts that are asked at the same time.
pub const CONCURRENT_PROBES: usize = 4;

/// Limits of one profile: as they were saved, or as a probe reported them.
#[derive(Clone, Debug, PartialEq, Eq)]
pub struct ProfileLimits {
    pub profile_id: String,
    pub rate_limits: AccountRateLimits,
}

/// An account with other limits.
pub open spec fn with_limits(
    account: AccountPoolAccount,
    limits: AccountPoolRateLimits,
) -> AccountPoolAccount {
    AccountPoolAccount { rate_limits: limits, ..account }
}

/// Whether `a` is a later time than `b`. No time comes before every time.
pub open spec fn is_later(a: Option<i64>, b: Option<i64>) -> bool {
    match (a, b) {
        (Some(a), Some(b)) => a > b,
        (Some(_), None) => true,
        (None, _) => false,
    }
}

fn later(a: Option<i64>, b: Option<i64>) -> (result: bool)
    ensures
        result == is_later(a, b),
{
    match (a, b) {
        (Some(a), Some(b)) => a > b,
        (Some(_), None) => true,
        (None, _) => false,
    }
}

/// The entries of a profile.
pub open spec fn is_of(profile_id: Seq<char>) -> spec_fn(ProfileLimits) -> bool {
    |entry: ProfileLimits| entry.profile_id@ == profile_id
}

/// The limits of an account after what was saved for it is taken into account: the saved ones where
/// they were observed later.
pub open spec fn merged_limits(
    account: AccountPoolAccount,
    saved: Seq<ProfileLimits>,
) -> AccountPoolRateLimits {
    match seqs::first_where(saved, is_of(account.profile_id@)) {
        Some(k) => {
            let cached = protocol::client_limits(saved[k].rate_limits);
            if is_later(cached.observed_at, account.rate_limits.observed_at) {
                cached
            } else {
                account.rate_limits
            }
        },
        None => account.rate_limits,
    }
}

/// Accounts after what was saved for them is taken into account.
pub open spec fn merged_accounts(
    accounts: Seq<AccountPoolAccount>,
    saved: Seq<ProfileLimits>,
) -> Seq<AccountPoolAccount> {
    accounts.map_values(
        |account: AccountPoolAccount| with_limits(account, merged_limits(account, saved)),
    )
}

fn limits_after_merge(account: &AccountPoolAccount, saved: &Vec<ProfileLimits>) -> (limits:
    AccountPoolRateLimits)
    ensures
        limits == merged_limits(*account, saved@),
{
    let ghost wanted = is_of(account.profile_id@);
    let mut k: usize = 0;
    while k < saved.len()
        invariant
            k <= saved@.len(),
            wanted == is_of(account.profile_id@),
            forall|j: int| 0 <= j < k ==> !wanted(#[trigger] saved@[j]),
        decreases saved@.len() - k,
    {
        if saved[k].profile_id == account.profile_id {
            proof {
                seqs::lemma_first_where_is(saved@, wanted, k as int);
            }
            let cached = account_pool_rate_limits(&saved[k].rate_limits);
            if later(cached.observed_at, account.rate_limits.observed_at) {
                return cached;
            }
            return account.rate_limits;
        }
        k = k + 1;
    }
    proof {
        seqs::lemma_first_where(saved@, wanted);
    }
    account.rate_limits
}

/// Takes the limits that were saved for the accounts where they were observed later.
pub fn merge_saved_limits(response: &mut AccountPoolReadResponse, saved: &Vec<ProfileLimits>)
    ensures
        final(response).accounts@ == merged_accounts(old(response).accounts@, saved@),
        *final(response) == (AccountPoolReadResponse {
            accounts: final(response).accounts,
            ..*old(response)
        }),
{
    let ghost before = response.accounts@;
    let mut i: usize = 0;
    while i < response.accounts.len()
        invariant
            i <= response.accounts@.len(),
            response.accounts@.len() == before.len(),
            before == old(response).accounts@,
            *response == (AccountPoolReadResponse { accounts: response.accounts, ..*old(response) }),
            forall|j: int|
                0 <= j < i ==> #[trigger] response.accounts@[j] == merged_accounts(
                    before,
                    saved@,
                )[j],
            forall|j: int| i <= j < before.len() ==> #[trigger] response.accounts@[j] == before[j],
        decreases response.accounts@.len() - i,
    {
        let limits = limits_after_merge(&response.accounts[i], saved);
        response.accounts[i].rate_limits = limits;
        i = i + 1;
    }
    assert(response.accounts@ =~= merged_accounts(before, saved@));
}

/// Whether an account of the pool with this id can be asked for its quota.
pub open spec fn can_probe(accounts: Seq<AccountPoolAccount>, profile_id: Seq<char>) -> bool {
    exists|i: int|
        0 <= i < accounts.len() && (#[trigger] accounts[i]).profile_id@ == profile_id && (
        accounts[i].availability is Available || accounts[i].availability is Exhausted)
}

fn probe_allowed(accounts: &Vec<AccountPoolAccount>, profile_id: &String) -> (allowed: bool)
    ensures
        allowed == can_probe(accounts@, profile_id@),
{
    let mut i: usize = 0;
    while i < accounts.len()
        invariant
            i <= accounts@.len(),
            forall|j: int|
                0 <= j < i ==> !((#[trigger] accounts@[j]).profile_id@ == profile_id@ && (
                accounts@[j].availability is Available || accounts@[j].availability is Exhausted)),
        decreases accounts@.len() - i,
    {
        let schedulable = match &accounts[i].availability {
            AccountPoolAvailability::Available => true,
            AccountPoolAvailability::Exhausted { .. } => true,
            AccountPoolAvailability::AuthenticationUnavailable { .. } => false,
            AccountPoolAvailability::Disabled => false,
        };
        if schedulable && accounts[i].profile_id == *profile_id {
            return true;
        }
        i = i + 1;
    }
    false
}

/// The profiles that are asked for their quota, in their order.
pub open spec fn probed(accounts: Seq<AccountPoolAccount>, records: Seq<String>) -> Seq<String> {
    records.filter(|id: String| can_probe(accounts, id@))
}

/// The profiles that are asked for their quota, in their order: those of accounts that are neither
/// disabled nor logged out.
pub fn profiles_to_probe(response: &AccountPoolReadResponse, records: &Vec<String>) -> (ids: Vec<
    String,
>)
    ensures
        ids@ == probed(response.accounts@, records@),
{
    let ghost wanted = |id: String| can_probe(response.accounts@, id@);
    let mut ids: Vec<String> = Vec::new();
    let mut i: usize = 0;
    assert(records@.take(0).filter(wanted) =~= Seq::empty()) by {
        reveal(Seq::filter);
    }
    while i < records.len()
        invariant
            i <= records@.len(),
            wanted == (|id: String| can_probe(response.accounts@, id@)),
            ids@ == records@.take(i as int).filter(wanted),
        decreases records@.len() - i,
    {
        proof {
            assert(records@.take(i as int + 1).drop_last() =~= records@.take(i as int));
            reveal(Seq::filter);
        }
        if probe_allowed(&response.accounts, &records[i]) {
            ids.push(records[i].clone());
        }
        i = i + 1;
    }
    assert(records@.take(records@.len() as int) =~= records@);
    ids
}

/// Whether a refresh begins by asking `ids` and making `after` of the response `before`.
pub open spec fn is_refresh_begun(
    before: AccountPoolReadResponse,
    after: AccountPoolReadResponse,
    records: Option<&Vec<String>>,
    saved: Option<&Vec<ProfileLimits>>,
    ids: Seq<String>,
) -> bool {
    &&& !before.enabled || records is None ==> ids.len() == 0 && after == before
    &&& before.enabled && records is Some ==> {
        &&& ids == probed(before.accounts@, records->0@)
        &&& after.accounts@ == (match saved {
            Some(saved) => merged_accounts(before.accounts@, saved@),
            None => before.accounts@,
        })
        &&& after == (AccountPoolReadResponse { accounts: after.accounts, ..before })
    }
}

/// Starts a refresh, and returns the profiles to ask. `records` are the profiles that the host
/// knows, and `saved` the limits that an earlier refresh saved; each is `None` where it cannot be
/// read. Without a pool, or without records, nothing happens.
pub fn begin_refresh(
    response: &mut AccountPoolReadResponse,
    records: Option<&Vec<String>>,
    saved: Option<&Vec<ProfileLimits>>,
) -> (ids: Vec<String>)
    ensures
        is_refresh_begun(*old(response), *final(response), records, saved, ids@),
{
    if !response.enabled {
        return Vec::new();
    }
    let records = match records {
        Some(records) => records,
        None => {
            return Vec::new();
        },
    };
    let ids = profiles_to_probe(response, records);
    match saved {
        Some(saved) => {
            merge_saved_limits(response, saved);
        },
        None => {},
    }
    ids
}

/// The accounts of a profile.
pub open spec fn has_profile(profile_id: Seq<char>) -> spec_fn(AccountPoolAccount) -> bool {
    |account: AccountPoolAccount| account.profile_id@ == profile_id
}

/// Accounts after one observation: the first account of the profile has the observed limits.
pub open spec fn observed(
    accounts: Seq<AccountPoolAccount>,
    observation: ProfileLimits,
) -> Seq<AccountPoolAccount> {
    match seqs::first_where(accounts, has_profile(observation.profile_id@)) {
        Some(i) => accounts.update(
            i,
            with_limits(accounts[i], protocol::client_limits(observation.rate_limits)),
        ),
        None => accounts,
    }
}

/// Accounts after a series of observations.
pub open spec fn after_observations(
    accounts: Seq<AccountPoolAccount>,
    observations: Seq<ProfileLimits>,
) -> Seq<AccountPoolAccount>
    decreases observations.len(),
{
    if observations.len() == 0 {
        accounts
    } else {
        observed(after_observations(accounts, observations.drop_last()), observations.last())
    }
}

fn apply_observation(accounts: &mut Vec<AccountPoolAccount>, observation: &ProfileLimits)
    ensures
        final(accounts)@ == observed(old(accounts)@, *observation),
{
    let ghost wanted = has_profile(observation.profile_id@);
    let mut i: usize = 0;
    while i < accounts.len()
        invariant
            i <= accounts@.len(),
            accounts@ == old(accounts)@,
            wanted == has_profile(observation.profile_id@),
            forall|j: int| 0 <= j < i ==> !wanted(#[trigger] accounts@[j]),
        decreases accounts@.len() - i,
    {
        if accounts[i].profile_id == observation.profile_id {
            proof {
                seqs::lemma_first_where_is(accounts@, wanted, i as int);
            }
            let limits = account_pool_rate_limits(&observation.rate_limits);
            accounts[i].rate_limits = limits;
            assert(accounts@ =~= observed(old(accounts)@, *observation));
            return;
        }
        i = i + 1;
    }
    proof {
        seqs::lemma_first_where(accounts@, wanted);
    }
}

/// Ends a refresh with what the probes reported.
pub fn apply_observations(
    response: &mut AccountPoolReadResponse,
    observations: &Vec<ProfileLimits>,
)
    ensures
        final(response).accounts@ == after_observations(old(response).accounts@, observations@),
        *final(response) == (AccountPoolReadResponse {
            accounts: final(response).accounts,
            ..*old(response)
        }),
{
    let mut k: usize = 0;
    assert(observations@.take(0) =~= Seq::empty());
    while k < observations.len()
        invariant
            k <= observations@.len(),
            *response == (AccountPoolReadResponse { accounts: response.accounts, ..*old(response) }),
            response.accounts@ == after_observations(
                old(response).accounts@,
                observations@.take(k as int),
            ),
        decreases observations@.len() - k,
    {
        assert(observations@.take(k as int + 1).drop_last() =~= observations@.take(k as int));
        apply_observation(&mut response.accounts, &observations[k]);
        k = k + 1;
    }
    assert(observations@.take(observations@.len() as int) =~= observations@);
}

/// Whether two lists hold the same accounts in the same order, with nothing changed but their limits.
pub open spec fn same_but_limits(
    a: Seq<AccountPoolAccount>,
    b: Seq<AccountPoolAccount>,
) -> bool {
    &&& a.len() == b.len()
    &&& forall|i: int|
        0 <= i < a.len() ==> #[trigger] with_limits(a[i], b[i].rate_limits) == b[i]
    &&& forall|i: int| 0 <= i < a.len() ==> agree_but_for_limits(#[trigger] a[i], b[i])
}

/// Whether two accounts agree in all but their limits.
pub open spec fn agree_but_for_limits(a: AccountPoolAccount, b: AccountPoolAccount) -> bool {
    &&& a.profile_id == b.profile_id
    &&& a.label == b.label
    &&& a.priority == b.priority
    &&& a.is_active == b.is_active
    &&& a.availability == b.availability
    &&& a.plan_type == b.plan_type
    &&& a.email == b.email
    &&& a.window_warmup == b.window_warmup
}

/// A refresh changes nothing but the limits of accounts: which account is active, its state, and
/// the order of the accounts stay as they are, whatever was saved and whatever probes report.
pub proof fn law_refresh_changes_limits_only(
    accounts: Seq<AccountPoolAccount>,
    saved: Seq<ProfileLimits>,
    observations: Seq<ProfileLimits>,
)
    ensures
        same_but_limits(
            accounts,
            after_observations(merged_accounts(accounts, saved), observations),
        ),
    decreases observations.len(),
{
    if observations.len() > 0 {
        let last = observations.last();
        let before = after_observations(
            merged_accounts(accounts, saved),
            observations.drop_last(),
        );
        law_refresh_changes_limits_only(accounts, saved, observations.drop_last());
        seqs::lemma_first_where(before, has_profile(last.profile_id@));
        let after = observed(before, last);
        assert forall|i: int| 0 <= i < accounts.len() implies #[trigger] with_limits(
            accounts[i],
            after[i].rate_limits,
        ) == after[i] by {
            assert(with_limits(accounts[i], before[i].rate_limits) == before[i]);
        }
    }
}

/// Saved limits never replace later ones: what an account shows is never older than before.
pub proof fn law_saved_limits_never_go_back(account: AccountPoolAccount, saved: Seq<ProfileLimits>)
    ensures
        !is_later(account.rate_limits.observed_at, merged_limits(account, saved).observed_at),
{
}

/// Whether a shown window is the reported one: there exactly where it was reported, with the reported
/// usage, and with the whole seconds of the reported reset where there is one.
pub open spec fn shows_window(
    shown: Option<AccountPoolRateLimitWindow>,
    reported: Option<AccountRateLimitWindow>,
) -> bool {
    &&& shown is Some <==> reported is Some
    &&& shown is Some ==> {
        &&& shown->0.used_percent == reported->0.used_percent
        &&& shown->0.resets_at is Some <==> reported->0.resets_at is Some
        &&& shown->0.resets_at is Some ==> shown->0.resets_at->0
            == reported->0.resets_at->0.spec_seconds()
    }
}

/// Whether shown limits are the reported ones, window by window.
pub open spec fn shows_limits(shown: AccountPoolRateLimits, reported: AccountRateLimits) -> bool {
    &&& shows_window(shown.primary, reported.primary)
    &&& shows_window(shown.secondary, reported.secondary)
    &&& shown.observed_at is Some <==> reported.observed_at is Some
    &&& shown.observed_at is Some ==> shown.observed_at->0
        == reported.observed_at->0.spec_seconds()
}

/// After a refresh an account shows what the last report on it said, both windows of it, and an account
/// that nothing was reported on shows what it showed before.
pub proof fn law_refreshed_account_shows_its_last_report(
    accounts: Seq<AccountPoolAccount>,
    observations: Seq<ProfileLimits>,
    i: int,
    last: Option<int>,
)
    requires
        0 <= i < accounts.len(),
        forall|j: int|
            0 <= j < i ==> (#[trigger] accounts[j]).profile_id@ != accounts[i].profile_id@,
        last matches Some(k) ==> 0 <= k < observations.len() && observations[k].profile_id@
            == accounts[i].profile_id@,
        forall|k: int|
            0 <= k < observations.len() && (last is Some ==> last->0 < k) ==> (
            #[trigger] observations[k]).profile_id@ != accounts[i].profile_id@,
    ensures
        after_observations(accounts, observations).len() == accounts.len(),
        match last {
            Some(k) => shows_limits(
                after_observations(accounts, observations)[i].rate_limits,
                observations[k].rate_limits,
            ),
            None => after_observations(accounts, observations)[i] == accounts[i],
        },
    decreases observations.len(),
{
    if observations.len() > 0 {
        let rest = observations.drop_last();
        let end = observations.len() - 1;
        let newest = observations.last();
        let before = after_observations(accounts, rest);
        law_refresh_changes_limits_only(accounts, Seq::empty(), rest);
        lemma_nothing_saved_changes_nothing(accounts);
        assert forall|j: int| 0 <= j < accounts.len() implies (#[trigger] before[j]).profile_id
            == accounts[j].profile_id by {
            assert(with_limits(accounts[j], before[j].rate_limits) == before[j]);
        }
        assert(newest == observations[end]);
        seqs::lemma_first_where(before, has_profile(newest.profile_id@));
        if last == Some(end) {
            seqs::lemma_first_where_is(before, has_profile(newest.profile_id@), i);
        } else {
            assert(newest.profile_id@ != accounts[i].profile_id@);
            law_refreshed_account_shows_its_last_report(accounts, rest, i, last);
        }
    }
}

proof fn lemma_nothing_saved_changes_nothing(accounts: Seq<AccountPoolAccount>)
    ensures
        merged_accounts(accounts, Seq::empty()) == accounts,
{
    assert forall|i: int| 0 <= i < accounts.len() implies merged_accounts(
        accounts,
        Seq::empty(),
    )[i] == accounts[i] by {
        seqs::lemma_first_where(Seq::<ProfileLimits>::empty(), is_of(accounts[i].profile_id@));
    }
    assert(merged_accounts(accounts, Seq::empty()) =~= accounts);
}

/// Saved limits are shown in full exactly where they were observed in a later second than what the
/// account shows; anything else leaves the account as it is.
pub proof fn law_saved_limits_are_shown_where_they_are_later(
    accounts: Seq<AccountPoolAccount>,
    saved: Seq<ProfileLimits>,
    i: int,
    k: int,
)
    requires
        0 <= i < accounts.len(),
        0 <= k < saved.len(),
        saved[k].profile_id@ == accounts[i].profile_id@,
        forall|j: int| 0 <= j < k ==> (#[trigger] saved[j]).profile_id@ != accounts[i].profile_id@,
    ensures
        ({
            let shown = merged_accounts(accounts, saved)[i];
            let observed_at = saved[k].rate_limits.observed_at;
            let known = accounts[i].rate_limits.observed_at;
            if observed_at is Some && (known is None || known->0 < observed_at->0.spec_seconds()) {
                shows_limits(shown.rate_limits, saved[k].rate_limits)
            } else {
                shown == accounts[i]
            }
        }),
{
    seqs::lemma_first_where_is(saved, is_of(accounts[i].profile_id@), k);
}

/// An account that nothing was saved for is left as it is.
pub proof fn law_unsaved_account_is_left_alone(
    accounts: Seq<AccountPoolAccount>,
    saved: Seq<ProfileLimits>,
    i: int,
)
    requires
        0 <= i < accounts.len(),
        forall|j: int|
            0 <= j < saved.len() ==> (#[trigger] saved[j]).profile_id@ != accounts[i].profile_id@,
    ensures
        merged_accounts(accounts, saved)[i] == accounts[i],
{
    seqs::lemma_first_where(saved, is_of(accounts[i].profile_id@));
}

/// A profile is asked for its quota, once for each time that it is on record and in that order, exactly
/// where an account of it is neither disabled nor logged out.
pub proof fn law_usable_profiles_are_probed(
    accounts: Seq<AccountPoolAccount>,
    records: Seq<String>,
)
    ensures
        seqs::selects_exactly(
            records,
            probed(accounts, records),
            |id: String|
                exists|i: int|
                    0 <= i < accounts.len() && (#[trigger] accounts[i]).profile_id@ == id@ && !(
                    accounts[i].availability is Disabled) && !(
                    accounts[i].availability is AuthenticationUnavailable),
        ),
{
    let allowed = |id: String| can_probe(accounts, id@);
    let usable = |id: String|
        exists|i: int|
            0 <= i < accounts.len() && (#[trigger] accounts[i]).profile_id@ == id@ && !(
            accounts[i].availability is Disabled) && !(
            accounts[i].availability is AuthenticationUnavailable);
    let from = seqs::lemma_filter_selects(records, allowed);
    assert forall|k: int| 0 <= k < records.len() implies (usable(#[trigger] records[k])
        <==> from.contains(k)) by {
        assert(allowed(records[k]) <==> from.contains(k));
        let id = records[k]@;
        if usable(records[k]) {
            let i = choose|i: int|
                0 <= i < accounts.len() && (#[trigger] accounts[i]).profile_id@ == id && !(
                accounts[i].availability is Disabled) && !(
                accounts[i].availability is AuthenticationUnavailable);
            assert(accounts[i].availability is Available || accounts[i].availability is Exhausted);
            assert(can_probe(accounts, id));
        }
        if can_probe(accounts, id) {
            let i = choose|i: int|
                0 <= i < accounts.len() && (#[trigger] accounts[i]).profile_id@ == id && (
                accounts[i].availability is Available || accounts[i].availability is Exhausted);
            assert(!(accounts[i].availability is Disabled));
        }
    }
    assert(seqs::is_selection(records, probed(accounts, records), from));
}

/// A refresh asks nobody and changes nothing without a pool or without records. Else it asks the
/// profiles that can be probed, and shows what was saved until they answer; nothing but limits
/// changes.
pub proof fn law_refresh_begins_with_what_was_saved(
    before: AccountPoolReadResponse,
    after: AccountPoolReadResponse,
    records: Option<&Vec<String>>,
    saved: Option<&Vec<ProfileLimits>>,
    ids: Seq<String>,
)
    requires
        is_refresh_begun(before, after, records, saved, ids),
    ensures
        after.enabled == before.enabled,
        after.active_profile_id == before.active_profile_id,
        !before.enabled || records is None ==> ids.len() == 0 && after == before,
        before.enabled && records is Some ==> ids == probed(before.accounts@, records->0@),
        saved is None ==> after.accounts@ == before.accounts@,
        before.enabled && records is Some && saved is Some ==> after.accounts@ == merged_accounts(
            before.accounts@,
            saved->0@,
        ),
{
}

} // verus!
