//! The account commands of the command line: what each decides, and what it says.
use vstd::prelude::*;

use crate::account_selector;
use crate::account_selector::find_id;
use crate::account_selector::select;
use crate::account_selector::AccountProfileRecord;
use crate::account_selector::AccountProfileState;
use crate::account_selector::ProfileSelectorError;
use crate::accounts::AccountProfile;
use crate::accounts::LEGACY_ROOT_PROFILE_ID;
use crate::order;
use crate::order::shown_order;
use crate::order::SortKey;
use crate::seqs;
use crate::text;
use crate::text::decimal;
use crate::text::same_text;
use crate::time;
use crate::time::UtcTime;

verus! {

/// Distance between the priorities of profiles that are added one after the other.
pub const DEFAULT_PRIORITY_STEP: u32 = 10;

/// Scheduling state of one profile.
#[derive(Clone, Debug, PartialEq, Eq)]
pub struct AccountRuntimeProfileState {
    pub profile_id: String,
    pub exhausted_until: Option<UtcTime>,
}

/// Scheduling state of all profiles.
#[derive(Clone, Debug, PartialEq, Eq)]
pub struct AccountRuntimeState {
    pub active_profile_id: Option<String>,
    pub profiles: Vec<AccountRuntimeProfileState>,
}

/// Whether an account may be added; why not otherwise.
pub fn admit_account_add(chatgpt_login_allowed: bool) -> (admitted: Result<(), String>)
    ensures
        match admitted {
            Ok(_) => chatgpt_login_allowed,
            Err(message) => !chatgpt_login_allowed && message@
                == "ChatGPT login is disabled by the current authentication policy."@,
        },
{
    if chatgpt_login_allowed {
        Ok(())
    } else {
        Err("ChatGPT login is disabled by the current authentication policy.".to_owned())
    }
}

/// The profile that a login from before account pooling gets; none where there is no ChatGPT login.
pub fn existing_root_profile(chatgpt_login: bool) -> (profile: Option<AccountProfile>)
    ensures
        match profile {
            Some(profile) => {
                &&& chatgpt_login
                &&& profile.id@ == LEGACY_ROOT_PROFILE_ID@
                &&& text::opt_text(profile.label) == Some("Existing login"@)
                &&& profile.priority == 0
            },
            None => !chatgpt_login,
        },
{
    if chatgpt_login {
        Some(
            AccountProfile {
                id: LEGACY_ROOT_PROFILE_ID.to_owned(),
                label: Some("Existing login".to_owned()),
                priority: 0,
            },
        )
    } else {
        None
    }
}

/// The highest priority value of any profile.
pub open spec fn highest_priority(records: Seq<AccountProfileRecord>) -> Option<u32>
    decreases records.len(),
{
    if records.len() == 0 {
        None
    } else {
        match highest_priority(records.drop_last()) {
            Some(highest) => Some(
                if highest < records.last().profile.priority {
                    records.last().profile.priority
                } else {
                    highest
                },
            ),
            None => Some(records.last().profile.priority),
        }
    }
}

/// The priority value of a profile that is added without one: a step after the highest so far, and 0
/// for the first.
pub open spec fn following_priority(records: Seq<AccountProfileRecord>) -> u32 {
    match highest_priority(records) {
        Some(highest) => if highest + DEFAULT_PRIORITY_STEP <= u32::MAX {
            (highest + DEFAULT_PRIORITY_STEP) as u32
        } else {
            u32::MAX
        },
        None => 0,
    }
}

/// The priority value of a profile that is added without one.
pub fn next_priority(records: &Vec<AccountProfileRecord>) -> (priority: u32)
    ensures
        priority == following_priority(records@),
{
    let mut highest: Option<u32> = None;
    let mut i: usize = 0;
    while i < records.len()
        invariant
            i <= records@.len(),
            highest == highest_priority(records@.take(i as int)),
        decreases records@.len() - i,
    {
        assert(records@.take(i as int + 1).drop_last() =~= records@.take(i as int));
        let priority: u32 = records[i].profile.priority;
        highest = match highest {
            Some(so_far) => if so_far < priority {
                Some(priority)
            } else {
                Some(so_far)
            },
            None => Some(priority),
        };
        i = i + 1;
    }
    assert(records@.take(records@.len() as int) =~= records@);
    match highest {
        Some(highest) => if highest <= u32::MAX - DEFAULT_PRIORITY_STEP {
            highest + DEFAULT_PRIORITY_STEP
        } else {
            u32::MAX
        },
        None => 0,
    }
}

proof fn lemma_highest_priority(records: Seq<AccountProfileRecord>, i: int)
    requires
        0 <= i < records.len(),
    ensures
        highest_priority(records) is Some,
        records[i].profile.priority <= highest_priority(records)->0,
    decreases records.len(),
{
    if i < records.len() - 1 {
        lemma_highest_priority(records.drop_last(), i);
    }
}

/// A profile that is added without a priority is tried after all others, as long as there are
/// priority values left.
pub proof fn law_added_profile_comes_last(records: Seq<AccountProfileRecord>, i: int)
    requires
        0 <= i < records.len(),
    ensures
        records[i].profile.priority <= following_priority(records),
        following_priority(records) < u32::MAX ==> records[i].profile.priority < following_priority(
            records,
        ),
{
    lemma_highest_priority(records, i);
}

/// The priority value of a profile that is added: the one asked for, or the next.
pub fn added_priority(requested: Option<u32>, records: &Vec<AccountProfileRecord>) -> (priority: u32)
    ensures
        priority == (match requested {
            Some(requested) => requested,
            None => following_priority(records@),
        }),
{
    match requested {
        Some(requested) => requested,
        None => next_priority(records),
    }
}

/// What is said while a device login waits for its user.
pub fn device_login_message(url: Option<&str>, code: Option<&str>) -> (message: Option<String>)
    ensures
        match message {
            Some(message) => url is Some && code is Some && message@
                == "Open this URL and enter the code:\n\n"@ + url->0@ + "\n\nCode: "@ + code->0@
                + "\n"@,
            None => url is None || code is None,
        },
{
    match (url, code) {
        (Some(url), Some(code)) => {
            let mut message = "Open this URL and enter the code:\n\n".to_owned();
            message.append(url);
            message.append("\n\nCode: ");
            message.append(code);
            message.append("\n");
            Some(message)
        },
        _ => None,
    }
}

/// What is said when a login starts.
pub open spec fn adding_text(profile_id: Seq<char>) -> Seq<char> {
    "Adding Codex account profile "@ + profile_id + "."@
}

pub fn adding_message(profile_id: &str) -> (message: String)
    ensures
        message@ == adding_text(profile_id@),
{
    let mut message = "Adding Codex account profile ".to_owned();
    message.append(profile_id);
    message.append(".");
    message
}

/// What is said while a browser login waits for its user.
pub fn browser_login_message(profile_id: &str, port: Option<u16>, url: Option<&str>) -> (message:
    Option<String>)
    ensures
        match message {
            Some(message) => port is Some && url is Some && message@ == adding_text(profile_id@)
                + "\nStarting local login server on http://localhost:"@ + text::spec_decimal(
                port->0 as nat,
            ) + ".\nIf your browser did not open, navigate to:\n\n"@ + url->0@ + "\n"@,
            None => port is None || url is None,
        },
{
    match (port, url) {
        (Some(port), Some(url)) => {
            let mut message = adding_message(profile_id);
            message.append("\nStarting local login server on http://localhost:");
            message.append(decimal(port as u64).as_str());
            message.append(".\nIf your browser did not open, navigate to:\n\n");
            message.append(url);
            message.append("\n");
            Some(message)
        },
        _ => None,
    }
}

/// What is said of an account that was added.
pub open spec fn added_text(profile: AccountProfile) -> Seq<char> {
    "Added Codex account "@ + profile.id@ + (match profile.label {
        Some(label) => " ("@ + label@ + ")"@,
        None => Seq::empty(),
    }) + " with priority "@ + text::spec_decimal(profile.priority as nat) + "."@
}

pub fn added_message(profile: &AccountProfile) -> (message: String)
    ensures
        message@ == added_text(*profile),
{
    let mut message = "Added Codex account ".to_owned();
    message.append(profile.id.as_str());
    match &profile.label {
        Some(label) => {
            let mut shown = " (".to_owned();
            shown.append(label.as_str());
            shown.append(")");
            message.append(shown.as_str());
        },
        None => {
            assert(message@ + Seq::<char>::empty() =~= message@);
        },
    }
    message.append(" with priority ");
    message.append(decimal(profile.priority as u64).as_str());
    message.append(".");
    message
}

/// An instant in full.
pub open spec fn instant_shown(instant: UtcTime) -> Seq<char> {
    time::instant_text(instant.spec_seconds(), instant.spec_nanos())
}

/// The end of a cooldown that is not over; a dash otherwise.
pub open spec fn cooldown_text(
    state: Option<AccountRuntimeProfileState>,
    now: UtcTime,
) -> Seq<char> {
    if state is Some && state->0.exhausted_until is Some && now.value()
        < state->0.exhausted_until->0.value() {
        instant_shown(state->0.exhausted_until->0)
    } else {
        "-"@
    }
}

/// The end of a cooldown that is not over; a dash otherwise.
pub fn format_cooldown(state: Option<&AccountRuntimeProfileState>, now: UtcTime) -> (shown: String)
    ensures
        shown@ == cooldown_text(
            match state {
                Some(state) => Some(*state),
                None => None,
            },
            now,
        ),
{
    match state {
        Some(state) => match state.exhausted_until {
            Some(reset) => if now.is_before(reset) {
                reset.full_text()
            } else {
                "-".to_owned()
            },
            None => "-".to_owned(),
        },
        None => "-".to_owned(),
    }
}

/// The scheduling state of a profile: the last one that is stored for it.
pub open spec fn last_state(
    profiles: Seq<AccountRuntimeProfileState>,
    id: Seq<char>,
) -> Option<AccountRuntimeProfileState>
    decreases profiles.len(),
{
    if profiles.len() == 0 {
        None
    } else if profiles.last().profile_id@ == id {
        Some(profiles.last())
    } else {
        last_state(profiles.drop_last(), id)
    }
}

fn find_last_state<'a>(profiles: &'a Vec<AccountRuntimeProfileState>, id: &String) -> (found: Option<
    &'a AccountRuntimeProfileState,
>)
    ensures
        last_state(profiles@, id@) == (match found {
            Some(state) => Some(*state),
            None => None,
        }),
{
    let mut n: usize = profiles.len();
    assert(profiles@.take(n as int) =~= profiles@);
    while n > 0
        invariant
            n <= profiles@.len(),
            last_state(profiles@, id@) == last_state(profiles@.take(n as int), id@),
        decreases n,
    {
        assert(profiles@.take(n as int).drop_last() =~= profiles@.take(n as int - 1));
        if profiles[n - 1].profile_id == *id {
            return Some(&profiles[n - 1]);
        }
        n = n - 1;
    }
    None
}

/// Plan and email of an account, where its credentials tell.
#[derive(Clone, Debug, PartialEq, Eq)]
pub struct ProfileIdentity {
    pub plan: Option<String>,
    pub email: Option<String>,
}

/// The first line of the list.
pub open spec fn header_text(show_profile: bool) -> Seq<char> {
    if show_profile {
        "ACTIVE\tPRIORITY\tPROFILE\tSTATE\tPLAN\tEMAIL\tCOOLDOWN\tLABEL"@
    } else {
        "ACTIVE\tPRIORITY\tSTATE\tPLAN\tEMAIL\tCOOLDOWN\tLABEL"@
    }
}

/// The line of one profile in the list.
pub open spec fn row_text(
    record: AccountProfileRecord,
    runtime: AccountRuntimeState,
    identity: ProfileIdentity,
    show_profile: bool,
    now: UtcTime,
) -> Seq<char> {
    (if text::opt_text(runtime.active_profile_id) == Some(record.profile.id@) {
        "*"@
    } else {
        ""@
    }) + "\t"@ + text::spec_decimal(record.profile.priority as nat) + "\t"@ + (if show_profile {
        record.profile.id@ + "\t"@
    } else {
        Seq::empty()
    }) + (match record.state {
        AccountProfileState::PendingLogin => "pending_login"@,
        AccountProfileState::Ready => "ready"@,
    }) + "\t"@ + text::text_or(identity.plan, "-"@) + "\t"@ + text::text_or(identity.email, "-"@)
        + "\t"@ + cooldown_text(last_state(runtime.profiles@, record.profile.id@), now) + "\t"@
        + text::text_or(record.profile.label, "-"@)
}

fn append_or_dash(line: &mut String, value: &Option<String>)
    ensures
        final(line)@ == old(line)@ + text::text_or(*value, "-"@),
{
    match value {
        Some(value) => {
            line.append(value.as_str());
        },
        None => {
            line.append("-");
        },
    }
}

fn row(
    record: &AccountProfileRecord,
    runtime: &AccountRuntimeState,
    identity: &ProfileIdentity,
    show_profile: bool,
    now: UtcTime,
) -> (line: String)
    ensures
        line@ == row_text(*record, *runtime, *identity, show_profile, now),
{
    let active = match &runtime.active_profile_id {
        Some(id) => *id == record.profile.id,
        None => false,
    };
    let mut line = if active {
        "*".to_owned()
    } else {
        "".to_owned()
    };
    line.append("\t");
    line.append(decimal(record.profile.priority as u64).as_str());
    line.append("\t");
    if show_profile {
        let mut id = record.profile.id.clone();
        id.append("\t");
        line.append(id.as_str());
    } else {
        assert(line@ + Seq::<char>::empty() =~= line@);
    }
    match record.state {
        AccountProfileState::PendingLogin => {
            line.append("pending_login");
        },
        AccountProfileState::Ready => {
            line.append("ready");
        },
    }
    line.append("\t");
    append_or_dash(&mut line, &identity.plan);
    line.append("\t");
    append_or_dash(&mut line, &identity.email);
    line.append("\t");
    line.append(
        format_cooldown(find_last_state(&runtime.profiles, &record.profile.id), now).as_str(),
    );
    line.append("\t");
    append_or_dash(&mut line, &record.profile.label);
    line
}

/// What profiles are placed by in the list: priority, then id.
pub open spec fn list_keys(records: Seq<AccountProfileRecord>) -> Seq<SortKey> {
    Seq::new(
        records.len(),
        |i: int|
            SortKey {
                second_rank: false,
                priority: records[i].profile.priority,
                id: records[i].profile.id,
            },
    )
}

/// Whether the lines are those of the list, with the profiles in a given order.
pub open spec fn is_list(
    lines: Seq<String>,
    records: Seq<AccountProfileRecord>,
    runtime: AccountRuntimeState,
    identities: Seq<ProfileIdentity>,
    order: Seq<usize>,
    show_profile: bool,
    now: UtcTime,
) -> bool {
    &&& lines.len() == records.len() + 1
    &&& lines[0]@ == header_text(show_profile)
    &&& forall|k: int|
        1 <= k < lines.len() ==> (#[trigger] lines[k])@ == row_text(
            records[order[k - 1] as int],
            runtime,
            identities[order[k - 1] as int],
            show_profile,
            now,
        )
}

/// The lines of the list of profiles, by priority and id; none where there are no profiles. Ids are
/// left out unless they are asked for. `identities` are those of the profiles, in their order.
pub fn account_list(
    records: &Vec<AccountProfileRecord>,
    runtime: &AccountRuntimeState,
    identities: &Vec<ProfileIdentity>,
    show_profile: bool,
    now: UtcTime,
) -> (lines: Option<Vec<String>>)
    requires
        identities@.len() == records@.len(),
    ensures
        match lines {
            Some(lines) => records@.len() > 0 && exists|order: Seq<usize>| #[trigger]
                order::is_shown_order(list_keys(records@), order) && is_list(
                    lines@,
                    records@,
                    *runtime,
                    identities@,
                    order,
                    show_profile,
                    now,
                ),
            None => records@.len() == 0,
        },
{
    if records.len() == 0 {
        return None;
    }
    let mut keys: Vec<SortKey> = Vec::new();
    let mut i: usize = 0;
    while i < records.len()
        invariant
            i <= records@.len(),
            keys@ =~= list_keys(records@).take(i as int),
        decreases records@.len() - i,
    {
        keys.push(
            SortKey {
                second_rank: false,
                priority: records[i].profile.priority,
                id: records[i].profile.id.clone(),
            },
        );
        i = i + 1;
    }
    assert(keys@ =~= list_keys(records@));
    let order = shown_order(&keys);
    let mut lines: Vec<String> = Vec::new();
    if show_profile {
        lines.push("ACTIVE\tPRIORITY\tPROFILE\tSTATE\tPLAN\tEMAIL\tCOOLDOWN\tLABEL".to_owned());
    } else {
        lines.push("ACTIVE\tPRIORITY\tSTATE\tPLAN\tEMAIL\tCOOLDOWN\tLABEL".to_owned());
    }
    let mut k: usize = 0;
    while k < order.len()
        invariant
            k <= order@.len(),
            order@.len() == records@.len(),
            identities@.len() == records@.len(),
            forall|a: int| 0 <= a < order@.len() ==> (#[trigger] order@[a]) < records@.len(),
            lines@.len() == k + 1,
            lines@[0]@ == header_text(show_profile),
            forall|a: int|
                1 <= a < lines@.len() ==> (#[trigger] lines@[a])@ == row_text(
                    records@[order@[a - 1] as int],
                    *runtime,
                    identities@[order@[a - 1] as int],
                    show_profile,
                    now,
                ),
        decreases order@.len() - k,
    {
        let index: usize = order[k];
        lines.push(row(&records[index], runtime, &identities[index], show_profile, now));
        k = k + 1;
    }
    assert(is_list(lines@, records@, *runtime, identities@, order@, show_profile, now));
    Some(lines)
}

/// What is said where there are no profiles.
pub fn no_profiles_message() -> (message: String)
    ensures
        message@ == "No Codex account profiles are configured."@,
{
    "No Codex account profiles are configured.".to_owned()
}

/// Why a profile cannot be selected.
#[derive(Clone, Copy, Debug, PartialEq, Eq, Structural)]
pub enum UseError {
    Selector { error: ProfileSelectorError },
    PendingLogin,
    Disabled,
    CoolingDown { until: UtcTime },
}

/// The states of a profile.
pub open spec fn is_state_of(id: Seq<char>) -> spec_fn(AccountRuntimeProfileState) -> bool {
    |state: AccountRuntimeProfileState| state.profile_id@ == id
}

/// The cooldown of a profile that keeps it from being selected.
pub open spec fn cooldown_of(
    profiles: Seq<AccountRuntimeProfileState>,
    id: Seq<char>,
    now: UtcTime,
) -> Option<UtcTime> {
    match seqs::first_where(profiles, is_state_of(id)) {
        Some(k) => if profiles[k].exhausted_until is Some && now.value()
            < profiles[k].exhausted_until->0.value() {
            profiles[k].exhausted_until
        } else {
            None
        },
        None => None,
    }
}

/// The profile that is selected, or why none is. Force overrides a cooldown and nothing else.
pub open spec fn use_decision(
    records: Seq<AccountProfileRecord>,
    profiles: Seq<AccountRuntimeProfileState>,
    selector: Seq<char>,
    force: bool,
    now: UtcTime,
) -> Result<int, UseError> {
    match account_selector::selected(records, selector) {
        Err(error) => Err(UseError::Selector { error }),
        Ok(i) => {
            let cooldown = cooldown_of(profiles, records[i].profile.id@, now);
            if records[i].state == AccountProfileState::PendingLogin {
                Err(UseError::PendingLogin)
            } else if records[i].disabled {
                Err(UseError::Disabled)
            } else if cooldown is Some && !force {
                Err(UseError::CoolingDown { until: cooldown->0 })
            } else {
                Ok(i)
            }
        },
    }
}

/// States after a profile was selected: force ends its cooldown.
pub open spec fn states_after_use(
    profiles: Seq<AccountRuntimeProfileState>,
    id: Seq<char>,
    force: bool,
) -> Seq<AccountRuntimeProfileState> {
    match seqs::first_where(profiles, is_state_of(id)) {
        Some(k) => if force {
            profiles.update(
                k,
                AccountRuntimeProfileState { exhausted_until: None, ..profiles[k] },
            )
        } else {
            profiles
        },
        None => profiles,
    }
}

/// What is said of a profile that cannot be selected; `id` is its id.
pub open spec fn use_error_text(error: UseError, selector: Seq<char>, id: Seq<char>) -> Seq<char> {
    match error {
        UseError::Selector { error } => error.text(selector),
        UseError::PendingLogin => "Account profile "@ + id + " has not completed login."@,
        UseError::Disabled => "Account profile "@ + id + " is disabled."@,
        UseError::CoolingDown { until } => "Account profile "@ + id + " is cooling down until "@
            + instant_shown(until) + ". Use --force to probe it now."@,
    }
}

/// The id that an error speaks of.
pub open spec fn error_id(records: Seq<AccountProfileRecord>, selector: Seq<char>) -> Seq<char> {
    match account_selector::selected(records, selector) {
        Ok(i) => records[i].profile.id@,
        Err(_) => Seq::empty(),
    }
}

fn refusal(id: &str, reason: &str) -> (message: String)
    ensures
        message@ == "Account profile "@ + id@ + reason@,
{
    let mut message = "Account profile ".to_owned();
    message.append(id);
    message.append(reason);
    message
}

fn find_first_state(profiles: &Vec<AccountRuntimeProfileState>, id: &String) -> (found: Option<
    usize,
>)
    ensures
        match found {
            Some(k) => k < profiles@.len() && seqs::first_where(profiles@, is_state_of(id@))
                == Some(k as int),
            None => seqs::first_where(profiles@, is_state_of(id@)) is None,
        },
{
    let ghost wanted = is_state_of(id@);
    let mut k: usize = 0;
    while k < profiles.len()
        invariant
            k <= profiles@.len(),
            wanted == is_state_of(id@),
            forall|j: int| 0 <= j < k ==> !wanted(#[trigger] profiles@[j]),
        decreases profiles@.len() - k,
    {
        if profiles[k].profile_id == *id {
            proof {
                seqs::lemma_first_where_is(profiles@, wanted, k as int);
            }
            return Some(k);
        }
        k = k + 1;
    }
    proof {
        seqs::lemma_first_where(profiles@, wanted);
    }
    None
}

/// Whether a selection came to `outcome`, and left `after` of the state `before`.
pub open spec fn is_use_of(
    records: Seq<AccountProfileRecord>,
    before: AccountRuntimeState,
    after: AccountRuntimeState,
    selector: Seq<char>,
    force: bool,
    now: UtcTime,
    outcome: Result<String, String>,
) -> bool {
    match use_decision(records, before.profiles@, selector, force, now) {
        Ok(i) => {
            &&& 0 <= i < records.len()
            &&& outcome matches Ok(id) && id@ == records[i].profile.id@
            &&& text::opt_text(after.active_profile_id) == Some(records[i].profile.id@)
            &&& after.profiles@ == states_after_use(
                before.profiles@,
                records[i].profile.id@,
                force,
            )
        },
        Err(error) => {
            &&& outcome matches Err(message) && message@ == use_error_text(
                error,
                selector,
                error_id(records, selector),
            )
            &&& after == before
        },
    }
}

/// Selects the profile that a selector names, and returns its id; where it cannot be selected, says
/// why, and leaves the state as it is.
pub fn account_use(
    records: &Vec<AccountProfileRecord>,
    runtime: &mut AccountRuntimeState,
    selector: &str,
    force: bool,
    now: UtcTime,
) -> (outcome: Result<String, String>)
    ensures
        is_use_of(
            records@,
            *old(runtime),
            *final(runtime),
            selector@,
            force,
            now,
            outcome,
        ),
{
    let index: usize = match select(records, selector) {
        Ok(index) => index,
        Err(error) => {
            return Err(error.message(selector));
        },
    };
    let record = &records[index];
    let id = record.profile.id.as_str();
    match record.state {
        AccountProfileState::PendingLogin => {
            return Err(refusal(id, " has not completed login."));
        },
        AccountProfileState::Ready => {},
    }
    if record.disabled {
        return Err(refusal(id, " is disabled."));
    }
    match find_first_state(&runtime.profiles, &record.profile.id) {
        Some(k) => {
            match runtime.profiles[k].exhausted_until {
                Some(until) => {
                    if now.is_before(until) && !force {
                        let mut message = "Account profile ".to_owned();
                        message.append(id);
                        message.append(" is cooling down until ");
                        message.append(until.full_text().as_str());
                        message.append(". Use --force to probe it now.");
                        return Err(message);
                    }
                },
                None => {},
            }
            if force {
                runtime.profiles[k].exhausted_until = None;
                assert(runtime.profiles@ =~= states_after_use(
                    old(runtime).profiles@,
                    record.profile.id@,
                    force,
                ));
            }
        },
        None => {},
    }
    runtime.active_profile_id = Some(record.profile.id.clone());
    Ok(record.profile.id.clone())
}

/// What is said of a profile that was selected.
pub fn selected_message(profile_id: &str) -> (message: String)
    ensures
        message@ == "Selected Codex account profile "@ + profile_id@ + "."@,
{
    let mut message = "Selected Codex account profile ".to_owned();
    message.append(profile_id);
    message.append(".");
    message
}

/// Only a profile that has logged in and is not disabled is ever selected, forced or not; without
/// force none whose cooldown is not over.
pub proof fn law_only_usable_profiles_are_selected(
    records: Seq<AccountProfileRecord>,
    profiles: Seq<AccountRuntimeProfileState>,
    selector: Seq<char>,
    force: bool,
    now: UtcTime,
)
    ensures
        use_decision(records, profiles, selector, force, now) matches Ok(i) ==> {
            &&& records[i].state == AccountProfileState::Ready
            &&& !records[i].disabled
            &&& force || cooldown_of(profiles, records[i].profile.id@, now) is None
        },
{
}

/// Force only ever adds to what can be selected: what is selected without it is selected with it.
pub proof fn law_force_overrides_cooldowns_only(
    records: Seq<AccountProfileRecord>,
    profiles: Seq<AccountRuntimeProfileState>,
    selector: Seq<char>,
    now: UtcTime,
)
    ensures
        match use_decision(records, profiles, selector, false, now) {
            Ok(i) => use_decision(records, profiles, selector, true, now) == Ok::<int, UseError>(i),
            Err(UseError::CoolingDown { .. }) => use_decision(
                records,
                profiles,
                selector,
                true,
                now,
            ) is Ok,
            Err(error) => use_decision(records, profiles, selector, true, now) == Err::<
                int,
                UseError,
            >(error),
        },
{
}

/// A record after some of its settings were changed.
pub open spec fn settings_changed(
    record: AccountProfileRecord,
    priority: Option<u32>,
    label: Option<String>,
) -> AccountProfileRecord {
    AccountProfileRecord {
        profile: AccountProfile {
            id: record.profile.id,
            label: if label is Some {
                label
            } else {
                record.profile.label
            },
            priority: match priority {
                Some(priority) => priority,
                None => record.profile.priority,
            },
        },
        ..record
    }
}

/// Whether a change of settings came to `outcome`, and made `after` of the profiles `before`.
pub open spec fn is_set_of(
    before: Seq<AccountProfileRecord>,
    after: Seq<AccountProfileRecord>,
    selector: Seq<char>,
    priority: Option<u32>,
    label: Option<String>,
    outcome: Result<String, String>,
) -> bool {
    match account_selector::selected(before, selector) {
        Ok(i) => {
            &&& 0 <= i < before.len()
            &&& outcome matches Ok(id) && id@ == before[i].profile.id@
            &&& after == before.update(i, settings_changed(before[i], priority, label))
        },
        Err(error) => {
            &&& outcome matches Err(message) && message@ == error.text(selector)
            &&& after == before
        },
    }
}

/// Changes settings of the profile that a selector names, and returns its id; where it names none,
/// says why, and changes nothing.
pub fn account_set(
    records: &mut Vec<AccountProfileRecord>,
    selector: &str,
    priority: Option<u32>,
    label: Option<String>,
) -> (outcome: Result<String, String>)
    ensures
        is_set_of(old(records)@, final(records)@, selector@, priority, label, outcome),
{
    let index: usize = match select(records, selector) {
        Ok(index) => index,
        Err(error) => {
            return Err(error.message(selector));
        },
    };
    match priority {
        Some(priority) => {
            records[index].profile.priority = priority;
        },
        None => {},
    }
    if label.is_some() {
        records[index].profile.label = label;
    }
    assert(records@ =~= old(records)@.update(
        index as int,
        settings_changed(old(records)@[index as int], priority, label),
    ));
    Ok(records[index].profile.id.clone())
}

/// What is to be done next when a profile is removed.
#[derive(Clone, Copy, Debug, PartialEq, Eq, Structural)]
pub enum RemovalStep {
    /// Log out, and revoke the credentials.
    RevokeCredentials,
    /// Remove the profile from the stored profiles.
    RemoveMetadata,
    /// Remove the scheduling state of the profile.
    RemoveRuntimeState,
    /// Delete the credential directory.
    PurgeCredentials,
    Finished,
}

/// The removal of one profile, in progress.
#[derive(Clone, Debug, PartialEq, Eq)]
pub struct AccountRemoval {
    pub profile_id: String,
    /// Position of the profile in the stored profiles.
    pub index: usize,
    pub keep_credentials: bool,
    pub step: RemovalStep,
}

/// What is said of an unknown profile.
pub open spec fn unknown_text(profile_id: Seq<char>) -> Seq<char> {
    "Unknown Codex account profile: "@ + profile_id
}

fn unknown_message(profile_id: &str) -> (message: String)
    ensures
        message@ == unknown_text(profile_id@),
{
    let mut message = "Unknown Codex account profile: ".to_owned();
    message.append(profile_id);
    message
}

fn failure(what: &str, error: &str) -> (message: String)
    ensures
        message@ == what@ + error@,
{
    let mut message = what.to_owned();
    message.append(error);
    message
}

impl AccountRemoval {
    /// Whether the credentials go with the profile. Those of the login from before account pooling
    /// never do.
    pub open spec fn drops_credentials(self) -> bool {
        !self.keep_credentials && self.profile_id@ != LEGACY_ROOT_PROFILE_ID@
    }

    /// Credentials are only touched where they go with the profile.
    pub open spec fn wf(self) -> bool {
        self.step == RemovalStep::RevokeCredentials || self.step == RemovalStep::PurgeCredentials
            ==> self.drops_credentials()
    }

    /// The step that follows a successful one.
    pub open spec fn following_step(self) -> RemovalStep {
        match self.step {
            RemovalStep::RevokeCredentials => RemovalStep::RemoveMetadata,
            RemovalStep::RemoveMetadata => RemovalStep::RemoveRuntimeState,
            RemovalStep::RemoveRuntimeState => if self.drops_credentials() {
                RemovalStep::PurgeCredentials
            } else {
                RemovalStep::Finished
            },
            RemovalStep::PurgeCredentials => RemovalStep::Finished,
            RemovalStep::Finished => RemovalStep::Finished,
        }
    }

    fn dropping(&self) -> (drops: bool)
        ensures
            drops == self.drops_credentials(),
    {
        !self.keep_credentials && !same_text(self.profile_id.as_str(), LEGACY_ROOT_PROFILE_ID)
    }

    /// Whether the removal of a profile begins with `begun`.
    pub open spec fn is_begun(
        records: Seq<AccountProfileRecord>,
        profile_id: Seq<char>,
        keep_credentials: bool,
        begun: Result<AccountRemoval, String>,
    ) -> bool {
        match begun {
            Ok(removal) => {
                &&& removal.wf()
                &&& seqs::first_where(records, account_selector::has_id(profile_id)) == Some(
                    removal.index as int,
                )
                &&& removal.profile_id@ == profile_id
                &&& removal.keep_credentials == keep_credentials
                &&& removal.step == (if removal.drops_credentials() {
                    RemovalStep::RevokeCredentials
                } else {
                    RemovalStep::RemoveMetadata
                })
            },
            Err(message) => {
                &&& seqs::first_where(records, account_selector::has_id(profile_id)) is None
                &&& message@ == unknown_text(profile_id)
            },
        }
    }

    /// Starts the removal of the profile with an id.
    pub fn begin(
        records: &Vec<AccountProfileRecord>,
        profile_id: &str,
        keep_credentials: bool,
    ) -> (begun: Result<Self, String>)
        ensures
            AccountRemoval::is_begun(records@, profile_id@, keep_credentials, begun),
    {
        let index: usize = match find_id(records, profile_id) {
            Some(index) => index,
            None => {
                return Err(unknown_message(profile_id));
            },
        };
        let mut removal = AccountRemoval {
            profile_id: profile_id.to_owned(),
            index,
            keep_credentials,
            step: RemovalStep::RemoveMetadata,
        };
        if removal.dropping() {
            removal.step = RemovalStep::RevokeCredentials;
        }
        Ok(removal)
    }

    /// Whether a step that came to `result` is answered by `outcome`.
    pub open spec fn is_answered(
        self,
        result: Result<bool, String>,
        outcome: Result<Option<String>, String>,
    ) -> bool {
        match (self.step, result) {
            (RemovalStep::RevokeCredentials, Err(error)) => outcome matches Err(message) && message@
                == "Error revoking account credentials: "@ + error@,
            (RemovalStep::RemoveMetadata, Ok(false)) => outcome matches Err(message) && message@
                == unknown_text(self.profile_id@),
            (RemovalStep::RemoveMetadata, Err(error)) => outcome matches Err(message) && message@
                == "Error removing account profile: "@ + error@,
            (RemovalStep::RemoveRuntimeState, Err(error)) => outcome matches Ok(Some(warning))
                && warning@ == "Warning: failed to remove stale scheduler state: "@ + error@,
            (RemovalStep::PurgeCredentials, Err(error)) => outcome matches Err(message) && message@
                == "Error deleting account credentials: "@ + error@,
            _ => outcome matches Ok(None),
        }
    }

    /// Goes on after a step. `result` is what came of it: whether something was found to remove, or
    /// what went wrong. Scheduling state that cannot be removed is only warned about: the warning is
    /// returned. Any other failure ends the removal.
    pub fn after_step(&mut self, result: Result<bool, String>) -> (outcome: Result<
        Option<String>,
        String,
    >)
        requires
            old(self).wf(),
        ensures
            final(self).wf(),
            old(self).is_answered(result, outcome),
            match outcome {
                Ok(_) => *final(self) == (AccountRemoval {
                    step: old(self).following_step(),
                    ..*old(self)
                }),
                Err(_) => *final(self) == *old(self),
            },
    {
        match self.step {
            RemovalStep::RevokeCredentials => {
                match result {
                    Ok(_) => {},
                    Err(error) => {
                        return Err(failure("Error revoking account credentials: ", error.as_str()));
                    },
                }
                self.step = RemovalStep::RemoveMetadata;
            },
            RemovalStep::RemoveMetadata => {
                match result {
                    Ok(found) => {
                        if !found {
                            return Err(unknown_message(self.profile_id.as_str()));
                        }
                    },
                    Err(error) => {
                        return Err(failure("Error removing account profile: ", error.as_str()));
                    },
                }
                self.step = RemovalStep::RemoveRuntimeState;
            },
            RemovalStep::RemoveRuntimeState => {
                self.step = if self.dropping() {
                    RemovalStep::PurgeCredentials
                } else {
                    RemovalStep::Finished
                };
                match result {
                    Ok(_) => {},
                    Err(error) => {
                        return Ok(
                            Some(
                                failure(
                                    "Warning: failed to remove stale scheduler state: ",
                                    error.as_str(),
                                ),
                            ),
                        );
                    },
                }
            },
            RemovalStep::PurgeCredentials => {
                match result {
                    Ok(_) => {},
                    Err(error) => {
                        return Err(failure("Error deleting account credentials: ", error.as_str()));
                    },
                }
                self.step = RemovalStep::Finished;
            },
            RemovalStep::Finished => {},
        }
        Ok(None)
    }

    /// What is said of a profile that was removed.
    pub open spec fn removed_text(self) -> Seq<char> {
        if self.profile_id@ == LEGACY_ROOT_PROFILE_ID@ {
            "Removed legacy-root from the account pool. Root Codex credentials were left untouched."@
        } else if self.keep_credentials {
            "Removed account profile "@ + self.profile_id@
                + "; its credential directory was preserved."@
        } else {
            "Removed account profile "@ + self.profile_id@ + " and revoked its credentials."@
        }
    }

    pub fn removed_message(&self) -> (message: String)
        ensures
            message@ == self.removed_text(),
    {
        if same_text(self.profile_id.as_str(), LEGACY_ROOT_PROFILE_ID) {
            return "Removed legacy-root from the account pool. Root Codex credentials were left untouched.".to_owned();
        }
        let mut message = "Removed account profile ".to_owned();
        message.append(self.profile_id.as_str());
        if self.keep_credentials {
            message.append("; its credential directory was preserved.");
        } else {
            message.append(" and revoked its credentials.");
        }
        message
    }
}

/// The removal of the login from before account pooling, and any removal that keeps credentials,
/// never reaches a step that touches credentials; and no removal deletes credentials before the
/// profile and its scheduling state are dealt with.
pub proof fn law_removal_keeps_protected_credentials(removal: AccountRemoval)
    requires
        removal.wf(),
    ensures
        removal.keep_credentials || removal.profile_id@ == LEGACY_ROOT_PROFILE_ID@
            ==> removal.step != RemovalStep::RevokeCredentials && removal.step
            != RemovalStep::PurgeCredentials && removal.following_step()
            != RemovalStep::RevokeCredentials && removal.following_step()
            != RemovalStep::PurgeCredentials,
        removal.following_step() == RemovalStep::PurgeCredentials ==> removal.step
            == RemovalStep::RemoveRuntimeState,
        removal.following_step() == RemovalStep::RemoveMetadata ==> removal.step
            == RemovalStep::RevokeCredentials,
{
}

proof fn lemma_highest_priority_is_taken(records: Seq<AccountProfileRecord>) -> (i: int)
    requires
        records.len() > 0,
    ensures
        0 <= i < records.len(),
        highest_priority(records) == Some(records[i].profile.priority),
    decreases records.len(),
{
    if records.len() == 1 {
        assert(highest_priority(records.drop_last()) is None);
        0
    } else {
        let i = lemma_highest_priority_is_taken(records.drop_last());
        if highest_priority(records.drop_last())->0 < records.last().profile.priority {
            records.len() - 1
        } else {
            i
        }
    }
}

/// A profile that is added without a priority comes ten after the last one, and the first of all at
/// zero.
pub proof fn law_added_profile_comes_a_step_after_the_last(records: Seq<AccountProfileRecord>) -> (last:
    int)
    ensures
        records.len() == 0 ==> following_priority(records) == 0,
        records.len() > 0 ==> 0 <= last < records.len(),
        records.len() > 0 && records[last].profile.priority <= u32::MAX - 10 ==> following_priority(
            records,
        ) == records[last].profile.priority + 10,
        records.len() > 0 && records[last].profile.priority > u32::MAX - 10 ==> following_priority(
            records,
        ) == u32::MAX,
{
    if records.len() > 0 {
        lemma_highest_priority_is_taken(records)
    } else {
        0
    }
}

/// Whether the `k`th state is the one that decides on a profile: the first that is stored for it.
pub open spec fn is_first_state(
    profiles: Seq<AccountRuntimeProfileState>,
    id: Seq<char>,
    k: int,
) -> bool {
    &&& 0 <= k < profiles.len()
    &&& profiles[k].profile_id@ == id
    &&& forall|j: int| 0 <= j < k ==> (#[trigger] profiles[j]).profile_id@ != id
}

/// A profile that a selector names is selected unless one of three things stands in its way: its
/// login is not done, it is disabled, or its cooldown lies ahead and is not overridden. The first
/// of these is the reason that is given.
pub proof fn law_named_profile_is_selected_unless_something_is_in_its_way(
    records: Seq<AccountProfileRecord>,
    profiles: Seq<AccountRuntimeProfileState>,
    selector: Seq<char>,
    force: bool,
    now: UtcTime,
    k: int,
)
    requires
        ({
            let named = account_selector::selected(records, selector);
            named is Ok ==> is_first_state(profiles, records[named->Ok_0].profile.id@, k)
        }),
    ensures
        ({
            let named = account_selector::selected(records, selector);
            let decision = use_decision(records, profiles, selector, force, now);
            let record = records[named->Ok_0];
            let until = profiles[k].exhausted_until;
            let cools = until is Some && until->0.value() > now.value();
            &&& named is Err ==> decision == Err::<int, UseError>(
                UseError::Selector { error: named->Err_0 },
            )
            &&& named is Ok ==> {
                &&& decision is Ok <==> record.state is Ready && !record.disabled && (force
                    || !cools)
                &&& decision matches Ok(i) ==> i == named->Ok_0
                &&& (decision matches Err(UseError::PendingLogin)) <==> record.state is PendingLogin
                &&& (decision matches Err(UseError::Disabled)) <==> record.state is Ready
                    && record.disabled
                &&& decision matches Err(UseError::CoolingDown { until: end }) ==> Some(end)
                    == until
            }
        }),
{
    let named = account_selector::selected(records, selector);
    if named is Ok {
        let wanted = is_state_of(records[named->Ok_0].profile.id@);
        assert forall|j: int| 0 <= j < k implies !wanted(#[trigger] profiles[j]) by {}
        seqs::lemma_first_where_is(profiles, wanted, k);
    }
}

/// Selecting a profile touches no scheduling state but its own, and that only under force: then its
/// cooldown is gone.
pub proof fn law_selection_touches_its_own_state_alone(
    profiles: Seq<AccountRuntimeProfileState>,
    id: Seq<char>,
    force: bool,
    k: int,
)
    requires
        is_first_state(profiles, id, k),
    ensures
        ({
            let after = states_after_use(profiles, id, force);
            &&& after.len() == profiles.len()
            &&& forall|j: int| 0 <= j < profiles.len() && j != k ==> #[trigger] after[j] == profiles[j]
            &&& after[k].profile_id == profiles[k].profile_id
            &&& force ==> after[k].exhausted_until is None
            &&& !force ==> after[k] == profiles[k]
        }),
{
    let wanted = is_state_of(id);
    assert forall|j: int| 0 <= j < k implies !wanted(#[trigger] profiles[j]) by {}
    seqs::lemma_first_where_is(profiles, wanted, k);
}

/// Settings that are asked for are set, and all else of a profile stays as it was.
pub proof fn law_settings_change_as_asked(
    record: AccountProfileRecord,
    priority: Option<u32>,
    label: Option<String>,
)
    ensures
        ({
            let changed = settings_changed(record, priority, label);
            &&& changed.profile.id == record.profile.id
            &&& changed.state == record.state
            &&& changed.disabled == record.disabled
            &&& priority is Some ==> changed.profile.priority == priority->0
            &&& priority is None ==> changed.profile.priority == record.profile.priority
            &&& label is Some ==> changed.profile.label == label
            &&& label is None ==> changed.profile.label == record.profile.label
        }),
{
}

/// The cooldown that is shown of a profile is the one stored last, and only while it lies ahead.
pub proof fn law_shown_cooldown_lies_ahead(
    profiles: Seq<AccountRuntimeProfileState>,
    id: Seq<char>,
    now: UtcTime,
    k: int,
)
    requires
        0 <= k < profiles.len(),
        profiles[k].profile_id@ == id,
        forall|j: int| k < j < profiles.len() ==> (#[trigger] profiles[j]).profile_id@ != id,
    ensures
        ({
            let shown = cooldown_text(last_state(profiles, id), now);
            let until = profiles[k].exhausted_until;
            &&& until is Some && until->0.value() > now.value() ==> shown == time::instant_text(
                until->0.spec_seconds(),
                until->0.spec_nanos(),
            )
            &&& until is None || until->0.value() <= now.value() ==> shown == "-"@
        }),
    decreases profiles.len(),
{
    if k < profiles.len() - 1 {
        assert(profiles.last() == profiles[profiles.len() - 1]);
        assert forall|j: int| k < j < profiles.drop_last().len() implies (
        #[trigger] profiles.drop_last()[j]).profile_id@ != id by {
            assert(profiles[j].profile_id@ != id);
        }
        law_shown_cooldown_lies_ahead(profiles.drop_last(), id, now, k);
    }
}

/// A removal runs through all of its steps and ends: credentials are revoked before the profile
/// goes and deleted after its scheduling state, or not touched at all.
pub proof fn law_removal_runs_to_its_end(removal: AccountRemoval)
    ensures
        ({
            let at = |step: RemovalStep| AccountRemoval { step, ..removal };
            let touches = !removal.keep_credentials && removal.profile_id@ != "legacy-root"@;
            &&& at(RemovalStep::RevokeCredentials).following_step() is RemoveMetadata
            &&& at(RemovalStep::RemoveMetadata).following_step() is RemoveRuntimeState
            &&& touches ==> at(RemovalStep::RemoveRuntimeState).following_step() is PurgeCredentials
            &&& !touches ==> at(RemovalStep::RemoveRuntimeState).following_step() is Finished
            &&& at(RemovalStep::PurgeCredentials).following_step() is Finished
            &&& at(RemovalStep::Finished).following_step() is Finished
            &&& removal.drops_credentials() <==> touches
        }),
{
}

/// What is said of a removal says whether credentials went with it, and names the profile.
pub proof fn law_removal_message_is_true(removal: AccountRemoval)
    ensures
        removal.profile_id@ != "legacy-root"@ ==> text::holds(
            removal.removed_text(),
            removal.profile_id@,
        ),
        " and revoked its credentials."@.is_suffix_of(removal.removed_text())
            || !removal.drops_credentials(),
        removal.profile_id@ != "legacy-root"@ && removal.keep_credentials
            ==> "; its credential directory was preserved."@.is_suffix_of(removal.removed_text()),
{
    text::lemma_holds(
        "Removed account profile "@,
        removal.profile_id@,
        "; its credential directory was preserved."@,
    );
    text::lemma_holds(
        "Removed account profile "@,
        removal.profile_id@,
        " and revoked its credentials."@,
    );
}

/// Profiles are listed by ascending priority value, and by id where that is the same.
pub proof fn law_profiles_are_listed_by_priority(
    records: Seq<AccountProfileRecord>,
    order: Seq<usize>,
    a: int,
    b: int,
)
    requires
        order::is_shown_order(list_keys(records), order),
        0 <= a < b < order.len(),
    ensures
        order.len() == records.len(),
        ({
            let earlier = records[order[a] as int].profile;
            let later = records[order[b] as int].profile;
            &&& earlier.priority <= later.priority
            &&& earlier.priority == later.priority ==> !text::text_lt(later.id@, earlier.id@)
        }),
{
    let keys = list_keys(records);
    assert(order::precedes(keys, order[a] as int, order[b] as int));
    assert(order[a] < keys.len() && order[b] < keys.len());
    text::law_text_order_is_total(
        records[order[a] as int].profile.id@,
        records[order[b] as int].profile.id@,
        records[order[a] as int].profile.id@,
    );
}

/// A profile that nothing is stored of cools down from nothing: it is selected wherever its login is
/// done and it is not disabled, and its selection leaves all stored states as they are.
pub proof fn law_profile_without_state_is_ready(
    records: Seq<AccountProfileRecord>,
    profiles: Seq<AccountRuntimeProfileState>,
    selector: Seq<char>,
    force: bool,
    now: UtcTime,
)
    requires
        account_selector::selected(records, selector) is Ok,
        forall|j: int|
            0 <= j < profiles.len() ==> (#[trigger] profiles[j]).profile_id@
                != records[account_selector::selected(records, selector)->Ok_0].profile.id@,
    ensures
        ({
            let record = records[account_selector::selected(records, selector)->Ok_0];
            &&& use_decision(records, profiles, selector, force, now) is Ok <==> record.state
                is Ready && !record.disabled
            &&& states_after_use(profiles, record.profile.id@, force) == profiles
        }),
{
    let id = records[account_selector::selected(records, selector)->Ok_0].profile.id@;
    seqs::lemma_first_where(profiles, is_state_of(id));
    if seqs::first_where(profiles, is_state_of(id)) is Some {
        assert(profiles[seqs::first_where(profiles, is_state_of(id))->0].profile_id@ == id);
    }
}

/// What is said of a profile names it: when it is being added, when it was, when it cannot be
/// selected and when there is none.
#[verifier::rlimit(40)]
pub proof fn law_messages_name_the_profile(
    profile: AccountProfile,
    error: UseError,
    selector: Seq<char>,
    id: Seq<char>,
)
    ensures
        text::holds(adding_text(id), id),
        text::holds(added_text(profile), profile.id@),
        profile.label is Some ==> text::holds(added_text(profile), profile.label->0@),
        text::holds(unknown_text(id), id),
        error !is Selector ==> text::holds(use_error_text(error, selector, id), id),
        error matches UseError::CoolingDown { until } ==> text::holds(
            use_error_text(error, selector, id),
            time::instant_text(until.spec_seconds(), until.spec_nanos()),
        ),
        error matches UseError::Selector { error: reason } ==> use_error_text(error, selector, id)
            == reason.text(selector),
{
    text::lemma_holds("Adding Codex account profile "@, id, "."@);
    assert(text::holds(unknown_text(id), id)) by {
        text::lemma_holds("Unknown Codex account profile: "@, id, Seq::empty());
        assert(unknown_text(id) =~= "Unknown Codex account profile: "@ + id
            + Seq::<char>::empty());
    }
    assert(error !is Selector ==> text::holds(use_error_text(error, selector, id), id)) by {
        let start = "Account profile "@;
        match error {
            UseError::PendingLogin => {
                text::lemma_holds(start, id, " has not completed login."@);
            },
            UseError::Disabled => {
                text::lemma_holds(start, id, " is disabled."@);
            },
            UseError::CoolingDown { until } => {
                let rest = " is cooling down until "@ + instant_shown(until)
                    + ". Use --force to probe it now."@;
                text::lemma_holds(start, id, rest);
                assert(use_error_text(error, selector, id) =~= start + id + rest);
            },
            UseError::Selector { .. } => {},
        }
    }
    if let UseError::CoolingDown { until } = error {
        text::lemma_holds(
            "Account profile "@ + id + " is cooling down until "@,
            instant_shown(until),
            ". Use --force to probe it now."@,
        );
    }
    lemma_added_text_names_the_profile(profile);
}

#[verifier::rlimit(40)]
proof fn lemma_added_text_names_the_profile(profile: AccountProfile)
    ensures
        text::holds(added_text(profile), profile.id@),
        profile.label is Some ==> text::holds(added_text(profile), profile.label->0@),
{
    let start = "Added Codex account "@;
    let rest = " with priority "@ + text::spec_decimal(profile.priority as nat) + "."@;
    match profile.label {
        Some(label) => {
            let shown = " ("@ + label@ + ")"@;
            text::lemma_holds(start, profile.id@, shown + rest);
            assert(added_text(profile) =~= start + profile.id@ + (shown + rest));
            text::lemma_holds(start + profile.id@ + " ("@, label@, ")"@ + rest);
            assert(added_text(profile) =~= start + profile.id@ + " ("@ + label@ + (")"@ + rest));
        },
        None => {
            text::lemma_holds(start, profile.id@, rest);
            assert(added_text(profile) =~= start + profile.id@ + rest);
        },
    }
}

/// The list has a line for each profile, under one header, and the header names the column of ids
/// exactly where ids are shown.
pub proof fn law_list_has_a_line_for_each_profile(
    lines: Seq<String>,
    records: Seq<AccountProfileRecord>,
    runtime: AccountRuntimeState,
    identities: Seq<ProfileIdentity>,
    order: Seq<usize>,
    show_profile: bool,
    now: UtcTime,
    k: int,
)
    requires
        is_list(lines, records, runtime, identities, order, show_profile, now),
        0 <= k < records.len(),
    ensures
        lines.len() == records.len() + 1,
        lines[k + 1]@ == row_text(
            records[order[k] as int],
            runtime,
            identities[order[k] as int],
            show_profile,
            now,
        ),
        show_profile ==> lines[0]@
            == "ACTIVE\tPRIORITY\tPROFILE\tSTATE\tPLAN\tEMAIL\tCOOLDOWN\tLABEL"@,
        !show_profile ==> lines[0]@ == "ACTIVE\tPRIORITY\tSTATE\tPLAN\tEMAIL\tCOOLDOWN\tLABEL"@,
{
    assert(lines[k + 1]@ == lines[k + 1]@);
}

/// The row of a profile ends with its label, and the row of the active profile, and no other, begins
/// with a star.
#[verifier::rlimit(40)]
pub proof fn law_active_row_is_starred(
    record: AccountProfileRecord,
    runtime: AccountRuntimeState,
    identity: ProfileIdentity,
    show_profile: bool,
    now: UtcTime,
)
    ensures
        ({
            let row = row_text(record, runtime, identity, show_profile, now);
            let active = runtime.active_profile_id is Some && runtime.active_profile_id->0@
                == record.profile.id@;
            &&& row.len() > 0
            &&& active ==> row[0] == '*'
            &&& !active ==> row[0] == '\t'
            &&& record.profile.label is Some ==> record.profile.label->0@.is_suffix_of(row)
        }),
{
    let row = row_text(record, runtime, identity, show_profile, now);
    reveal_strlit("*");
    reveal_strlit("");
    reveal_strlit("\t");
}

/// A selection that succeeds makes the named profile the active one and returns its id; one that
/// fails changes nothing.
pub proof fn law_selection_activates_the_named_profile(
    records: Seq<AccountProfileRecord>,
    before: AccountRuntimeState,
    after: AccountRuntimeState,
    selector: Seq<char>,
    force: bool,
    now: UtcTime,
    outcome: Result<String, String>,
)
    requires
        is_use_of(records, before, after, selector, force, now, outcome),
    ensures
        outcome is Ok <==> use_decision(records, before.profiles@, selector, force, now) is Ok,
        outcome is Err ==> after == before,
        outcome matches Ok(id) ==> {
            &&& after.active_profile_id is Some && after.active_profile_id->0@ == id@
            &&& account_selector::selected(records, selector) is Ok
            &&& id@ == records[account_selector::selected(records, selector)->Ok_0].profile.id@
            &&& !force ==> after.profiles@ == before.profiles@
            &&& after.profiles@.len() == before.profiles@.len()
        },
{
    if outcome is Ok {
        seqs::lemma_first_where(before.profiles@, is_state_of(outcome->Ok_0@));
    }
}

/// A change of settings touches the named profile alone, and none where no profile is named.
pub proof fn law_settings_touch_the_named_profile_alone(
    before: Seq<AccountProfileRecord>,
    after: Seq<AccountProfileRecord>,
    selector: Seq<char>,
    priority: Option<u32>,
    label: Option<String>,
    outcome: Result<String, String>,
    j: int,
)
    requires
        is_set_of(before, after, selector, priority, label, outcome),
        0 <= j < before.len(),
    ensures
        after.len() == before.len(),
        outcome is Ok <==> account_selector::selected(before, selector) is Ok,
        account_selector::selected(before, selector) != Ok::<int, ProfileSelectorError>(j)
            ==> after[j] == before[j],
        after[j].profile.id == before[j].profile.id,
        account_selector::selected(before, selector) == Ok::<int, ProfileSelectorError>(j) ==> {
            &&& outcome matches Ok(id) && id@ == before[j].profile.id@
            &&& priority matches Some(wanted) ==> after[j].profile.priority == wanted
            &&& priority is None ==> after[j].profile.priority == before[j].profile.priority
            &&& label is Some ==> after[j].profile.label == label
            &&& label is None ==> after[j].profile.label == before[j].profile.label
        },
{
}

/// The removal of a profile begins exactly where there is one with that id, and begins with its
/// credentials where they go with it. A step that fails ends the removal, with the reason, but for
/// scheduling state that cannot be removed: that is warned about.
pub proof fn law_removal_stops_at_failures(
    records: Seq<AccountProfileRecord>,
    profile_id: Seq<char>,
    keep_credentials: bool,
    begun: Result<AccountRemoval, String>,
    removal: AccountRemoval,
    result: Result<bool, String>,
    outcome: Result<Option<String>, String>,
    i: int,
)
    requires
        AccountRemoval::is_begun(records, profile_id, keep_credentials, begun),
        removal.is_answered(result, outcome),
    ensures
        0 <= i < records.len() && records[i].profile.id@ == profile_id ==> begun is Ok,
        begun matches Ok(made) ==> {
            &&& 0 <= made.index < records.len()
            &&& records[made.index as int].profile.id@ == profile_id
            &&& made.profile_id@ == profile_id
            &&& made.step is RevokeCredentials <==> !keep_credentials && profile_id
                != "legacy-root"@
            &&& made.step is RevokeCredentials || made.step is RemoveMetadata
        },
        outcome is Err <==> {
            ||| removal.step is RevokeCredentials && result is Err
            ||| removal.step is RemoveMetadata && !(result matches Ok(found) && found)
            ||| removal.step is PurgeCredentials && result is Err
        },
        (outcome matches Ok(Some(_))) <==> removal.step is RemoveRuntimeState && result is Err,
        result matches Err(error) ==> (removal.step !is Finished ==> match outcome {
            Err(message) => error@.is_suffix_of(message@),
            Ok(Some(warning)) => error@.is_suffix_of(warning@),
            Ok(None) => false,
        }),
{
    let by_id = account_selector::has_id(profile_id);
    seqs::lemma_first_where(records, by_id);
    if 0 <= i < records.len() && records[i].profile.id@ == profile_id {
        assert(by_id(records[i]));
    }
}

} // verus!
