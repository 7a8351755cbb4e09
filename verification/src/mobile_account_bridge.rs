//! Account pool status for mobile remote clients, through interfaces that they already render.
use std::collections::HashMap;

use vstd::prelude::*;

use crate::accounts::PlanType;
use crate::mobile_account_status;
use crate::mobile_account_status::account_caption;
use crate::mobile_account_status::compact_label;
use crate::mobile_account_status::limit_caption;
use crate::mobile_account_status::overlay_snapshot;
use crate::protocol::AccountPoolAccount;
use crate::protocol::AccountPoolAvailability;
use crate::protocol::AccountPoolReadResponse;
use crate::protocol::RateLimitSnapshot;
use crate::text;
use crate::text::chars_of;
use crate::text::decimal;
use crate::text::eq_ignore_ascii_case;
use crate::text::nth_word;
use crate::text::same_text;
use crate::text::strip_leading;
use crate::text::trim;
use crate::text::trim_start;

verus! {

/// Name of the remote client on Android.
pub const ANDROID_REMOTE_CLIENT: &'static str = "codex_chatgpt_android_remote";

/// Name of the remote client on iOS.
pub const IOS_REMOTE_CLIENT: &'static str = "codex_chatgpt_ios_remote";

/// Id of the workspace message that carries the status of the pool.
pub const LOCAL_WORKSPACE_MESSAGE_ID: &'static str = "codex-local-account-pool";

/// Accounts that a summary lists one by one.
pub const SUMMARY_ACCOUNTS: usize = 8;

/// Whether a client is one of the two mobile remote clients.
pub open spec fn is_remote_client(client_name: Seq<char>) -> bool {
    client_name == ANDROID_REMOTE_CLIENT@ || client_name == IOS_REMOTE_CLIENT@
}

pub fn is_chatgpt_remote_client(client_name: Option<&str>) -> (remote: bool)
    ensures
        remote == (client_name is Some && is_remote_client(client_name->0@)),
{
    match client_name {
        Some(name) => same_text(name, ANDROID_REMOTE_CLIENT) || same_text(name, IOS_REMOTE_CLIENT),
        None => false,
    }
}

#[derive(Clone, Copy, Debug, PartialEq, Eq, Structural)]
pub enum MobileSlashCommand {
    Account,
    Status,
}

/// One item of what a user sent.
#[derive(Clone, Debug, PartialEq, Eq)]
pub enum UserInput {
    Text { text: String, text_elements: Vec<String> },
    Image { url: String },
    Other { payload: String },
}

/// The text of an input that is a single text.
pub open spec fn single_text(input: Seq<UserInput>) -> Option<Seq<char>> {
    if input.len() == 1 {
        match input[0] {
            UserInput::Text { text, .. } => Some(text@),
            _ => None,
        }
    } else {
        None
    }
}

pub fn single_text_input(input: &Vec<UserInput>) -> (found: Option<&str>)
    ensures
        match found {
            Some(found) => single_text(input@) == Some(found@),
            None => single_text(input@) is None,
        },
{
    if input.len() != 1 {
        return None;
    }
    match &input[0] {
        UserInput::Text { text, .. } => Some(text.as_str()),
        _ => None,
    }
}

/// What follows the slashes of a slash command.
pub open spec fn after_slashes(s: Seq<char>) -> Seq<char> {
    text::trimmed_start(text::without_leading(text::trimmed(s), '/'))
}

/// Whether a text is a slash command of the given name, in any case.
pub open spec fn is_slash_command(s: Seq<char>, command: Seq<char>) -> bool {
    &&& text::trimmed(s).len() > 0
    &&& text::trimmed(s)[0] == '/'
    &&& text::words(after_slashes(s)).len() > 0
    &&& text::lowered(text::words(after_slashes(s))[0]) == text::lowered(command)
}

pub fn matches_slash_command(text: &str, command: &str) -> (matching: bool)
    ensures
        matching == is_slash_command(text@, command@),
{
    let trimmed = trim(text);
    let chars = chars_of(trimmed.as_str());
    if chars.len() == 0 || chars[0] != '/' {
        return false;
    }
    let rest = trim_start(strip_leading(trimmed.as_str(), '/').as_str());
    match nth_word(rest.as_str(), 0) {
        Some(token) => eq_ignore_ascii_case(token.as_str(), command),
        None => false,
    }
}

/// The slash command in an input of a mobile client.
pub open spec fn slash_command_in(
    input: Seq<UserInput>,
    client_name: Option<&str>,
) -> Option<MobileSlashCommand> {
    if client_name is Some && is_remote_client(client_name->0@) && single_text(input) is Some {
        if is_slash_command(single_text(input)->0, "account"@) {
            Some(MobileSlashCommand::Account)
        } else if is_slash_command(single_text(input)->0, "status"@) {
            Some(MobileSlashCommand::Status)
        } else {
            None
        }
    } else {
        None
    }
}

pub fn mobile_slash_command(input: &Vec<UserInput>, client_name: Option<&str>) -> (command: Option<
    MobileSlashCommand,
>)
    ensures
        command == slash_command_in(input@, client_name),
{
    if !is_chatgpt_remote_client(client_name) {
        return None;
    }
    match single_text_input(input) {
        Some(text) => if matches_slash_command(text, "account") {
            Some(MobileSlashCommand::Account)
        } else if matches_slash_command(text, "status") {
            Some(MobileSlashCommand::Status)
        } else {
            None
        },
        None => None,
    }
}

/// Milliseconds since the Unix epoch by `std::time::SystemTime::elapsed`; none where the clock stands
/// before the epoch. Nothing is claimed of the number: it is the time.
#[verifier::external_body]
fn millis_since_epoch() -> (millis: Option<u128>) {
    std::time::SystemTime::UNIX_EPOCH.elapsed().ok().map(|elapsed| elapsed.as_millis())
}

/// The timestamp of a clock reading: 0 for a clock before the epoch, and the low 64 bits of the
/// reading otherwise.
pub open spec fn timestamp_of(millis: Option<u128>) -> i64 {
    match millis {
        Some(millis) => millis as i64,
        None => 0,
    }
}

/// The timestamp of a clock reading, in milliseconds.
pub fn unix_timestamp_ms(millis: Option<u128>) -> (timestamp: i64)
    ensures
        timestamp == timestamp_of(millis),
        millis is Some && millis->0 <= i64::MAX ==> timestamp == millis->0,
{
    match millis {
        Some(millis) => {
            #[verifier::truncate]
            let timestamp: i64 = millis as i64;
            timestamp
        },
        None => 0,
    }
}

/// The present as milliseconds since the Unix epoch.
pub fn now_unix_timestamp_ms() -> (timestamp: i64)
    ensures
        exists|millis: Option<u128>| timestamp == #[trigger] timestamp_of(millis),
{
    unix_timestamp_ms(millis_since_epoch())
}

/// How accounts are switched on the host.
pub fn host_account_switch_hint() -> (hint: String)
    ensures
        hint@ == "Switch profiles on the host with `codex account use \"<label-or-id>\"`."@,
{
    "Switch profiles on the host with `codex account use \"<label-or-id>\"`.".to_owned()
}

/// Id and name of an account.
pub open spec fn display_label_text(account: AccountPoolAccount) -> Seq<char> {
    let id = mobile_account_status::compact(account.profile_id@, 48);
    if account.label is Some {
        id + " ("@ + mobile_account_status::compact(account.label->0@, 32) + ")"@
    } else if account.email is Some {
        id + " ("@ + mobile_account_status::compact(account.email->0@, 32) + ")"@
    } else {
        id
    }
}

pub fn account_display_label(account: &AccountPoolAccount) -> (shown: String)
    ensures
        shown@ == display_label_text(*account),
{
    let mut shown = compact_label(account.profile_id.as_str(), 48);
    let name = match (&account.label, &account.email) {
        (Some(label), _) => Some(compact_label(label.as_str(), 32)),
        (None, Some(email)) => Some(compact_label(email.as_str(), 32)),
        (None, None) => None,
    };
    if let Some(name) = name {
        shown.append(" (");
        shown.append(name.as_str());
        shown.append(")");
    }
    shown
}

/// State of an account. `cooldown_until` is the end of its cooldown as the host words it.
pub open spec fn availability_label_text(
    account: AccountPoolAccount,
    cooldown_until: Seq<char>,
) -> Seq<char> {
    match account.availability {
        AccountPoolAvailability::Available => "available"@,
        AccountPoolAvailability::Exhausted { resets_at } => if resets_at is Some {
            "cooldown until "@ + cooldown_until
        } else {
            "cooling down"@
        },
        AccountPoolAvailability::AuthenticationUnavailable { .. } => "login required on host"@,
        AccountPoolAvailability::Disabled => "disabled"@,
    }
}

pub fn availability_label(account: &AccountPoolAccount, cooldown_until: &str) -> (shown: String)
    ensures
        shown@ == availability_label_text(*account, cooldown_until@),
{
    match &account.availability {
        AccountPoolAvailability::Available => "available".to_owned(),
        AccountPoolAvailability::Exhausted { resets_at } => match resets_at {
            Some(_) => {
                let mut shown = "cooldown until ".to_owned();
                shown.append(cooldown_until);
                shown
            },
            None => "cooling down".to_owned(),
        },
        AccountPoolAvailability::AuthenticationUnavailable { .. } =>
            "login required on host".to_owned(),
        AccountPoolAvailability::Disabled => "disabled".to_owned(),
    }
}

/// The line of one account in a summary, after a line break.
pub open spec fn summary_line(account: AccountPoolAccount, cooldown_until: Seq<char>) -> Seq<char> {
    "\n· "@ + display_label_text(account) + " (priority "@ + text::spec_decimal(
        account.priority as nat,
    ) + ") — "@ + availability_label_text(account, cooldown_until)
}

/// The lines of the first `n` accounts.
pub open spec fn summary_lines(
    accounts: Seq<AccountPoolAccount>,
    cooldowns: Seq<String>,
    n: int,
) -> Seq<char>
    decreases n,
{
    if n <= 0 {
        Seq::empty()
    } else {
        summary_lines(accounts, cooldowns, n - 1) + summary_line(
            accounts[n - 1],
            cooldowns[n - 1]@,
        )
    }
}

/// The summary of a pool: its active account and its first eight accounts.
pub open spec fn summary_text(
    pool: AccountPoolReadResponse,
    cooldowns: Seq<String>,
) -> Seq<char> {
    let accounts = pool.accounts@;
    if !pool.enabled {
        "Multi-account pool is not configured. Add profiles with `codex account add` on the host."@
    } else {
        "Codex account pool · active: "@ + mobile_account_status::compact(
            text::text_or(pool.active_profile_id, "automatic"@),
            48,
        ) + summary_lines(
            accounts,
            cooldowns,
            if accounts.len() <= SUMMARY_ACCOUNTS {
                accounts.len() as int
            } else {
                SUMMARY_ACCOUNTS as int
            },
        ) + (if accounts.len() > SUMMARY_ACCOUNTS {
            "\n"@ + text::spec_decimal((accounts.len() - SUMMARY_ACCOUNTS) as nat)
                + " more accounts. Run `codex account list` on the host."@
        } else {
            Seq::empty()
        })
    }
}

/// The summary of a pool. `cooldowns` are the ends of the accounts' cooldowns as the host words them.
pub fn format_account_pool_summary(
    pool: &AccountPoolReadResponse,
    cooldowns: &Vec<String>,
) -> (summary: String)
    requires
        cooldowns@.len() == pool.accounts@.len(),
    ensures
        summary@ == summary_text(*pool, cooldowns@),
{
    if !pool.enabled {
        return "Multi-account pool is not configured. Add profiles with `codex account add` on the host.".to_owned();
    }
    let accounts = &pool.accounts;
    let mut summary = "Codex account pool · active: ".to_owned();
    let active = match &pool.active_profile_id {
        Some(id) => compact_label(id.as_str(), 48),
        None => compact_label("automatic", 48),
    };
    summary.append(active.as_str());
    let ghost head = summary@;
    let shown: usize = if accounts.len() <= SUMMARY_ACCOUNTS {
        accounts.len()
    } else {
        SUMMARY_ACCOUNTS
    };
    let mut i: usize = 0;
    assert(summary@ =~= head + summary_lines(accounts@, cooldowns@, 0));
    while i < shown
        invariant
            i <= shown <= accounts@.len(),
            cooldowns@.len() == accounts@.len(),
            summary@ == head + summary_lines(accounts@, cooldowns@, i as int),
        decreases shown - i,
    {
        let mut line = "\n· ".to_owned();
        line.append(account_display_label(&accounts[i]).as_str());
        line.append(" (priority ");
        line.append(decimal(accounts[i].priority as u64).as_str());
        line.append(") — ");
        line.append(availability_label(&accounts[i], cooldowns[i].as_str()).as_str());
        summary.append(line.as_str());
        i = i + 1;
        assert(summary@ =~= head + summary_lines(accounts@, cooldowns@, i as int));
    }
    if accounts.len() > SUMMARY_ACCOUNTS {
        let mut more = "\n".to_owned();
        more.append(decimal((accounts.len() - SUMMARY_ACCOUNTS) as u64).as_str());
        more.append(" more accounts. Run `codex account list` on the host.");
        summary.append(more.as_str());
    } else {
        assert(summary@ + Seq::<char>::empty() =~= summary@);
    }
    summary
}

/// The reply to a bare account command: the summary, and how accounts are switched.
pub open spec fn account_reply_text(
    pool: AccountPoolReadResponse,
    cooldowns: Seq<String>,
) -> Seq<char> {
    summary_text(pool, cooldowns) + (if pool.enabled {
        "\n\nSwitch profiles on the host with `codex account use \"<label-or-id>\"`."@
    } else {
        Seq::empty()
    })
}

pub fn mobile_account_slash_reply(pool: &AccountPoolReadResponse, cooldowns: &Vec<String>) -> (
    reply: String)
    requires
        cooldowns@.len() == pool.accounts@.len(),
    ensures
        reply@ == account_reply_text(*pool, cooldowns@),
{
    let mut reply = format_account_pool_summary(pool, cooldowns);
    if pool.enabled {
        let mut hint = "\n\n".to_owned();
        hint.append(host_account_switch_hint().as_str());
        proof {
            reveal_strlit("\n\n");
            reveal_strlit("Switch profiles on the host with `codex account use \"<label-or-id>\"`.");
            reveal_strlit(
                "\n\nSwitch profiles on the host with `codex account use \"<label-or-id>\"`.",
            );
            assert(hint@
                =~= "\n\nSwitch profiles on the host with `codex account use \"<label-or-id>\"`."@);
        }
        reply.append(hint.as_str());
    } else {
        assert(reply@ + Seq::<char>::empty() =~= reply@);
    }
    reply
}

pub fn mobile_status_slash_reply(pool: &AccountPoolReadResponse) -> (reply: String)
    ensures
        reply@ == mobile_account_status::account_caption_text(*pool)
            + "\nUsage bars show the executing account's limits. Ready counts describe scheduler availability, not verified quota."@,
{
    let mut reply = account_caption(pool);
    reply.append(
        "\nUsage bars show the executing account's limits. Ready counts describe scheduler availability, not verified quota.",
    );
    reply
}

/// Limits of one kind in a response.
#[derive(Clone, Debug, PartialEq, Eq)]
pub struct LimitEntry {
    pub limit_id: String,
    pub snapshot: RateLimitSnapshot,
}

#[derive(Clone, Debug, PartialEq, Eq)]
pub struct GetAccountRateLimitsResponse {
    pub rate_limits: RateLimitSnapshot,
    pub rate_limits_by_limit_id: Option<Vec<LimitEntry>>,
    pub account_id: Option<String>,
}

impl GetAccountRateLimitsResponse {
    /// No kind of limits occurs twice.
    pub open spec fn wf(self) -> bool {
        self.rate_limits_by_limit_id matches Some(entries) ==> forall|i: int, j: int|
            0 <= i < j < entries@.len() ==> (#[trigger] entries@[i]).limit_id@ != (
            #[trigger] entries@[j]).limit_id@
    }
}

/// Whether a response is another with a caption laid over its Codex limits.
pub open spec fn is_overlaid_response(
    before: GetAccountRateLimitsResponse,
    after: GetAccountRateLimitsResponse,
    caption: Seq<char>,
) -> bool {
    &&& mobile_account_status::is_overlaid(before.rate_limits, after.rate_limits, caption)
    &&& after.account_id == before.account_id
    &&& match (before.rate_limits_by_limit_id, after.rate_limits_by_limit_id) {
        (None, None) => true,
        (Some(old_entries), Some(new_entries)) => {
            &&& new_entries@.len() == old_entries@.len()
            &&& forall|i: int|
                0 <= i < old_entries@.len() ==> (#[trigger] new_entries@[i]).limit_id
                    == old_entries@[i].limit_id && mobile_account_status::is_overlaid(
                    old_entries@[i].snapshot,
                    new_entries@[i].snapshot,
                    caption,
                )
        },
        _ => false,
    }
}

/// Names the Codex limits of a response after the state of the pool. A disabled pool changes
/// nothing. The kinds of limits stay what they are, so none occurs twice that did not before.
pub fn overlay_get_account_rate_limits_for_remote_client(
    response: &mut GetAccountRateLimitsResponse,
    pool: &AccountPoolReadResponse,
)
    ensures
        if pool.enabled {
            is_overlaid_response(
                *old(response),
                *final(response),
                mobile_account_status::readiness_text("Codex"@, pool.accounts@),
            )
        } else {
            *final(response) == *old(response)
        },
        old(response).wf() ==> final(response).wf(),
{
    let caption = match limit_caption(pool) {
        Some(caption) => caption,
        None => {
            return ;
        },
    };
    let ghost before = *response;
    overlay_snapshot(&mut response.rate_limits, caption.as_str());
    match response.rate_limits_by_limit_id.take() {
        Some(entries) => {
            let ghost old_entries = entries@;
            let mut entries = entries;
            let mut i: usize = 0;
            while i < entries.len()
                invariant
                    i <= entries@.len(),
                    entries@.len() == old_entries.len(),
                    forall|j: int|
                        0 <= j < i ==> (#[trigger] entries@[j]).limit_id == old_entries[j].limit_id
                            && mobile_account_status::is_overlaid(
                            old_entries[j].snapshot,
                            entries@[j].snapshot,
                            caption@,
                        ),
                    forall|j: int| i <= j < entries@.len() ==> #[trigger] entries@[j] == old_entries[j],
                decreases entries@.len() - i,
            {
                overlay_snapshot(&mut entries[i].snapshot, caption.as_str());
                i = i + 1;
            }
            response.rate_limits_by_limit_id = Some(entries);
        },
        None => {},
    }
}

/// How the host is logged in, as clients see it.
#[derive(Clone, Debug, PartialEq, Eq)]
pub enum Account {
    ApiKey,
    Chatgpt { email: Option<String>, plan_type: PlanType },
    Other { payload: String },
}

#[derive(Clone, Debug, PartialEq, Eq)]
pub struct GetAccountResponse {
    pub account: Option<Account>,
    pub requires_openai_auth: bool,
}

/// Whether a response is another one with the caption of the pool in place of the email.
pub open spec fn is_account_overlaid(
    before: GetAccountResponse,
    after: GetAccountResponse,
    pool: AccountPoolReadResponse,
) -> bool {
    &&& after.requires_openai_auth == before.requires_openai_auth
    &&& match before.account {
        Some(Account::Chatgpt { email, plan_type }) if pool.enabled => {
            &&& after.account matches Some(
                Account::Chatgpt { email: Some(shown), plan_type: plan },
            )
            &&& plan == plan_type
            &&& shown@ == mobile_account_status::account_caption_text(pool)
        },
        _ => after.account == before.account,
    }
}

/// Shows the caption of an enabled pool in place of the email of a ChatGPT login. Any other response
/// stays as it is.
pub fn overlay_get_account_for_remote_client(
    response: &mut GetAccountResponse,
    pool: &AccountPoolReadResponse,
)
    ensures
        is_account_overlaid(*old(response), *final(response), *pool),
{
    if !pool.enabled {
        return ;
    }
    let summary = account_caption(pool);
    match response.account.take() {
        Some(Account::Chatgpt { plan_type, .. }) => {
            response.account = Some(Account::Chatgpt { email: Some(summary), plan_type });
        },
        other => {
            response.account = other;
        },
    }
}

#[derive(Clone, Copy, Debug, PartialEq, Eq, Structural)]
pub enum WorkspaceMessageType {
    Headline,
    Announcement,
}

#[derive(Clone, Debug, PartialEq, Eq)]
pub struct WorkspaceMessage {
    pub message_id: String,
    pub message_type: WorkspaceMessageType,
    pub message_body: String,
    pub created_at: Option<i64>,
    pub archived_at: Option<i64>,
}

#[derive(Clone, Debug, PartialEq, Eq)]
pub struct GetWorkspaceMessagesResponse {
    pub feature_enabled: bool,
    pub messages: Vec<WorkspaceMessage>,
}

/// Whether a response is another one with the caption of the pool before its messages.
pub open spec fn is_headed(
    before: GetWorkspaceMessagesResponse,
    after: GetWorkspaceMessagesResponse,
    pool: AccountPoolReadResponse,
    now_seconds: i64,
) -> bool {
    &&& after.feature_enabled == before.feature_enabled
    &&& if pool.enabled {
        &&& after.messages@.len() == before.messages@.len() + 1
        &&& after.messages@.skip(1) == before.messages@
        &&& after.messages@[0].message_id@ == LOCAL_WORKSPACE_MESSAGE_ID@
        &&& after.messages@[0].message_type == WorkspaceMessageType::Headline
        &&& after.messages@[0].message_body@ == mobile_account_status::account_caption_text(pool)
        &&& after.messages@[0].created_at == Some(now_seconds)
        &&& after.messages@[0].archived_at is None
    } else {
        after == before
    }
}

/// Puts the caption of an enabled pool before the workspace messages, as a headline of the present.
pub fn inject_workspace_messages_for_remote_client(
    response: &mut GetWorkspaceMessagesResponse,
    pool: &AccountPoolReadResponse,
    now_seconds: i64,
)
    ensures
        is_headed(*old(response), *final(response), *pool, now_seconds),
{
    if !pool.enabled {
        return ;
    }
    let ghost before = response.messages@;
    response.messages.insert(
        0,
        WorkspaceMessage {
            message_id: LOCAL_WORKSPACE_MESSAGE_ID.to_owned(),
            message_type: WorkspaceMessageType::Headline,
            message_body: account_caption(pool),
            created_at: Some(now_seconds),
            archived_at: None,
        },
    );
    assert(response.messages@.skip(1) =~= before);
}

#[derive(Clone, Copy, Debug, PartialEq, Eq, Structural)]
pub enum TurnStatus {
    InProgress,
    Completed,
}

#[derive(Clone, Copy, Debug, PartialEq, Eq, Structural)]
pub enum TurnItemsView {
    NotLoaded,
    Summary,
}

/// One item of a thread.
#[derive(Clone, Debug, PartialEq, Eq)]
pub enum ThreadItem {
    UserMessage { id: String, client_id: Option<String>, text: String },
    AgentMessage { id: String, text: String },
}

#[derive(Clone, Debug, PartialEq, Eq)]
pub struct Turn {
    pub id: String,
    pub items: Vec<ThreadItem>,
    pub items_view: TurnItemsView,
    pub status: TurnStatus,
    pub started_at: Option<i64>,
    pub completed_at: Option<i64>,
    pub duration_ms: Option<i64>,
}

/// What a server tells its clients.
#[derive(Clone, Debug, PartialEq, Eq)]
pub enum ServerNotification {
    TurnStarted { thread_id: String, turn: Turn },
    ItemStarted { item: ThreadItem, thread_id: String, turn_id: String, started_at_ms: i64 },
    ItemCompleted { item: ThreadItem, thread_id: String, turn_id: String, completed_at_ms: i64 },
    TurnCompleted { thread_id: String, turn: Turn },
    Warning { thread_id: Option<String>, message: String },
    AccountRateLimitsUpdated { rate_limits: RateLimitSnapshot },
    Other { payload: String },
}

/// Whether `notification` is the warning that shows the state of a pool.
pub open spec fn is_pool_warning(
    connections: usize,
    pool: AccountPoolReadResponse,
    notification: Option<ServerNotification>,
) -> bool {
    match notification {
        Some(notification) => {
            &&& connections > 0
            &&& pool.enabled
            &&& notification matches ServerNotification::Warning { thread_id: None, message }
            &&& message@ == mobile_account_status::account_caption_text(pool)
        },
        None => connections == 0 || !pool.enabled,
    }
}

/// The warning that shows the state of an enabled pool; none without a connection to show it on.
pub fn push_account_pool_warning(connections: usize, pool: &AccountPoolReadResponse) -> (
    notification: Option<ServerNotification>)
    ensures
        is_pool_warning(connections, *pool, notification),
{
    if connections == 0 || !pool.enabled {
        return None;
    }
    Some(ServerNotification::Warning { thread_id: None, message: account_caption(pool) })
}

/// The mobile clients that are connected, and the caption that they are shown.
pub struct RemoteClientRegistry {
    pub clients: HashMap<u64, String>,
    pub caption: Option<String>,
}

impl RemoteClientRegistry {
    pub fn new() -> (registry: Self)
        ensures
            registry.clients@ == Map::<u64, String>::empty(),
            registry.caption is None,
    {
        RemoteClientRegistry { clients: HashMap::new(), caption: None }
    }

    /// The clients after one more connected.
    pub open spec fn clients_after(
        clients: Map<u64, String>,
        connection_id: u64,
        client_name: String,
    ) -> Map<u64, String> {
        if is_remote_client(client_name@) {
            clients.insert(connection_id, client_name)
        } else {
            clients
        }
    }

    /// Remembers a mobile client; other clients are not remembered.
    pub fn register(&mut self, connection_id: u64, client_name: String)
        ensures
            final(self).caption == old(self).caption,
            final(self).clients@ == RemoteClientRegistry::clients_after(
                old(self).clients@,
                connection_id,
                client_name,
            ),
    {
        broadcast use vstd::std_specs::hash::group_hash_axioms;

        if is_chatgpt_remote_client(Some(client_name.as_str())) {
            self.clients.insert(connection_id, client_name);
        }
    }

    pub fn unregister(&mut self, connection_id: u64)
        ensures
            final(self).caption == old(self).caption,
            final(self).clients@ == old(self).clients@.remove(connection_id),
    {
        broadcast use vstd::std_specs::hash::group_hash_axioms;

        self.clients.remove(&connection_id);
    }

    /// Whether a notification to a client is another one after decoration.
    pub open spec fn is_decorated(
        self,
        connection_id: u64,
        before: ServerNotification,
        after: ServerNotification,
    ) -> bool {
        match before {
            ServerNotification::AccountRateLimitsUpdated { rate_limits }
                if self.clients@.dom().contains(connection_id) && self.caption is Some => {
                &&& after matches ServerNotification::AccountRateLimitsUpdated {
                    rate_limits: shown,
                }
                &&& mobile_account_status::is_overlaid(rate_limits, shown, self.caption->0@)
            },
            _ => after == before,
        }
    }

    /// Lays the caption over a rate-limit update that goes to a mobile client. Every other
    /// notification, and one to any other client, stays as it is.
    pub fn decorate_notification(&self, connection_id: u64, notification: &mut ServerNotification)
        ensures
            self.is_decorated(connection_id, *old(notification), *final(notification)),
    {
        broadcast use vstd::std_specs::hash::group_hash_axioms;

        if !self.clients.contains_key(&connection_id) {
            return ;
        }
        if let Some(caption) = &self.caption {
            match notification {
                ServerNotification::AccountRateLimitsUpdated { rate_limits } => {
                    overlay_snapshot(rate_limits, caption.as_str());
                },
                _ => {},
            }
        }
    }
}

/// Whole seconds of a timestamp in milliseconds, cut off toward zero.
pub open spec fn seconds_of(millis: i64) -> int {
    if millis >= 0 {
        millis as int / 1000
    } else {
        -((-(millis as int)) / 1000)
    }
}

fn whole_seconds(millis: i64) -> (seconds: i64)
    ensures
        seconds == seconds_of(millis),
{
    if millis >= 0 {
        millis / 1000
    } else {
        let magnitude: u128 = (-(millis as i128)) as u128;
        let seconds: u128 = magnitude / 1000;
        (-(seconds as i128)) as i64
    }
}

/// Time between two timestamps; 0 where the clock went back.
pub open spec fn duration_of(started_ms: i64, completed_ms: i64) -> int {
    if completed_ms <= started_ms {
        0
    } else if completed_ms - started_ms > i64::MAX {
        i64::MAX as int
    } else {
        completed_ms - started_ms
    }
}

fn duration_between(started_ms: i64, completed_ms: i64) -> (duration: i64)
    ensures
        duration == duration_of(started_ms, completed_ms),
{
    let difference: i128 = completed_ms as i128 - started_ms as i128;
    if difference <= 0 {
        0
    } else if difference > i64::MAX as i128 {
        i64::MAX
    } else {
        difference as i64
    }
}

impl ThreadItem {
    /// The same item.
    pub fn copy(&self) -> (item: ThreadItem)
        ensures
            item == *self,
    {
        match self {
            ThreadItem::UserMessage { id, client_id, text } => ThreadItem::UserMessage {
                id: id.clone(),
                client_id: crate::text::copy_opt_text(client_id),
                text: text.clone(),
            },
            ThreadItem::AgentMessage { id, text } => ThreadItem::AgentMessage {
                id: id.clone(),
                text: text.clone(),
            },
        }
    }
}

/// A synthetic turn that answers a slash command. It is announced by six notifications, in order:
/// the turn starts, the user's item starts and completes, the agent's item starts and completes, and
/// the turn completes.
#[derive(Clone, Debug, PartialEq, Eq)]
pub struct MobileSlashTurn {
    pub thread_id: String,
    pub turn_id: String,
    pub user_item: ThreadItem,
    pub agent_item: ThreadItem,
    pub started_at_ms: i64,
    pub completed_at_ms: Option<i64>,
    /// Notifications sent so far.
    pub sent: u8,
}

/// Ids of a synthetic turn and its items.
#[derive(Clone, Debug, PartialEq, Eq)]
pub struct SlashTurnIds {
    pub turn_id: String,
    pub user_item_id: String,
    pub agent_item_id: String,
}

/// What the user is shown to have sent: the text as it was, or the bare command.
pub open spec fn user_text(input: Seq<UserInput>, command: MobileSlashCommand) -> Seq<char> {
    match single_text(input) {
        Some(text) => text::trimmed(text),
        None => match command {
            MobileSlashCommand::Account => "/account"@,
            MobileSlashCommand::Status => "/status"@,
        },
    }
}

impl MobileSlashTurn {
    pub open spec fn is_started_turn(self, turn: Turn) -> bool {
        &&& turn.id@ == self.turn_id@
        &&& turn.items@ == Seq::<ThreadItem>::empty()
        &&& turn.items_view == TurnItemsView::NotLoaded
        &&& turn.status == TurnStatus::InProgress
        &&& turn.started_at == Some(seconds_of(self.started_at_ms) as i64)
        &&& turn.completed_at is None
        &&& turn.duration_ms is None
    }

    pub open spec fn is_completed_turn(self, turn: Turn, completed_at_ms: i64) -> bool {
        &&& turn.id@ == self.turn_id@
        &&& turn.items@ == seq![self.agent_item]
        &&& turn.items_view == TurnItemsView::Summary
        &&& turn.status == TurnStatus::Completed
        &&& turn.started_at == Some(seconds_of(self.started_at_ms) as i64)
        &&& turn.completed_at == Some(seconds_of(completed_at_ms) as i64)
        &&& turn.duration_ms == Some(duration_of(self.started_at_ms, completed_at_ms) as i64)
    }

    /// Whether a notification is the one at a given place in the order, sent at a given time.
    pub open spec fn is_notification(
        self,
        place: int,
        notification: ServerNotification,
        now_ms: i64,
    ) -> bool {
        if place == 0 {
            notification matches ServerNotification::TurnStarted { thread_id, turn } && thread_id@
                == self.thread_id@ && self.is_started_turn(turn)
        } else if place == 1 || place == 3 {
            notification matches ServerNotification::ItemStarted {
                item,
                thread_id,
                turn_id,
                started_at_ms,
            } && item == (if place == 1 {
                self.user_item
            } else {
                self.agent_item
            }) && thread_id@ == self.thread_id@ && turn_id@ == self.turn_id@ && started_at_ms
                == self.started_at_ms
        } else if place == 2 || place == 4 {
            notification matches ServerNotification::ItemCompleted {
                item,
                thread_id,
                turn_id,
                completed_at_ms,
            } && item == (if place == 2 {
                self.user_item
            } else {
                self.agent_item
            }) && thread_id@ == self.thread_id@ && turn_id@ == self.turn_id@ && completed_at_ms
                == now_ms
        } else {
            notification matches ServerNotification::TurnCompleted { thread_id, turn } && thread_id@
                == self.thread_id@ && self.is_completed_turn(turn, now_ms)
        }
    }

    /// Sets up the turn that answers a command with `agent_text`.
    pub fn begin(
        ids: SlashTurnIds,
        thread_id: String,
        client_id: Option<String>,
        input: &Vec<UserInput>,
        command: MobileSlashCommand,
        agent_text: String,
        started_at_ms: i64,
    ) -> (turn: Self)
        ensures
            turn.thread_id == thread_id,
            turn.turn_id == ids.turn_id,
            turn.user_item matches ThreadItem::UserMessage { id, client_id: client, text } && id
                == ids.user_item_id && client == client_id && text@ == user_text(input@, command),
            turn.agent_item == (ThreadItem::AgentMessage {
                id: ids.agent_item_id,
                text: agent_text,
            }),
            turn.started_at_ms == started_at_ms,
            turn.completed_at_ms is None,
            turn.sent == 0,
    {
        let text = match single_text_input(input) {
            Some(text) => trim(text),
            None => match command {
                MobileSlashCommand::Account => "/account".to_owned(),
                MobileSlashCommand::Status => "/status".to_owned(),
            },
        };
        MobileSlashTurn {
            thread_id,
            turn_id: ids.turn_id,
            user_item: ThreadItem::UserMessage { id: ids.user_item_id, client_id, text },
            agent_item: ThreadItem::AgentMessage { id: ids.agent_item_id, text: agent_text },
            started_at_ms,
            completed_at_ms: None,
            sent: 0,
        }
    }

    fn completed_turn(&self, completed_at_ms: i64) -> (turn: Turn)
        ensures
            self.is_completed_turn(turn, completed_at_ms),
    {
        let mut items: Vec<ThreadItem> = Vec::new();
        items.push(self.agent_item.copy());
        Turn {
            id: self.turn_id.clone(),
            items,
            items_view: TurnItemsView::Summary,
            status: TurnStatus::Completed,
            started_at: Some(whole_seconds(self.started_at_ms)),
            completed_at: Some(whole_seconds(completed_at_ms)),
            duration_ms: Some(duration_between(self.started_at_ms, completed_at_ms)),
        }
    }

    /// The turn after its next notification was sent.
    pub open spec fn after_notification(self, now_ms: i64) -> Self {
        MobileSlashTurn {
            sent: (self.sent + 1) as u8,
            completed_at_ms: if self.sent == 5 {
                Some(now_ms)
            } else {
                self.completed_at_ms
            },
            ..self
        }
    }

    /// The next notification, given the present time; none after the sixth.
    pub fn next_notification(&mut self, now_ms: i64) -> (notification: Option<ServerNotification>)
        ensures
            match notification {
                Some(notification) => {
                    &&& old(self).sent < 6
                    &&& old(self).is_notification(old(self).sent as int, notification, now_ms)
                    &&& *final(self) == old(self).after_notification(now_ms)
                },
                None => old(self).sent >= 6 && *final(self) == *old(self),
            },
    {
        if self.sent >= 6 {
            return None;
        }
        let place: u8 = self.sent;
        self.sent = self.sent + 1;
        if place == 0 {
            return Some(
                ServerNotification::TurnStarted {
                    thread_id: self.thread_id.clone(),
                    turn: Turn {
                        id: self.turn_id.clone(),
                        items: Vec::new(),
                        items_view: TurnItemsView::NotLoaded,
                        status: TurnStatus::InProgress,
                        started_at: Some(whole_seconds(self.started_at_ms)),
                        completed_at: None,
                        duration_ms: None,
                    },
                },
            );
        }
        if place == 5 {
            self.completed_at_ms = Some(now_ms);
            return Some(
                ServerNotification::TurnCompleted {
                    thread_id: self.thread_id.clone(),
                    turn: self.completed_turn(now_ms),
                },
            );
        }
        let item = if place <= 2 {
            self.user_item.copy()
        } else {
            self.agent_item.copy()
        };
        if place == 1 || place == 3 {
            Some(
                ServerNotification::ItemStarted {
                    item,
                    thread_id: self.thread_id.clone(),
                    turn_id: self.turn_id.clone(),
                    started_at_ms: self.started_at_ms,
                },
            )
        } else {
            Some(
                ServerNotification::ItemCompleted {
                    item,
                    thread_id: self.thread_id.clone(),
                    turn_id: self.turn_id.clone(),
                    completed_at_ms: now_ms,
                },
            )
        }
    }

    /// The turn that the request is answered with, once it is completed: the one that the last
    /// notification announced.
    pub fn response(&self) -> (turn: Option<Turn>)
        ensures
            match turn {
                Some(turn) => self.completed_at_ms is Some && self.is_completed_turn(
                    turn,
                    self.completed_at_ms->0,
                ),
                None => self.completed_at_ms is None,
            },
    {
        match self.completed_at_ms {
            Some(completed_at_ms) => Some(self.completed_turn(completed_at_ms)),
            None => None,
        }
    }
}

/// The request is answered with the very turn that the last notification announced.
pub proof fn law_answer_is_the_announced_turn(
    turn: MobileSlashTurn,
    notification: ServerNotification,
    answer: Turn,
    now_ms: i64,
)
    requires
        turn.is_notification(5, notification, now_ms),
        (MobileSlashTurn { sent: 6, completed_at_ms: Some(now_ms), ..turn }).is_completed_turn(
            answer,
            now_ms,
        ),
    ensures
        notification matches ServerNotification::TurnCompleted { turn: announced, .. } && {
            &&& announced.id@ == answer.id@
            &&& announced.items@ == answer.items@
            &&& announced.items_view == answer.items_view
            &&& announced.status == answer.status
            &&& announced.started_at == answer.started_at
            &&& announced.completed_at == answer.completed_at
            &&& announced.duration_ms == answer.duration_ms
        },
{
}

/// A synthetic turn is told in order: it starts, the user's words come and are complete, the answer
/// comes and is complete, and the turn is complete. Every step is about the same thread and turn,
/// and the finished turn holds the answer.
pub proof fn law_synthetic_turn_is_told_in_order(
    turn: MobileSlashTurn,
    place: int,
    notification: ServerNotification,
    now_ms: i64,
)
    requires
        0 <= place < 6,
        turn.is_notification(place, notification, now_ms),
    ensures
        notification is TurnStarted <==> place == 0,
        notification is ItemStarted <==> place == 1 || place == 3,
        notification is ItemCompleted <==> place == 2 || place == 4,
        notification is TurnCompleted <==> place == 5,
        notification matches ServerNotification::ItemStarted { item, thread_id, turn_id, .. } ==> (
        place == 1 ==> item == turn.user_item) && (place == 3 ==> item == turn.agent_item)
            && thread_id@ == turn.thread_id@ && turn_id@ == turn.turn_id@,
        notification matches ServerNotification::ItemCompleted { item, thread_id, turn_id, .. }
            ==> (place == 2 ==> item == turn.user_item) && (place == 4 ==> item
            == turn.agent_item) && thread_id@ == turn.thread_id@ && turn_id@ == turn.turn_id@,
        notification matches ServerNotification::TurnStarted { thread_id, turn: told } ==> thread_id@
            == turn.thread_id@ && told.id@ == turn.turn_id@ && told.status is InProgress
            && told.items@.len() == 0 && told.completed_at is None,
        notification matches ServerNotification::TurnCompleted { thread_id, turn: told }
            ==> thread_id@ == turn.thread_id@ && told.id@ == turn.turn_id@ && told.status
            is Completed && told.items@ == seq![turn.agent_item] && told.completed_at is Some,
{
}

/// A response that was named after the pool has the name on its Codex limits, wherever they stand,
/// and is otherwise the same: no entry comes, goes or changes its kind, and no usage is touched.
pub proof fn law_overlay_touches_names_alone(
    before: GetAccountRateLimitsResponse,
    after: GetAccountRateLimitsResponse,
    caption: Seq<char>,
    i: int,
)
    requires
        is_overlaid_response(before, after, caption),
    ensures
        after.account_id == before.account_id,
        after.rate_limits.primary == before.rate_limits.primary,
        after.rate_limits.secondary == before.rate_limits.secondary,
        before.rate_limits_by_limit_id is Some <==> after.rate_limits_by_limit_id is Some,
        before.rate_limits_by_limit_id matches Some(entries) ==> {
            let shown = after.rate_limits_by_limit_id->0@;
            &&& shown.len() == entries@.len()
            &&& 0 <= i < shown.len() ==> {
                &&& shown[i].limit_id == entries@[i].limit_id
                &&& shown[i].snapshot.limit_id == entries@[i].snapshot.limit_id
                &&& shown[i].snapshot.primary == entries@[i].snapshot.primary
                &&& shown[i].snapshot.secondary == entries@[i].snapshot.secondary
                &&& entries@[i].snapshot.limit_id is None || entries@[i].snapshot.limit_id->0@
                    == "codex"@ ==> shown[i].snapshot.limit_name is Some
                    && shown[i].snapshot.limit_name->0@ == caption
                &&& entries@[i].snapshot.limit_id is Some && entries@[i].snapshot.limit_id->0@
                    != "codex"@ ==> shown[i].snapshot.limit_name
                    == entries@[i].snapshot.limit_name
            }
        },
{
}

/// The answer to an account command begins with the summary of the pool, and tells how to switch
/// exactly where there is a pool to switch in.
pub proof fn law_account_reply_is_the_summary(
    pool: AccountPoolReadResponse,
    cooldowns: Seq<String>,
)
    ensures
        !pool.enabled ==> account_reply_text(pool, cooldowns) == summary_text(pool, cooldowns),
        pool.enabled ==> summary_text(pool, cooldowns).is_prefix_of(
            account_reply_text(pool, cooldowns),
        ),
        pool.enabled
            ==> "\n\nSwitch profiles on the host with `codex account use \"<label-or-id>\"`."@.is_suffix_of(
            account_reply_text(pool, cooldowns),
        ),
{
    let summary = summary_text(pool, cooldowns);
    let reply = account_reply_text(pool, cooldowns);
    if pool.enabled {
        assert(reply.subrange(0, summary.len() as int) =~= summary);
    } else {
        assert(reply =~= summary);
    }
}

/// The clock is told in milliseconds as it stands, and as zero where it cannot be read.
pub proof fn law_clock_is_told_as_it_stands(millis: Option<u128>)
    ensures
        millis is None ==> timestamp_of(millis) == 0,
        millis matches Some(read) ==> (read <= i64::MAX ==> timestamp_of(millis) == read),
{
}

} // verus!
