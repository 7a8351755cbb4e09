//! Account commands of mobile clients: what a command asks for, and how it is answered.
use vstd::prelude::*;

use crate::account_config;
use crate::account_config::strategy_named;
use crate::config::AccountPoolRotationStrategy;
use crate::mobile_account_bridge;
use crate::mobile_account_bridge::MobileSlashCommand;
use crate::mobile_account_status;
use crate::mobile_account_status::check_page;
use crate::mobile_account_status::find_active;
use crate::mobile_account_status::label;
use crate::mobile_account_status::resolve;
use crate::protocol::AccountPoolReadResponse;
use crate::text;
use crate::text::parse_usize;
use crate::text::same_text;
use crate::text::split_at_white;
use crate::text::strip_leading;
use crate::text::to_ascii_lowercase;
use crate::text::trim;
use crate::text::trim_start;

verus! {

/// What a command asks the host to do.
#[derive(Clone, Debug, PartialEq, Eq)]
pub enum MobileAccountAction {
    /// Answer with a text that needs nothing further.
    Reply { text: String },
    /// Refresh the quota of the accounts, and list a page of them.
    List { page: usize },
    /// Refresh the quota of the accounts, and show one of them.
    Show { selector: String },
    /// Select an account, or let the scheduler select one.
    Use { profile_id: Option<String> },
    /// Tell which rotation strategy is in effect.
    ShowStrategy,
    /// Store a rotation strategy.
    SetStrategy { strategy: AccountPoolRotationStrategy },
}

/// What follows the name of a slash command.
pub open spec fn arguments(s: Seq<char>) -> Seq<char> {
    text::trimmed(text::after_white(mobile_account_bridge::after_slashes(s)))
}

/// The first of the arguments, in lower case.
pub open spec fn verb_of(arguments: Seq<char>) -> Seq<char> {
    text::lowered(text::before_white(arguments))
}

/// What follows the first of the arguments.
pub open spec fn value_of(arguments: Seq<char>) -> Seq<char> {
    text::trimmed(text::after_white(arguments))
}

/// The page that a list command asks for; the first where it names none.
pub open spec fn page_of(value: Seq<char>) -> Option<nat> {
    if value.len() == 0 {
        Some(1)
    } else {
        match text::unsigned(value) {
            Some(page) => if 1 <= page <= usize::MAX {
                Some(page)
            } else {
                None
            },
            None => None,
        }
    }
}

/// The name under which a strategy is shown.
pub open spec fn strategy_name(strategy: AccountPoolRotationStrategy) -> Seq<char> {
    match strategy {
        AccountPoolRotationStrategy::FillFirst => "fill-first"@,
        AccountPoolRotationStrategy::EarliestReset => "earliest-reset"@,
    }
}

/// What the help command is answered.
pub open spec fn help_text() -> Seq<char> {
    "/account list [page]\n/account show <label>\n/account use <label>\n/account auto\n/account strategy [fill-first|earliest-reset]\nQuote names containing spaces. Selection does not permanently pin an account."@
}

/// What every command is answered where there is no pool.
pub open spec fn not_configured_text() -> Seq<char> {
    "Account pool is not configured. Add accounts on the host with `codex account add`."@
}

/// Whether a command with the given verb lists accounts.
pub open spec fn lists_accounts(command: MobileSlashCommand, verb: Seq<char>) -> bool {
    command == MobileSlashCommand::Status || verb.len() == 0 || verb == "list"@
}

/// Whether `action` is what the arguments of a command ask for in an enabled pool. An error is the
/// text that the command is answered.
pub open spec fn is_asked_for(
    pool: AccountPoolReadResponse,
    command: MobileSlashCommand,
    arguments: Seq<char>,
    action: Result<MobileAccountAction, String>,
) -> bool {
    let verb = verb_of(arguments);
    let value = value_of(arguments);
    let pages = mobile_account_status::page_count(pool.accounts@.len());
    let resolution = mobile_account_status::resolution(pool, value);
    if command == MobileSlashCommand::Status && arguments.len() > 0 {
        action matches Err(message) && message@ == "Usage: /status. For accounts, use /account."@
    } else if lists_accounts(command, verb) {
        match page_of(value) {
            None => action matches Err(message) && message@ == "Usage: /account list <page>"@,
            Some(page) => if page <= pages {
                action matches Ok(MobileAccountAction::List { page: asked }) && asked == page
            } else {
                action matches Err(message) && message@ == mobile_account_status::page_range_text(
                    pages,
                )
            },
        }
    } else if verb == "show"@ {
        match resolution {
            Ok(_) => action matches Ok(MobileAccountAction::Show { selector }) && selector@ == value,
            Err(error) => action matches Err(message) && message@ == error.text(),
        }
    } else if verb == "use"@ {
        match resolution {
            Ok(index) => action matches Ok(MobileAccountAction::Use { profile_id: Some(id) }) && id@
                == pool.accounts@[index].profile_id@,
            Err(error) => action matches Err(message) && message@ == error.text(),
        }
    } else if verb == "auto"@ {
        if value.len() == 0 {
            action matches Ok(MobileAccountAction::Use { profile_id: None })
        } else {
            action matches Err(message) && message@ == "Usage: /account auto"@
        }
    } else if verb == "strategy"@ {
        if value.len() == 0 {
            action matches Ok(MobileAccountAction::ShowStrategy)
        } else {
            match account_config::named_strategy(value) {
                Some(strategy) => action matches Ok(
                    MobileAccountAction::SetStrategy { strategy: asked },
                ) && asked == strategy,
                None => action matches Err(message) && message@
                    == "Usage: /account strategy [fill-first|earliest-reset]"@,
            }
        }
    } else if verb == "help"@ && value.len() == 0 {
        action matches Ok(MobileAccountAction::Reply { text }) && text@ == help_text()
    } else {
        action matches Err(message) && message@ == "Unknown /account command. Use /account help."@
    }
}

fn listing(pool: &AccountPoolReadResponse, value: &str) -> (action: Result<
    MobileAccountAction,
    String,
>)
    ensures
        match page_of(value@) {
            None => action matches Err(message) && message@ == "Usage: /account list <page>"@,
            Some(page) => if page <= mobile_account_status::page_count(pool.accounts@.len()) {
                action matches Ok(MobileAccountAction::List { page: asked }) && asked == page
            } else {
                action matches Err(message) && message@ == mobile_account_status::page_range_text(
                    mobile_account_status::page_count(pool.accounts@.len()),
                )
            },
        },
{
    let page: usize = if value.is_empty() {
        1
    } else {
        match parse_usize(value) {
            Some(page) => page,
            None => 0,
        }
    };
    if page == 0 {
        return Err("Usage: /account list <page>".to_owned());
    }
    match check_page(pool, page) {
        Ok(()) => Ok(MobileAccountAction::List { page }),
        Err(message) => Err(message),
    }
}

fn rotation(value: &str) -> (action: Result<MobileAccountAction, String>)
    ensures
        if value@.len() == 0 {
            action matches Ok(MobileAccountAction::ShowStrategy)
        } else {
            match account_config::named_strategy(value@) {
                Some(strategy) => action matches Ok(
                    MobileAccountAction::SetStrategy { strategy: asked },
                ) && asked == strategy,
                None => action matches Err(message) && message@
                    == "Usage: /account strategy [fill-first|earliest-reset]"@,
            }
        },
{
    if value.is_empty() {
        return Ok(MobileAccountAction::ShowStrategy);
    }
    match strategy_named(value) {
        Some(strategy) => Ok(MobileAccountAction::SetStrategy { strategy }),
        None => Err("Usage: /account strategy [fill-first|earliest-reset]".to_owned()),
    }
}

/// Whether `action` is what a slash command asks for in a pool, enabled or not.
pub open spec fn is_action_of(
    pool: AccountPoolReadResponse,
    command: MobileSlashCommand,
    text: Seq<char>,
    action: Result<MobileAccountAction, String>,
) -> bool {
    if !pool.enabled {
        action matches Ok(MobileAccountAction::Reply { text: reply }) && reply@
            == not_configured_text()
    } else {
        is_asked_for(pool, command, arguments(text), action)
    }
}

/// What a slash command asks for. `text` is the whole command as it was sent. Names and page numbers
/// are checked here, before anything is refreshed or changed on their account.
pub fn mobile_account_action(
    pool: &AccountPoolReadResponse,
    command: MobileSlashCommand,
    text: &str,
) -> (action: Result<MobileAccountAction, String>)
    ensures
        is_action_of(*pool, command, text@, action),
{
    let rest = trim_start(strip_leading(trim(text).as_str(), '/').as_str());
    let (_, after_name) = split_at_white(rest.as_str());
    let args = trim(after_name.as_str());
    if !pool.enabled {
        return Ok(
            MobileAccountAction::Reply {
                text:
                    "Account pool is not configured. Add accounts on the host with `codex account add`.".to_owned(),
            },
        );
    }
    let (first, after_first) = split_at_white(args.as_str());
    let verb = to_ascii_lowercase(first.as_str());
    let value = trim(after_first.as_str());
    match command {
        MobileSlashCommand::Status => {
            if !args.as_str().is_empty() {
                return Err("Usage: /status. For accounts, use /account.".to_owned());
            }
            proof {
                lemma_nothing_in_nothing(args@);
            }
            listing(pool, value.as_str())
        },
        MobileSlashCommand::Account => {
            let verb = verb.as_str();
            if verb.is_empty() || same_text(verb, "list") {
                listing(pool, value.as_str())
            } else if same_text(verb, "show") {
                match resolve(pool, value.as_str()) {
                    Ok(_) => Ok(MobileAccountAction::Show { selector: value }),
                    Err(message) => Err(message),
                }
            } else if same_text(verb, "use") {
                match resolve(pool, value.as_str()) {
                    Ok(account) => Ok(
                        MobileAccountAction::Use { profile_id: Some(account.profile_id.clone()) },
                    ),
                    Err(message) => Err(message),
                }
            } else if same_text(verb, "auto") {
                if value.as_str().is_empty() {
                    Ok(MobileAccountAction::Use { profile_id: None })
                } else {
                    Err("Usage: /account auto".to_owned())
                }
            } else if same_text(verb, "strategy") {
                rotation(value.as_str())
            } else if same_text(verb, "help") && value.as_str().is_empty() {
                Ok(
                    MobileAccountAction::Reply {
                        text:
                            "/account list [page]\n/account show <label>\n/account use <label>\n/account auto\n/account strategy [fill-first|earliest-reset]\nQuote names containing spaces. Selection does not permanently pin an account.".to_owned(),
                    },
                )
            } else {
                Err("Unknown /account command. Use /account help.".to_owned())
            }
        },
    }
}

proof fn lemma_nothing_in_nothing(arguments: Seq<char>)
    requires
        arguments.len() == 0,
    ensures
        value_of(arguments).len() == 0,
{
}

/// What is said after an account was selected.
pub open spec fn selected_text(pool: AccountPoolReadResponse) -> Seq<char> {
    "Selected: "@ + (match mobile_account_status::active_account(pool.accounts@) {
        Some(index) => mobile_account_status::label_text(pool.accounts@[index]),
        None => "Account"@,
    }) + "\nApplies to subsequent requests; automatic failover remains enabled."@
}

/// What is said after an account was selected; `pool` is the pool after the selection.
pub fn selected_reply(pool: &AccountPoolReadResponse) -> (reply: String)
    ensures
        reply@ == selected_text(*pool),
{
    let mut reply = "Selected: ".to_owned();
    match find_active(&pool.accounts) {
        Some(index) => {
            reply.append(label(&pool.accounts[index]).as_str());
        },
        None => {
            reply.append("Account");
        },
    }
    reply.append("\nApplies to subsequent requests; automatic failover remains enabled.");
    reply
}

/// What is said of the rotation strategy. `requested` is the one that was just stored.
pub open spec fn strategy_text(
    requested: Option<AccountPoolRotationStrategy>,
    effective: AccountPoolRotationStrategy,
) -> Seq<char> {
    if requested is Some && requested->0 != effective {
        "Saved, but overridden by a higher-priority configuration. Use /account strategy to see the effective strategy."@
    } else {
        "Strategy: "@ + strategy_name(effective)
            + "\nUsed at the next automatic selection. Select now: /account auto"@
    }
}

/// What is said of the rotation strategy. `requested` is the one that was just stored, and
/// `effective` the one that the configuration then comes to.
pub fn strategy_reply(
    requested: Option<AccountPoolRotationStrategy>,
    effective: AccountPoolRotationStrategy,
) -> (reply: String)
    ensures
        reply@ == strategy_text(requested, effective),
{
    match requested {
        Some(requested) => {
            if requested != effective {
                return "Saved, but overridden by a higher-priority configuration. Use /account strategy to see the effective strategy.".to_owned();
            }
        },
        None => {},
    }
    let mut reply = "Strategy: ".to_owned();
    match effective {
        AccountPoolRotationStrategy::FillFirst => {
            reply.append("fill-first");
        },
        AccountPoolRotationStrategy::EarliestReset => {
            reply.append("earliest-reset");
        },
    }
    reply.append("\nUsed at the next automatic selection. Select now: /account auto");
    reply
}

/// The thread that a slash command was sent to.
#[derive(Clone, Debug, PartialEq, Eq)]
pub enum SlashTurnThread {
    /// Its id cannot be read; `reason` says why.
    InvalidId { reason: String },
    /// No thread has this id.
    NotFound { thread_id: String },
    /// The thread takes no direct input; `reason` says why.
    InputRefused { reason: String },
    /// The thread takes input, and has a turn that is running or has none.
    Open { turn_running: bool },
}

/// Whether a command in a thread is answered by a synthetic turn, or by why it is not.
pub open spec fn is_admission(thread: SlashTurnThread, admitted: Result<(), String>) -> bool {
    match thread {
        SlashTurnThread::InvalidId { reason } => admitted matches Err(message) && message@
            == "invalid thread id: "@ + reason@,
        SlashTurnThread::NotFound { thread_id } => admitted matches Err(message) && message@
            == "thread not found: "@ + thread_id@,
        SlashTurnThread::InputRefused { reason } => admitted matches Err(message) && message@
            == reason@,
        SlashTurnThread::Open { turn_running: true } => admitted matches Err(message) && message@
            == "A turn is running. Open the Status panel or wait for it to finish."@,
        SlashTurnThread::Open { turn_running: false } => admitted is Ok,
    }
}

/// Whether a synthetic turn may answer a command in a thread; why not otherwise. A synthetic turn
/// never replaces a running one.
pub fn admit_slash_turn(thread: &SlashTurnThread) -> (admitted: Result<(), String>)
    ensures
        is_admission(*thread, admitted),
{
    match thread {
        SlashTurnThread::InvalidId { reason } => {
            let mut message = "invalid thread id: ".to_owned();
            message.append(reason.as_str());
            Err(message)
        },
        SlashTurnThread::NotFound { thread_id } => {
            let mut message = "thread not found: ".to_owned();
            message.append(thread_id.as_str());
            Err(message)
        },
        SlashTurnThread::InputRefused { reason } => Err(reason.clone()),
        SlashTurnThread::Open { turn_running } => if *turn_running {
            Err("A turn is running. Open the Status panel or wait for it to finish.".to_owned())
        } else {
            Ok(())
        },
    }
}

/// The name under which a strategy is shown stands for that strategy.
pub proof fn law_shown_strategy_can_be_set(strategy: AccountPoolRotationStrategy)
    ensures
        account_config::named_strategy(strategy_name(strategy)) == Some(strategy),
{
    reveal_strlit("fill-first");
    reveal_strlit("fill_first");
    reveal_strlit("earliest-reset");
    reveal_strlit("earliest_reset");
    assert("earliest-reset"@.len() == 14);
    assert("fill-first"@.len() == 10 && "fill_first"@.len() == 10);
}

/// The status command only ever lists the first page: it changes nothing.
pub proof fn law_status_only_lists(
    pool: AccountPoolReadResponse,
    arguments: Seq<char>,
    action: Result<MobileAccountAction, String>,
)
    requires
        is_asked_for(pool, MobileSlashCommand::Status, arguments, action),
    ensures
        action is Ok <==> arguments.len() == 0,
        action is Ok ==> action->Ok_0 == (MobileAccountAction::List { page: 1 }),
{
    if arguments.len() == 0 {
        lemma_nothing_in_nothing(arguments);
    }
}

/// A command is only acted on where what it names exists: a page that is there, or an account of the
/// pool. A command whose names are wrong refreshes and changes nothing.
pub proof fn law_only_what_exists_is_acted_on(
    pool: AccountPoolReadResponse,
    command: MobileSlashCommand,
    arguments: Seq<char>,
    action: Result<MobileAccountAction, String>,
)
    requires
        is_asked_for(pool, command, arguments, action),
    ensures
        action matches Ok(MobileAccountAction::List { page }) ==> 1 <= page
            <= mobile_account_status::page_count(pool.accounts@.len()),
        action matches Ok(MobileAccountAction::Show { selector })
            ==> mobile_account_status::resolution(pool, selector@) is Ok,
        action matches Ok(MobileAccountAction::Use { profile_id: Some(id) }) ==> exists|i: int|
            0 <= i < pool.accounts@.len() && (#[trigger] pool.accounts@[i]).profile_id@ == id@,
{
    let value = value_of(arguments);
    match mobile_account_status::selector_name(value) {
        Ok(name) => {
            mobile_account_status::law_selection_is_never_a_guess(pool.accounts@, name);
        },
        Err(_) => {},
    }
}

} // verus!
