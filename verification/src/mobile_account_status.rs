//! Bounded account views for narrow mobile surfaces. Quota values are observations, not balances.
use vstd::prelude::*;

use crate::order;
use crate::order::shown_order;
use crate::order::SortKey;
use crate::percent::Percent;
use crate::protocol::AccountPoolAccount;
use crate::protocol::AccountPoolAvailability;
use crate::protocol::AccountPoolRateLimitWindow;
use crate::protocol::AccountPoolReadResponse;
use crate::protocol::AccountPoolWindowWarmupOutcome;
use crate::protocol::RateLimitSnapshot;
use crate::seqs;
use crate::text;
use crate::text::all_whitespace;
use crate::text::chars_of;
use crate::text::decimal;
use crate::text::same_text;
use crate::text::string_of;
use crate::text::trim;
use crate::time;
use crate::time::month_day_minute;
use crate::time::UtcTime;

verus! {

/// Accounts on one page of the list.
pub const PAGE_SIZE: usize = 4;

/// Seconds after which an observation counts as cached.
pub const FRESH_SECONDS: i128 = 120;

/// Times of one account as the host words them, relative to the present, such as "in 3h" or, for the
/// reset of an idle window, "not started".
#[derive(Clone, Debug, PartialEq, Eq)]
pub struct AccountTimeTexts {
    /// End of the cooldown.
    pub cooldown: String,
    /// Reset of the primary window.
    pub primary_reset: String,
}

/// A character with line breaks, tabs and markup turned into blanks.
pub open spec fn softened(c: char) -> char {
    if c == '\n' || c == '\r' || c == '\t' || c == '`' || c == '*' || c == '_' || c == '[' || c
        == ']' || c == '<' || c == '>' || c == '\\' {
        ' '
    } else {
        c
    }
}

/// Whether a character is never shown: control characters, and those that change the direction of
/// text.
pub open spec fn is_hidden(c: char) -> bool {
    ||| c as u32 <= 0x1F
    ||| 0x7F <= c as u32 <= 0x9F
    ||| 0x202A <= c as u32 <= 0x202E
    ||| 0x2066 <= c as u32 <= 0x2069
}

/// A text with markup softened and hidden characters left out.
pub open spec fn clean(s: Seq<char>) -> Seq<char> {
    Seq::new(s.len(), |i: int| softened(s[i])).filter(|c: char| !is_hidden(c))
}

/// A clean text of at most `max` characters; an ellipsis marks what was cut off.
pub open spec fn compact(s: Seq<char>, max: nat) -> Seq<char> {
    if clean(s).len() > max {
        clean(s).take(max as int).push('…')
    } else {
        clean(s)
    }
}

fn soften(c: char) -> (soft: char)
    ensures
        soft == softened(c),
{
    match c {
        '\n' | '\r' | '\t' | '`' | '*' | '_' | '[' | ']' | '<' | '>' | '\\' => ' ',
        other => other,
    }
}

fn hidden(c: char) -> (hide: bool)
    ensures
        hide == is_hidden(c),
{
    let code: u32 = c as u32;
    code <= 0x1F || (0x7F <= code && code <= 0x9F) || (0x202A <= code && code <= 0x202E) || (0x2066
        <= code && code <= 0x2069)
}

/// A clean text of at most `max` characters; an ellipsis marks what was cut off.
pub fn compact_label(text: &str, max: usize) -> (label: String)
    ensures
        label@ == compact(text@, max as nat),
{
    let chars = chars_of(text);
    let ghost soft = Seq::new(text@.len(), |i: int| softened(text@[i]));
    let ghost shown = |c: char| !is_hidden(c);
    let mut kept: Vec<char> = Vec::new();
    let mut i: usize = 0;
    assert(soft.take(0).filter(shown) =~= Seq::empty()) by {
        reveal(Seq::filter);
    }
    while i < chars.len()
        invariant
            i <= chars@.len(),
            chars@ == text@,
            soft == Seq::new(text@.len(), |i: int| softened(text@[i])),
            shown == (|c: char| !is_hidden(c)),
            kept@ == soft.take(i as int).filter(shown),
        decreases chars@.len() - i,
    {
        proof {
            assert(soft.take(i as int + 1).drop_last() =~= soft.take(i as int));
            reveal(Seq::filter);
        }
        let c = soften(chars[i]);
        if !hidden(c) {
            kept.push(c);
        }
        i = i + 1;
    }
    assert(soft.take(soft.len() as int) =~= soft);
    assert(kept@ == clean(text@));
    if kept.len() > max {
        let mut label = string_of(&kept, 0, max);
        label.push('…');
        assert(kept@.subrange(0, max as int) =~= kept@.take(max as int));
        label
    } else {
        assert(kept@.subrange(0, kept@.len() as int) =~= kept@);
        string_of(&kept, 0, kept.len())
    }
}

/// The name that an account is known by: its label, or its email, or "Account".
pub open spec fn known_as(account: AccountPoolAccount) -> Seq<char> {
    if account.label is Some && !text::is_blank(account.label->0@) {
        account.label->0@
    } else {
        text::text_or(account.email, "Account"@)
    }
}

/// The name under which an account is shown.
pub open spec fn label_text(account: AccountPoolAccount) -> Seq<char> {
    compact(known_as(account), 32)
}

/// The name under which an account is shown.
pub fn label(account: &AccountPoolAccount) -> (shown: String)
    ensures
        shown@ == label_text(*account),
{
    let own_label = match &account.label {
        Some(label) => !all_whitespace(label.as_str()),
        None => false,
    };
    if own_label {
        match &account.label {
            Some(label) => compact_label(label.as_str(), 32),
            None => String::new(),
        }
    } else {
        match &account.email {
            Some(email) => compact_label(email.as_str(), 32),
            None => compact_label("Account", 32),
        }
    }
}

/// Number of accounts that can be scheduled.
pub open spec fn ready_count(accounts: Seq<AccountPoolAccount>) -> nat {
    seqs::sum_by(
        accounts,
        |account: AccountPoolAccount|
            if account.availability is Available {
                1
            } else {
                0
            },
    )
}

fn count_ready(accounts: &Vec<AccountPoolAccount>) -> (ready: usize)
    ensures
        ready == ready_count(accounts@),
        ready <= accounts@.len(),
{
    let mut ready: usize = 0;
    let mut i: usize = 0;
    while i < accounts.len()
        invariant
            i <= accounts@.len(),
            ready <= i,
            ready == ready_count(accounts@.take(i as int)),
        decreases accounts@.len() - i,
    {
        assert(accounts@.take(i as int + 1).drop_last() =~= accounts@.take(i as int));
        match &accounts[i].availability {
            AccountPoolAvailability::Available => {
                ready = ready + 1;
            },
            _ => {},
        }
        i = i + 1;
    }
    assert(accounts@.take(accounts@.len() as int) =~= accounts@);
    ready
}

/// Whether an account is active.
pub open spec fn is_current() -> spec_fn(AccountPoolAccount) -> bool {
    |account: AccountPoolAccount| account.is_active
}

/// Position of the first active account.
pub open spec fn active_account(accounts: Seq<AccountPoolAccount>) -> Option<int> {
    seqs::first_where(accounts, is_current())
}

/// Position of the first active account.
pub fn find_active(accounts: &Vec<AccountPoolAccount>) -> (found: Option<usize>)
    ensures
        match found {
            Some(index) => index < accounts@.len() && active_account(accounts@) == Some(
                index as int,
            ),
            None => active_account(accounts@) is None,
        },
{
    let ghost active = is_current();
    let mut i: usize = 0;
    while i < accounts.len()
        invariant
            i <= accounts@.len(),
            active == is_current(),
            forall|j: int| 0 <= j < i ==> !active(#[trigger] accounts@[j]),
        decreases accounts@.len() - i,
    {
        if accounts[i].is_active {
            proof {
                seqs::lemma_first_where_is(accounts@, active, i as int);
            }
            return Some(i);
        }
        i = i + 1;
    }
    proof {
        seqs::lemma_first_where(accounts@, active);
    }
    None
}

/// How many of the accounts are ready, under a name.
pub open spec fn readiness_text(name: Seq<char>, accounts: Seq<AccountPoolAccount>) -> Seq<char> {
    name + " · "@ + text::spec_decimal(ready_count(accounts)) + "/"@ + text::spec_decimal(
        accounts.len(),
    ) + " ready"@
}

fn readiness(name: &str, accounts: &Vec<AccountPoolAccount>) -> (caption: String)
    ensures
        caption@ == readiness_text(name@, accounts@),
{
    let ready: usize = count_ready(accounts);
    let mut caption = name.to_owned();
    caption.append(" · ");
    caption.append(decimal(ready as u64).as_str());
    caption.append("/");
    caption.append(decimal(accounts.len() as u64).as_str());
    caption.append(" ready");
    caption
}

/// The caption of an enabled pool: the active account, and how many accounts are ready.
pub open spec fn pool_caption_text(pool: AccountPoolReadResponse) -> Seq<char> {
    readiness_text(
        match active_account(pool.accounts@) {
            Some(i) => compact(label_text(pool.accounts@[i]), 16),
            None => "Codex"@,
        },
        pool.accounts@,
    )
}

/// The caption of a pool; none where it is not enabled.
pub fn pool_caption(pool: &AccountPoolReadResponse) -> (caption: Option<String>)
    ensures
        match caption {
            Some(caption) => pool.enabled && caption@ == pool_caption_text(*pool),
            None => !pool.enabled,
        },
{
    if !pool.enabled {
        return None;
    }
    let name = match find_active(&pool.accounts) {
        Some(index) => compact_label(label(&pool.accounts[index]).as_str(), 16),
        None => "Codex".to_owned(),
    };
    Some(readiness(name.as_str(), &pool.accounts))
}

/// The caption of the limits that the scheduler watches over: how many accounts are ready.
pub fn limit_caption(pool: &AccountPoolReadResponse) -> (caption: Option<String>)
    ensures
        match caption {
            Some(caption) => pool.enabled && caption@ == readiness_text("Codex"@, pool.accounts@),
            None => !pool.enabled,
        },
{
    if pool.enabled {
        Some(readiness("Codex", &pool.accounts))
    } else {
        None
    }
}

/// What is said of a pool, enabled or not.
pub open spec fn account_caption_text(pool: AccountPoolReadResponse) -> Seq<char> {
    if pool.enabled {
        pool_caption_text(pool)
    } else {
        "Account pool is not configured."@
    }
}

pub fn account_caption(pool: &AccountPoolReadResponse) -> (caption: String)
    ensures
        caption@ == account_caption_text(*pool),
{
    match pool_caption(pool) {
        Some(caption) => caption,
        None => "Account pool is not configured.".to_owned(),
    }
}

/// Limits after a caption was laid over them: those of Codex are named by the caption, others keep
/// their name. Nothing else changes.
pub open spec fn is_overlaid(
    before: RateLimitSnapshot,
    after: RateLimitSnapshot,
    caption: Seq<char>,
) -> bool {
    if before.limit_id is None || before.limit_id->0@ == "codex"@ {
        &&& after.limit_name is Some
        &&& after.limit_name->0@ == caption
        &&& after == (RateLimitSnapshot { limit_name: after.limit_name, ..before })
    } else {
        after == before
    }
}

pub fn overlay_snapshot(snapshot: &mut RateLimitSnapshot, caption: &str)
    ensures
        is_overlaid(*old(snapshot), *final(snapshot), caption@),
{
    let codex = match &snapshot.limit_id {
        Some(id) => same_text(id.as_str(), "codex"),
        None => true,
    };
    if codex {
        snapshot.limit_name = Some(caption.to_owned());
    }
}

/// Why a selector names no account.
#[derive(Clone, Copy, Debug, PartialEq, Eq, Structural)]
pub enum SelectorError {
    UnclosedQuote,
    Empty,
    NotFound,
    Ambiguous,
}

impl SelectorError {
    pub open spec fn text(self) -> Seq<char> {
        match self {
            SelectorError::UnclosedQuote => "Close the quoted account name."@,
            SelectorError::Empty => "Specify an account: /account use <label>"@,
            SelectorError::NotFound => "Account not found. Use /account to see available names."@,
            SelectorError::Ambiguous =>
                "Ambiguous account name. Use its exact profile ID from `codex account list` on the host."@,
        }
    }

    pub fn message(&self) -> (message: String)
        ensures
            message@ == self.text(),
    {
        match self {
            SelectorError::UnclosedQuote => "Close the quoted account name.".to_owned(),
            SelectorError::Empty => "Specify an account: /account use <label>".to_owned(),
            SelectorError::NotFound =>
                "Account not found. Use /account to see available names.".to_owned(),
            SelectorError::Ambiguous =>
                "Ambiguous account name. Use its exact profile ID from `codex account list` on the host.".to_owned(),
        }
    }
}

/// Whether a selector starts with a quotation mark.
pub open spec fn is_quoted(selector: Seq<char>) -> bool {
    selector.len() > 0 && (selector[0] == '"' || selector[0] == '\'')
}

/// The name that a selector stands for: the selector without surrounding white space and quotation
/// marks.
pub open spec fn selector_name(selector: Seq<char>) -> Result<Seq<char>, SelectorError> {
    let bare = text::trimmed(selector);
    let name = if is_quoted(bare) {
        bare.subrange(1, bare.len() - 1)
    } else {
        bare
    };
    if is_quoted(bare) && !(bare.len() >= 2 && bare.last() == bare[0]) {
        Err(SelectorError::UnclosedQuote)
    } else if name.len() == 0 {
        Err(SelectorError::Empty)
    } else {
        Ok(name)
    }
}

/// Whether an account answers to a name: its label, its email or the name under which it is shown.
pub open spec fn answers_to(account: AccountPoolAccount, name: Seq<char>) -> bool {
    ||| text::opt_text(account.label) == Some(name)
    ||| text::opt_text(account.email) == Some(name)
    ||| label_text(account) == name
}

/// The accounts with a profile id.
pub open spec fn has_id(id: Seq<char>) -> spec_fn(AccountPoolAccount) -> bool {
    |account: AccountPoolAccount| account.profile_id@ == id
}

/// The accounts that answer to a name.
pub open spec fn answers(name: Seq<char>) -> spec_fn(AccountPoolAccount) -> bool {
    |account: AccountPoolAccount| answers_to(account, name)
}

/// The account that a name selects: the one with that id, else the only one that answers to it.
pub open spec fn selected(accounts: Seq<AccountPoolAccount>, name: Seq<char>) -> Result<
    int,
    SelectorError,
> {
    match seqs::first_where(accounts, has_id(name)) {
        Some(i) => Ok(i),
        None => match seqs::first_where(accounts, answers(name)) {
            Some(i) => if exists|j: int|
                i < j < accounts.len() && answers_to(#[trigger] accounts[j], name) {
                Err(SelectorError::Ambiguous)
            } else {
                Ok(i)
            },
            None => Err(SelectorError::NotFound),
        },
    }
}

/// What a selector comes to.
pub open spec fn resolution(pool: AccountPoolReadResponse, selector: Seq<char>) -> Result<
    int,
    SelectorError,
> {
    match selector_name(selector) {
        Ok(name) => selected(pool.accounts@, name),
        Err(error) => Err(error),
    }
}

fn name_of_selector(selector: &str) -> (name: Result<String, SelectorError>)
    ensures
        match name {
            Ok(name) => selector_name(selector@) == Ok::<Seq<char>, SelectorError>(name@),
            Err(error) => selector_name(selector@) == Err::<Seq<char>, SelectorError>(error),
        },
{
    let bare = trim(selector);
    let chars = chars_of(bare.as_str());
    if chars.len() > 0 && (chars[0] == '"' || chars[0] == '\'') {
        if chars.len() < 2 || chars[chars.len() - 1] != chars[0] {
            return Err(SelectorError::UnclosedQuote);
        }
        if chars.len() == 2 {
            return Err(SelectorError::Empty);
        }
        Ok(string_of(&chars, 1, chars.len() - 1))
    } else if chars.len() == 0 {
        Err(SelectorError::Empty)
    } else {
        Ok(bare)
    }
}

fn account_answers(account: &AccountPoolAccount, name: &String) -> (does: bool)
    ensures
        does == answers_to(*account, name@),
{
    let by_label = match &account.label {
        Some(label) => *label == *name,
        None => false,
    };
    let by_email = match &account.email {
        Some(email) => *email == *name,
        None => false,
    };
    by_label || by_email || label(account) == *name
}

fn select(accounts: &Vec<AccountPoolAccount>, name: &String) -> (found: Result<
    usize,
    SelectorError,
>)
    ensures
        match found {
            Ok(index) => index < accounts@.len() && selected(accounts@, name@) == Ok::<
                int,
                SelectorError,
            >(index as int),
            Err(error) => selected(accounts@, name@) == Err::<int, SelectorError>(error),
        },
{
    let ghost by_id = has_id(name@);
    let ghost by_name = answers(name@);
    let mut i: usize = 0;
    while i < accounts.len()
        invariant
            i <= accounts@.len(),
            by_id == has_id(name@),
            forall|j: int| 0 <= j < i ==> !by_id(#[trigger] accounts@[j]),
        decreases accounts@.len() - i,
    {
        if accounts[i].profile_id == *name {
            proof {
                seqs::lemma_first_where_is(accounts@, by_id, i as int);
            }
            return Ok(i);
        }
        i = i + 1;
    }
    proof {
        seqs::lemma_first_where(accounts@, by_id);
    }
    let mut first: Option<usize> = None;
    i = 0;
    while i < accounts.len()
        invariant
            i <= accounts@.len(),
            by_id == has_id(name@),
            by_name == answers(name@),
            seqs::first_where(accounts@, by_id) is None,
            match first {
                Some(index) => index < i && by_name(accounts@[index as int]) && forall|j: int|
                    0 <= j < i && j != index ==> !by_name(#[trigger] accounts@[j]),
                None => forall|j: int| 0 <= j < i ==> !by_name(#[trigger] accounts@[j]),
            },
        decreases accounts@.len() - i,
    {
        if account_answers(&accounts[i], name) {
            match first {
                Some(index) => {
                    proof {
                        seqs::lemma_first_where_is(accounts@, by_name, index as int);
                        assert(answers_to(accounts@[i as int], name@));
                    }
                    return Err(SelectorError::Ambiguous);
                },
                None => {
                    first = Some(i);
                },
            }
        }
        i = i + 1;
    }
    match first {
        Some(index) => {
            proof {
                seqs::lemma_first_where_is(accounts@, by_name, index as int);
                assert forall|j: int| index < j < accounts@.len() implies !answers_to(
                    #[trigger] accounts@[j],
                    name@,
                ) by {
                    assert(!by_name(accounts@[j]));
                }
            }
            Ok(index)
        },
        None => {
            proof {
                seqs::lemma_first_where(accounts@, by_name);
            }
            Err(SelectorError::NotFound)
        },
    }
}

/// The account that a selector names, or what is wrong with the selector.
pub fn resolve<'a>(pool: &'a AccountPoolReadResponse, selector: &str) -> (found: Result<
    &'a AccountPoolAccount,
    String,
>)
    ensures
        match found {
            Ok(account) => {
                &&& resolution(*pool, selector@) is Ok
                &&& 0 <= resolution(*pool, selector@)->Ok_0 < pool.accounts@.len()
                &&& *account == pool.accounts@[resolution(*pool, selector@)->Ok_0]
            },
            Err(message) => {
                &&& resolution(*pool, selector@) is Err
                &&& message@ == resolution(*pool, selector@)->Err_0.text()
            },
        },
{
    match resolve_index(pool, selector) {
        Ok(index) => Ok(&pool.accounts[index]),
        Err(error) => Err(error.message()),
    }
}

/// Position of the account that a selector names.
pub fn resolve_index(pool: &AccountPoolReadResponse, selector: &str) -> (found: Result<
    usize,
    SelectorError,
>)
    ensures
        match found {
            Ok(index) => index < pool.accounts@.len() && resolution(*pool, selector@) == Ok::<
                int,
                SelectorError,
            >(index as int),
            Err(error) => resolution(*pool, selector@) == Err::<int, SelectorError>(error),
        },
{
    match name_of_selector(selector) {
        Ok(name) => select(&pool.accounts, &name),
        Err(error) => Err(error),
    }
}

/// An exact profile id always selects its account, whatever other accounts are called.
pub proof fn law_exact_id_wins(accounts: Seq<AccountPoolAccount>, i: int)
    requires
        0 <= i < accounts.len(),
        forall|j: int|
            0 <= j < i ==> (#[trigger] accounts[j]).profile_id@ != accounts[i].profile_id@,
    ensures
        selected(accounts, accounts[i].profile_id@) == Ok::<int, SelectorError>(i),
{
    let name = accounts[i].profile_id@;
    let by_id = has_id(name);
    assert forall|j: int| 0 <= j < i implies !by_id(#[trigger] accounts[j]) by {}
    seqs::lemma_first_where_is(accounts, by_id, i);
}

/// The name under which an account is shown is a valid selector, where no other account answers to
/// it and the name itself is neither empty, nor quoted, nor has white space at its ends.
pub proof fn law_shown_names_are_selectors(pool: AccountPoolReadResponse, i: int)
    requires
        0 <= i < pool.accounts@.len(),
        text::trimmed(label_text(pool.accounts@[i])) == label_text(pool.accounts@[i]),
        label_text(pool.accounts@[i]).len() > 0,
        !is_quoted(label_text(pool.accounts@[i])),
        forall|j: int|
            0 <= j < pool.accounts@.len() && j != i ==> !answers_to(
                #[trigger] pool.accounts@[j],
                label_text(pool.accounts@[i]),
            ),
        forall|j: int|
            0 <= j < pool.accounts@.len() ==> (#[trigger] pool.accounts@[j]).profile_id@
                != label_text(pool.accounts@[i]),
    ensures
        resolution(pool, label_text(pool.accounts@[i])) == Ok::<int, SelectorError>(i),
{
    let accounts = pool.accounts@;
    let name = label_text(accounts[i]);
    let by_id = has_id(name);
    let by_name = answers(name);
    seqs::lemma_first_where(accounts, by_id);
    if seqs::first_where(accounts, by_id) is Some {
        assert(accounts[seqs::first_where(accounts, by_id)->0].profile_id@ == name);
    }
    assert forall|j: int| 0 <= j < i implies !by_name(#[trigger] accounts[j]) by {
        assert(!answers_to(accounts[j], name));
    }
    seqs::lemma_first_where_is(accounts, by_name, i);
}

/// A selected account is one that the name really stands for, and a name that two accounts answer to
/// selects neither, unless it is the exact id of one.
pub proof fn law_selection_is_never_a_guess(accounts: Seq<AccountPoolAccount>, name: Seq<char>)
    ensures
        selected(accounts, name) matches Ok(i) ==> {
            &&& 0 <= i < accounts.len()
            &&& accounts[i].profile_id@ == name || (answers_to(accounts[i], name) && forall|j: int|
                0 <= j < accounts.len() && j != i ==> !answers_to(#[trigger] accounts[j], name))
        },
{
    let by_id = has_id(name);
    let by_name = answers(name);
    seqs::lemma_first_where(accounts, by_id);
    seqs::lemma_first_where(accounts, by_name);
    if seqs::first_where(accounts, by_id) is None && seqs::first_where(accounts, by_name) is Some {
        let i = seqs::first_where(accounts, by_name)->0;
        assert forall|j: int| 0 <= j < i implies !answers_to(#[trigger] accounts[j], name) by {
            assert(!by_name(accounts[j]));
        }
    }
}

/// A compact text has at most one character more than asked for, and nothing in it but that last
/// ellipsis can break a line, mark up text, or change its direction.
pub proof fn law_compact_text_is_bounded_and_plain(s: Seq<char>, max: nat, i: int)
    requires
        0 <= i < compact(s, max).len(),
    ensures
        compact(s, max).len() <= max + 1,
        compact(s, max)[i] == softened(compact(s, max)[i]),
        !is_hidden(compact(s, max)[i]),
{
    broadcast use vstd::seq_lib::group_filter_ensures;

    let soft = Seq::new(s.len(), |i: int| softened(s[i]));
    let shown = |c: char| !is_hidden(c);
    if i < clean(s).len() && i < max || clean(s).len() <= max {
        let c = clean(s)[i];
        assert(clean(s).contains(c));
        lemma_filter_is_from(soft, shown, i);
    }
}

proof fn lemma_filter_is_from(s: Seq<char>, keep: spec_fn(char) -> bool, i: int)
    requires
        0 <= i < s.filter(keep).len(),
    ensures
        exists|j: int| 0 <= j < s.len() && #[trigger] s[j] == s.filter(keep)[i],
    decreases s.len(),
{
    reveal(Seq::filter);
    if s.len() > 0 {
        let rest = s.drop_last();
        if i < rest.filter(keep).len() {
            lemma_filter_is_from(rest, keep, i);
            let j = choose|j: int| 0 <= j < rest.len() && #[trigger] rest[j] == rest.filter(keep)[i];
            assert(s[j] == s.filter(keep)[i]);
        } else {
            assert(s[s.len() - 1] == s.filter(keep)[i]);
        }
    }
}

/// Usage of a window in whole percent.
pub open spec fn usage_text(window: Option<AccountPoolRateLimitWindow>) -> Seq<char> {
    if window is Some && window->0.used_percent.is_finite_spec() {
        window->0.used_percent.shown()
    } else {
        "unknown"@
    }
}

pub fn usage(window: &Option<AccountPoolRateLimitWindow>) -> (shown: String)
    ensures
        shown@ == usage_text(*window),
{
    match window {
        Some(window) => if window.used_percent.is_finite() {
            window.used_percent.display()
        } else {
            "unknown".to_owned()
        },
        None => "unknown".to_owned(),
    }
}

/// What is said of an account that cannot be scheduled; nothing of one that can.
pub open spec fn availability_text(
    account: AccountPoolAccount,
    texts: AccountTimeTexts,
) -> Seq<char> {
    match account.availability {
        AccountPoolAvailability::Available => ""@,
        AccountPoolAvailability::Exhausted { resets_at } => if resets_at is Some
            && UtcTime::spec_from_timestamp(resets_at->0) is Some {
            " · Cooling down "@ + texts.cooldown@
        } else {
            " · Cooling down"@
        },
        AccountPoolAvailability::Disabled => " · Disabled"@,
        AccountPoolAvailability::AuthenticationUnavailable { .. } => " · Login required"@,
    }
}

pub fn availability(account: &AccountPoolAccount, texts: &AccountTimeTexts) -> (shown: String)
    ensures
        shown@ == availability_text(*account, *texts),
{
    match &account.availability {
        AccountPoolAvailability::Available => "".to_owned(),
        AccountPoolAvailability::Exhausted { resets_at } => {
            let known = match resets_at {
                Some(seconds) => UtcTime::from_timestamp(*seconds).is_some(),
                None => false,
            };
            if known {
                let mut shown = " · Cooling down ".to_owned();
                shown.append(texts.cooldown.as_str());
                shown
            } else {
                " · Cooling down".to_owned()
            }
        },
        AccountPoolAvailability::Disabled => " · Disabled".to_owned(),
        AccountPoolAvailability::AuthenticationUnavailable { .. } =>
            " · Login required".to_owned(),
    }
}

/// Reset of a window. That of a primary window that is idle, or whose reset the calendar knows, is
/// told in the host's words, relative to the present; any other is a day and minute.
pub open spec fn reset_text(
    window: Option<AccountPoolRateLimitWindow>,
    primary: bool,
    texts: AccountTimeTexts,
) -> Seq<char> {
    match window {
        None => "unknown"@,
        Some(window) => if primary && (Percent::zero().is_at_least(window.used_percent)
            || is_calendar_time(window.resets_at)) {
            texts.primary_reset@
        } else {
            timestamp_text(window.resets_at)
        },
    }
}

pub fn reset_label(
    window: &Option<AccountPoolRateLimitWindow>,
    primary: bool,
    texts: &AccountTimeTexts,
) -> (shown: String)
    ensures
        shown@ == reset_text(*window, primary, *texts),
{
    match window {
        None => "unknown".to_owned(),
        Some(window) => {
            let known = match window.resets_at {
                Some(seconds) => UtcTime::from_timestamp(seconds).is_some(),
                None => false,
            };
            if primary && (Percent::from_bits(0).ge(window.used_percent) || known) {
                texts.primary_reset.clone()
            } else {
                timestamp(window.resets_at)
            }
        },
    }
}

/// Whether a timestamp is there and has a date in the calendar.
pub open spec fn is_calendar_time(value: Option<i64>) -> bool {
    value is Some && UtcTime::spec_from_timestamp(value->0) is Some
}

/// Day and minute of a timestamp.
pub open spec fn timestamp_text(value: Option<i64>) -> Seq<char> {
    if is_calendar_time(value) {
        time::calendar_text(value->0, time::MONTH_DAY_MINUTE@)
    } else {
        "unknown"@
    }
}

pub fn timestamp(value: Option<i64>) -> (shown: String)
    ensures
        shown@ == timestamp_text(value),
{
    match value {
        Some(seconds) => match month_day_minute(seconds) {
            Some(shown) => shown,
            None => "unknown".to_owned(),
        },
        None => "unknown".to_owned(),
    }
}

/// The head line of an account: its name, whether it is the current one, and its state.
pub open spec fn head_text(account: AccountPoolAccount, texts: AccountTimeTexts) -> Seq<char> {
    label_text(account) + (if account.is_active {
        " · Current"@
    } else {
        Seq::empty()
    }) + availability_text(account, texts)
}

fn head_line(account: &AccountPoolAccount, texts: &AccountTimeTexts) -> (line: String)
    ensures
        line@ == head_text(*account, *texts),
{
    let mut line = label(account);
    if account.is_active {
        line.append(" · Current");
    } else {
        assert(line@ + Seq::<char>::empty() =~= line@);
    }
    line.append(availability(account, texts).as_str());
    line
}

/// Whether limits were observed too long ago to be current.
pub open spec fn is_cached(observed_at: Option<i64>, now_seconds: i64) -> bool {
    observed_at is None || now_seconds - observed_at->0 > FRESH_SECONDS
}

/// The two lines of an account in the list, each after a line break.
pub open spec fn entry_text(
    account: AccountPoolAccount,
    texts: AccountTimeTexts,
    now_seconds: i64,
) -> Seq<char> {
    "\n\n"@ + head_text(account, texts) + "\nUsed: primary "@ + usage_text(
        account.rate_limits.primary,
    ) + " · secondary "@ + usage_text(account.rate_limits.secondary) + (if is_cached(
        account.rate_limits.observed_at,
        now_seconds,
    ) {
        " · cached"@
    } else {
        Seq::empty()
    })
}

fn entry(account: &AccountPoolAccount, texts: &AccountTimeTexts, now_seconds: i64) -> (lines:
    String)
    ensures
        lines@ == entry_text(*account, *texts, now_seconds),
{
    let mut lines = "\n\n".to_owned();
    lines.append(head_line(account, texts).as_str());
    lines.append("\nUsed: primary ");
    lines.append(usage(&account.rate_limits.primary).as_str());
    lines.append(" · secondary ");
    lines.append(usage(&account.rate_limits.secondary).as_str());
    let cached = match account.rate_limits.observed_at {
        Some(observed_at) => now_seconds as i128 - observed_at as i128 > FRESH_SECONDS,
        None => true,
    };
    if cached {
        lines.append(" · cached");
    } else {
        assert(lines@ + Seq::<char>::empty() =~= lines@);
    }
    lines
}

/// What accounts are placed by in the list: the active one first, then by priority and id.
pub open spec fn list_keys(accounts: Seq<AccountPoolAccount>) -> Seq<SortKey> {
    Seq::new(
        accounts.len(),
        |i: int|
            SortKey {
                second_rank: !accounts[i].is_active,
                priority: accounts[i].priority,
                id: accounts[i].profile_id,
            },
    )
}

/// Number of pages of the list; at least one.
pub open spec fn page_count(accounts: nat) -> nat {
    if accounts == 0 {
        1
    } else {
        ((accounts + PAGE_SIZE - 1) / (PAGE_SIZE as int)) as nat
    }
}

/// The entries from `from` up to but not including `to`.
pub open spec fn entries_text(
    accounts: Seq<AccountPoolAccount>,
    texts: Seq<AccountTimeTexts>,
    order: Seq<usize>,
    from: int,
    to: int,
    now_seconds: i64,
) -> Seq<char>
    decreases to - from,
{
    if to <= from {
        Seq::empty()
    } else {
        entries_text(accounts, texts, order, from, to - 1, now_seconds) + entry_text(
            accounts[order[to - 1] as int],
            texts[order[to - 1] as int],
            now_seconds,
        )
    }
}

/// Position after the last account of a page.
pub open spec fn page_end(accounts: nat, page: nat) -> int {
    if page * PAGE_SIZE <= accounts {
        page * PAGE_SIZE
    } else {
        accounts as int
    }
}

/// One page of the list, with the accounts in a given order.
pub open spec fn list_text(
    accounts: Seq<AccountPoolAccount>,
    texts: Seq<AccountTimeTexts>,
    order: Seq<usize>,
    page: nat,
    now_seconds: i64,
) -> Seq<char> {
    let pages = page_count(accounts.len());
    "Accounts · "@ + text::spec_decimal(page) + "/"@ + text::spec_decimal(pages) + entries_text(
        accounts,
        texts,
        order,
        (page - 1) * PAGE_SIZE,
        page_end(accounts.len(), page),
        now_seconds,
    ) + (if page < pages {
        "\n\nNext: /account list "@ + text::spec_decimal(page + 1)
    } else {
        Seq::empty()
    }) + "\n\nDetails: /account show <name>\nControls: /account help"@
}

/// What is said of a page that does not exist.
pub open spec fn page_range_text(pages: nat) -> Seq<char> {
    "Page out of range. Use /account list 1 through "@ + text::spec_decimal(pages) + "."@
}

/// Number of pages of the list; at least one.
pub fn pages_of(pool: &AccountPoolReadResponse) -> (pages: usize)
    ensures
        pages == page_count(pool.accounts@.len()),
        pages >= 1,
{
    let n: usize = pool.accounts.len();
    if n == 0 {
        1
    } else {
        (n - 1) / PAGE_SIZE + 1
    }
}

/// Whether a page of the list exists; what is said where it does not.
pub fn check_page(pool: &AccountPoolReadResponse, page: usize) -> (checked: Result<(), String>)
    ensures
        match checked {
            Ok(_) => 1 <= page <= page_count(pool.accounts@.len()),
            Err(message) => !(1 <= page <= page_count(pool.accounts@.len())) && message@
                == page_range_text(page_count(pool.accounts@.len())),
        },
{
    let pages: usize = pages_of(pool);
    if page == 0 || page > pages {
        let mut message = "Page out of range. Use /account list 1 through ".to_owned();
        message.append(decimal(pages as u64).as_str());
        message.append(".");
        return Err(message);
    }
    Ok(())
}

/// One page of the list of accounts.
pub fn list(
    pool: &AccountPoolReadResponse,
    texts: &Vec<AccountTimeTexts>,
    page: usize,
    now_seconds: i64,
) -> (listed: Result<String, String>)
    requires
        texts@.len() == pool.accounts@.len(),
    ensures
        match listed {
            Ok(listed) => {
                &&& 1 <= page <= page_count(pool.accounts@.len())
                &&& exists|order: Seq<usize>| #[trigger]
                    order::is_shown_order(list_keys(pool.accounts@), order) && listed@ == list_text(
                        pool.accounts@,
                        texts@,
                        order,
                        page as nat,
                        now_seconds,
                    )
            },
            Err(message) => {
                &&& !(1 <= page <= page_count(pool.accounts@.len()))
                &&& message@ == page_range_text(page_count(pool.accounts@.len()))
            },
        },
{
    let pages: usize = pages_of(pool);
    match check_page(pool, page) {
        Ok(()) => {},
        Err(message) => {
            return Err(message);
        },
    }
    let accounts = &pool.accounts;
    let mut keys: Vec<SortKey> = Vec::new();
    let mut i: usize = 0;
    while i < accounts.len()
        invariant
            i <= accounts@.len(),
            keys@ =~= list_keys(accounts@).take(i as int),
        decreases accounts@.len() - i,
    {
        keys.push(
            SortKey {
                second_rank: !accounts[i].is_active,
                priority: accounts[i].priority,
                id: accounts[i].profile_id.clone(),
            },
        );
        i = i + 1;
    }
    assert(keys@ =~= list_keys(accounts@));
    let order = shown_order(&keys);
    let from: usize = (page - 1) * PAGE_SIZE;
    let to: usize = if accounts.len() - from <= PAGE_SIZE {
        accounts.len()
    } else {
        from + PAGE_SIZE
    };
    let mut listed = "Accounts · ".to_owned();
    listed.append(decimal(page as u64).as_str());
    listed.append("/");
    listed.append(decimal(pages as u64).as_str());
    let ghost head = listed@;
    let mut k: usize = from;
    assert(listed@ =~= head + entries_text(
        accounts@,
        texts@,
        order@,
        from as int,
        from as int,
        now_seconds,
    ));
    while k < to
        invariant
            from <= k <= to <= accounts@.len(),
            texts@.len() == accounts@.len(),
            order@.len() == accounts@.len(),
            forall|a: int| 0 <= a < order@.len() ==> (#[trigger] order@[a]) < accounts@.len(),
            listed@ == head + entries_text(
                accounts@,
                texts@,
                order@,
                from as int,
                k as int,
                now_seconds,
            ),
        decreases to - k,
    {
        let index: usize = order[k];
        listed.append(entry(&accounts[index], &texts[index], now_seconds).as_str());
        k = k + 1;
        assert(listed@ =~= head + entries_text(
            accounts@,
            texts@,
            order@,
            from as int,
            k as int,
            now_seconds,
        ));
    }
    if page < pages {
        let mut next = "\n\nNext: /account list ".to_owned();
        next.append(decimal(page as u64 + 1).as_str());
        listed.append(next.as_str());
    } else {
        assert(listed@ + Seq::<char>::empty() =~= listed@);
    }
    listed.append("\n\nDetails: /account show <name>\nControls: /account help");
    Ok(listed)
}

/// Usage and reset of one window, each on a line of its own.
pub open spec fn window_text(
    name: Seq<char>,
    window: Option<AccountPoolRateLimitWindow>,
    primary: bool,
    texts: AccountTimeTexts,
) -> Seq<char> {
    "\n"@ + name + ": "@ + usage_text(window) + " used\nReset: "@ + reset_text(
        window,
        primary,
        texts,
    )
}

fn window_lines(
    name: &str,
    window: &Option<AccountPoolRateLimitWindow>,
    primary: bool,
    texts: &AccountTimeTexts,
) -> (lines: String)
    ensures
        lines@ == window_text(name@, *window, primary, *texts),
{
    let mut lines = "\n".to_owned();
    lines.append(name);
    lines.append(": ");
    lines.append(usage(window).as_str());
    lines.append(" used\nReset: ");
    lines.append(reset_label(window, primary, texts).as_str());
    lines
}

/// Whether the last warmup of an account started its window.
pub open spec fn is_warmed(account: AccountPoolAccount) -> bool {
    account.window_warmup is Some && account.window_warmup->0.outcome
        == AccountPoolWindowWarmupOutcome::Succeeded
}

/// Everything that is said of one account.
pub open spec fn detail_text(account: AccountPoolAccount, texts: AccountTimeTexts) -> Seq<char> {
    head_text(account, texts) + window_text(
        "Primary"@,
        account.rate_limits.primary,
        true,
        texts,
    ) + window_text(
        "Secondary"@,
        account.rate_limits.secondary,
        false,
        texts,
    ) + (if is_warmed(account) {
        "\nWarmup: 5h warmed"@
    } else {
        Seq::empty()
    }) + "\nChecked: "@ + timestamp_text(account.rate_limits.observed_at)
        + "\nCached values remain if refresh fails."@
}

/// Everything that is said of the account that a selector names.
pub fn detail(pool: &AccountPoolReadResponse, texts: &Vec<AccountTimeTexts>, selector: &str) -> (
    shown: Result<String, String>)
    requires
        texts@.len() == pool.accounts@.len(),
    ensures
        match shown {
            Ok(shown) => {
                &&& resolution(*pool, selector@) is Ok
                &&& 0 <= resolution(*pool, selector@)->Ok_0 < pool.accounts@.len()
                &&& shown@ == detail_text(
                    pool.accounts@[resolution(*pool, selector@)->Ok_0],
                    texts@[resolution(*pool, selector@)->Ok_0],
                )
            },
            Err(message) => {
                &&& resolution(*pool, selector@) is Err
                &&& message@ == resolution(*pool, selector@)->Err_0.text()
            },
        },
{
    let index: usize = match resolve_index(pool, selector) {
        Ok(index) => index,
        Err(error) => {
            return Err(error.message());
        },
    };
    let account = &pool.accounts[index];
    let times = &texts[index];
    let mut shown = head_line(account, times);
    shown.append(
        window_lines(
            "Primary",
            &account.rate_limits.primary,
            true,
            times,
        ).as_str(),
    );
    shown.append(
        window_lines(
            "Secondary",
            &account.rate_limits.secondary,
            false,
            times,
        ).as_str(),
    );
    let warmed = match account.window_warmup {
        Some(warmup) => match warmup.outcome {
            AccountPoolWindowWarmupOutcome::Succeeded => true,
            _ => false,
        },
        None => false,
    };
    if warmed {
        shown.append("\nWarmup: 5h warmed");
    } else {
        assert(shown@ + Seq::<char>::empty() =~= shown@);
    }
    shown.append("\nChecked: ");
    shown.append(timestamp(account.rate_limits.observed_at).as_str());
    shown.append("\nCached values remain if refresh fails.");
    Ok(shown)
}

/// No page shows more than four accounts, and every account is shown on exactly one page: pages
/// follow one another without gap or overlap, from the first account to the last.
pub proof fn law_pages_partition_the_accounts(accounts: nat, page: nat)
    requires
        1 <= page <= page_count(accounts),
    ensures
        0 <= (page - 1) * PAGE_SIZE <= page_end(accounts, page) <= accounts,
        page_end(accounts, page) - (page - 1) * PAGE_SIZE <= PAGE_SIZE,
        page > 1 ==> page_end(accounts, (page - 1) as nat) == (page - 1) * PAGE_SIZE,
        page == page_count(accounts) ==> page_end(accounts, page) == accounts,
{
}

} // verus!
