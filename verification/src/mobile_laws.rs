//! Laws of the mobile surface: what is shown of accounts, what commands do, and what clients that
//! are not mobile never see.
use vstd::prelude::*;

use crate::account_config;
use crate::mobile_account_bridge;
use crate::mobile_account_bridge::MobileSlashCommand;
use crate::mobile_account_bridge::UserInput;
use crate::mobile_account_status;
use crate::mobile_account_status::AccountTimeTexts;
use crate::mobile_account_status::SelectorError;
use crate::mobile_commands;
use crate::mobile_commands::MobileAccountAction;
use crate::order;
use crate::protocol::AccountPoolAccount;
use crate::protocol::AccountPoolAvailability;
use crate::protocol::AccountPoolRateLimitWindow;
use crate::protocol::AccountPoolReadResponse;
use crate::protocol::RateLimitSnapshot;
use crate::seqs;
use crate::text;
use crate::time;
use crate::time::UtcTime;

verus! {

/// Whether a character would break a line or mark up text.
pub open spec fn is_markup(c: char) -> bool {
    ||| c == '\n'
    ||| c == '\r'
    ||| c == '\t'
    ||| c == '`'
    ||| c == '*'
    ||| c == '_'
    ||| c == '['
    ||| c == ']'
    ||| c == '<'
    ||| c == '>'
    ||| c == '\\'
}

/// Whether a character controls a device or turns the direction of text.
pub open spec fn is_control(c: char) -> bool {
    let code = c as u32;
    code < 0x20 || (0x7E < code && code < 0xA0) || (0x2029 < code && code < 0x202F) || (0x2065
        < code && code < 0x206A)
}

/// Text is cleaned character by character: markup becomes a blank, control characters vanish, and
/// every other character is kept as it is.
pub proof fn law_text_is_cleaned_character_by_character(s: Seq<char>, c: char)
    ensures
        mobile_account_status::clean(Seq::empty()) == Seq::<char>::empty(),
        is_markup(c) ==> mobile_account_status::clean(s.push(c)) == mobile_account_status::clean(
            s,
        ).push(' '),
        is_control(c) && !is_markup(c) ==> mobile_account_status::clean(s.push(c))
            == mobile_account_status::clean(s),
        !is_control(c) && !is_markup(c) ==> mobile_account_status::clean(s.push(c))
            == mobile_account_status::clean(s).push(c),
{
    reveal(Seq::filter);
    let soft = Seq::new(s.len(), |i: int| mobile_account_status::softened(s[i]));
    let longer = Seq::new(
        s.push(c).len(),
        |i: int| mobile_account_status::softened(s.push(c)[i]),
    );
    assert(longer.drop_last() =~= soft);
    assert(longer.last() == mobile_account_status::softened(c));
    assert(Seq::new(
        Seq::<char>::empty().len(),
        |i: int| mobile_account_status::softened(Seq::<char>::empty()[i]),
    ) =~= Seq::empty());
}

/// A text that fits is shown whole; of a longer one as much as fits, with an ellipsis after it.
pub proof fn law_what_fits_is_shown_whole(s: Seq<char>, max: nat)
    ensures
        ({
            let clean = mobile_account_status::clean(s);
            let shown = mobile_account_status::compact(s, max);
            &&& clean.len() <= max ==> shown == clean
            &&& clean.len() > max ==> shown.len() == max + 1 && shown.last() == '…'
                && shown.drop_last().is_prefix_of(clean)
        }),
{
    let clean = mobile_account_status::clean(s);
    if clean.len() > max {
        let shown = mobile_account_status::compact(s, max);
        assert(shown.drop_last() =~= clean.take(max as int));
        assert(shown.drop_last() =~= clean.subrange(0, max as int));
    }
}

/// An account is known by its label where that says anything, else by its email, else by nothing of
/// its own.
pub proof fn law_accounts_are_known_by_label_first(account: AccountPoolAccount, i: int)
    ensures
        account.label is Some && 0 <= i < account.label->0@.len() && !text::is_white(
            account.label->0@[i],
        ) ==> mobile_account_status::label_text(account) == mobile_account_status::compact(
            account.label->0@,
            32,
        ),
        (account.label is None || forall|j: int|
            0 <= j < account.label->0@.len() ==> text::is_white(#[trigger] account.label->0@[j]))
            ==> mobile_account_status::label_text(account) == mobile_account_status::compact(
            if account.email is Some {
                account.email->0@
            } else {
                "Account"@
            },
            32,
        ),
{
}

/// Each account that can be scheduled counts as ready, once, and no other counts.
pub proof fn law_ready_accounts_are_counted(
    accounts: Seq<AccountPoolAccount>,
    account: AccountPoolAccount,
)
    ensures
        mobile_account_status::ready_count(Seq::empty()) == 0,
        mobile_account_status::ready_count(accounts.push(account))
            == mobile_account_status::ready_count(accounts) + if account.availability is Available {
            1int
        } else {
            0
        },
{
    assert(accounts.push(account).drop_last() =~= accounts);
}

/// The active account is the first that is marked so, and there is none exactly where none is.
pub proof fn law_active_account_is_the_first_marked(accounts: Seq<AccountPoolAccount>, i: int)
    ensures
        0 <= i < accounts.len() && accounts[i].is_active ==> (
        mobile_account_status::active_account(accounts) matches Some(active) && 0 <= active <= i
            && accounts[active].is_active),
        (forall|j: int| 0 <= j < accounts.len() ==> !(#[trigger] accounts[j]).is_active)
            ==> mobile_account_status::active_account(accounts) is None,
        mobile_account_status::active_account(accounts) matches Some(active) ==> 0 <= active
            < accounts.len() && accounts[active].is_active,
{
    let current = mobile_account_status::is_current();
    seqs::lemma_first_where(accounts, current);
    if 0 <= i < accounts.len() && accounts[i].is_active {
        assert(current(accounts[i]));
    }
}

/// A caption tells who is active, how many accounts are ready and how many there are.
#[verifier::rlimit(40)]
pub proof fn law_caption_tells_active_and_ready(pool: AccountPoolReadResponse)
    ensures
        ({
            let caption = mobile_account_status::account_caption_text(pool);
            let active = mobile_account_status::active_account(pool.accounts@);
            let ready = text::spec_decimal(mobile_account_status::ready_count(pool.accounts@));
            let all = text::spec_decimal(pool.accounts@.len());
            &&& !pool.enabled ==> caption == "Account pool is not configured."@
            &&& pool.enabled && active is Some ==> mobile_account_status::compact(
                mobile_account_status::label_text(pool.accounts@[active->0]),
                16,
            ).is_prefix_of(caption)
            &&& pool.enabled && active is None ==> "Codex"@.is_prefix_of(caption)
            &&& pool.enabled ==> (ready + "/"@ + all + " ready"@).is_suffix_of(caption)
        }),
{
    let active = mobile_account_status::active_account(pool.accounts@);
    let name = match active {
        Some(i) => mobile_account_status::compact(
            mobile_account_status::label_text(pool.accounts@[i]),
            16,
        ),
        None => "Codex"@,
    };
    let ready = text::spec_decimal(mobile_account_status::ready_count(pool.accounts@));
    let all = text::spec_decimal(pool.accounts@.len());
    let tail = ready + "/"@ + all + " ready"@;
    if pool.enabled {
        let caption = mobile_account_status::account_caption_text(pool);
        assert(caption =~= name + " · "@ + tail);
        assert(caption.subrange(0, name.len() as int) =~= name);
        assert(caption.subrange(caption.len() - tail.len(), caption.len() as int) =~= tail);
    }
}

/// A caption replaces the name of the Codex limits, named or not, and of no other limits; nothing
/// else of any limits changes.
pub proof fn law_overlay_renames_codex_limits_alone(
    before: RateLimitSnapshot,
    after: RateLimitSnapshot,
    caption: Seq<char>,
)
    requires
        mobile_account_status::is_overlaid(before, after, caption),
    ensures
        after.limit_id == before.limit_id,
        after.primary == before.primary,
        after.secondary == before.secondary,
        !(before.limit_id matches Some(id) && id@ != "codex"@) ==> after.limit_name is Some
            && after.limit_name->0@ == caption,
        (before.limit_id matches Some(id) && id@ != "codex"@) ==> after.limit_name
            == before.limit_name,
{
}

/// A selector is a name, bare or between two quotation marks of one kind, with white space around it
/// or not. Without a name, or without the second mark, it is refused.
pub proof fn law_selectors_name_accounts_bare_or_quoted(name: Seq<char>, mark: char)
    requires
        mark == '"' || mark == '\'',
    ensures
        ({
            let quoted = seq![mark] + name + seq![mark];
            &&& name.len() > 0 && text::trimmed(quoted) == quoted
                ==> mobile_account_status::selector_name(quoted) == Ok::<
                Seq<char>,
                SelectorError,
            >(name)
            &&& name.len() == 0 && text::trimmed(quoted) == quoted
                ==> mobile_account_status::selector_name(quoted) == Err::<
                Seq<char>,
                SelectorError,
            >(SelectorError::Empty)
        }),
        text::trimmed(name) == name && name.len() > 0 && name[0] != '"' && name[0] != '\''
            ==> mobile_account_status::selector_name(name) == Ok::<Seq<char>, SelectorError>(name),
        text::trimmed(name).len() == 0 ==> mobile_account_status::selector_name(name) == Err::<
            Seq<char>,
            SelectorError,
        >(SelectorError::Empty),
        text::trimmed(name) == name && name.len() > 0 && name[0] == mark && (name.len() == 1
            || name.last() != mark) ==> mobile_account_status::selector_name(name) == Err::<
            Seq<char>,
            SelectorError,
        >(SelectorError::UnclosedQuote),
{
    let quoted = seq![mark] + name + seq![mark];
    assert(quoted.subrange(1, quoted.len() - 1) =~= name);
}

/// Whether an account goes by a name: as its label, its email, or the name under which it is shown.
pub open spec fn goes_by(account: AccountPoolAccount, name: Seq<char>) -> bool {
    ||| account.label matches Some(label) && label@ == name
    ||| account.email matches Some(email) && email@ == name
    ||| mobile_account_status::label_text(account) == name
}

/// A name that is no profile's id selects the only account that goes by it; where two do it is
/// ambiguous, and where none does, nothing is found.
pub proof fn law_name_selects_its_only_bearer(
    accounts: Seq<AccountPoolAccount>,
    name: Seq<char>,
    i: int,
    k: int,
)
    requires
        forall|j: int| 0 <= j < accounts.len() ==> (#[trigger] accounts[j]).profile_id@ != name,
    ensures
        0 <= i < accounts.len() && goes_by(accounts[i], name) && (forall|j: int|
            0 <= j < accounts.len() && j != i ==> !goes_by(#[trigger] accounts[j], name))
            ==> mobile_account_status::selected(accounts, name) == Ok::<int, SelectorError>(i),
        0 <= i < k < accounts.len() && goes_by(accounts[i], name) && goes_by(accounts[k], name)
            ==> mobile_account_status::selected(accounts, name) == Err::<int, SelectorError>(
            SelectorError::Ambiguous,
        ),
        (forall|j: int| 0 <= j < accounts.len() ==> !goes_by(#[trigger] accounts[j], name))
            ==> mobile_account_status::selected(accounts, name) == Err::<int, SelectorError>(
            SelectorError::NotFound,
        ),
{
    let by_id = mobile_account_status::has_id(name);
    let by_name = mobile_account_status::answers(name);
    seqs::lemma_first_where(accounts, by_id);
    seqs::lemma_first_where(accounts, by_name);
    if seqs::first_where(accounts, by_id) is Some {
        assert(accounts[seqs::first_where(accounts, by_id)->0].profile_id@ == name);
    }
    assert forall|j: int| 0 <= j < accounts.len() implies by_name(#[trigger] accounts[j])
        == goes_by(accounts[j], name) by {}
    assert forall|j: int|
        0 <= j < accounts.len() implies mobile_account_status::answers_to(
        #[trigger] accounts[j],
        name,
    ) == goes_by(accounts[j], name) by {}
    if 0 <= i < k < accounts.len() && goes_by(accounts[i], name) && goes_by(accounts[k], name) {
        assert(by_name(accounts[i]));
        let first = seqs::first_where(accounts, by_name)->0;
        assert(first <= i);
        assert(mobile_account_status::answers_to(accounts[k], name));
    }
    if 0 <= i < accounts.len() && goes_by(accounts[i], name) && (forall|j: int|
        0 <= j < accounts.len() && j != i ==> !goes_by(#[trigger] accounts[j], name)) {
        seqs::lemma_first_where_is(accounts, by_name, i);
    }
}

/// Usage is told in whole percent exactly where it is a number; a window that was not reported, or
/// whose usage is no number, is unknown.
pub proof fn law_usage_is_told_where_it_is_known(window: Option<AccountPoolRateLimitWindow>)
    ensures
        window is None ==> mobile_account_status::usage_text(window) == "unknown"@,
        window matches Some(window_) ==> {
            let magnitude = if window_.used_percent.bits < 0x8000_0000_0000_0000 {
                window_.used_percent.bits as int
            } else {
                window_.used_percent.bits - 0x8000_0000_0000_0000
            };
            &&& magnitude >= 0x7FF0_0000_0000_0000 ==> mobile_account_status::usage_text(window)
                == "unknown"@
            &&& magnitude < 0x7FF0_0000_0000_0000 && window_.used_percent.bits
                != 0x8000_0000_0000_0000 ==> mobile_account_status::usage_text(window)
                == text::spec_decimal(window_.used_percent.whole()) + "%"@
        },
{
}

/// Nothing is said of an account that can be scheduled; of any other its state is told, and of a
/// cooldown with a known end also how long it lasts.
pub proof fn law_only_trouble_is_told(account: AccountPoolAccount, texts: AccountTimeTexts)
    ensures
        account.availability is Available ==> mobile_account_status::availability_text(
            account,
            texts,
        ) == ""@,
        account.availability is Disabled ==> mobile_account_status::availability_text(
            account,
            texts,
        ) == " · Disabled"@,
        account.availability is AuthenticationUnavailable
            ==> mobile_account_status::availability_text(account, texts) == " · Login required"@,
        account.availability matches AccountPoolAvailability::Exhausted { resets_at } ==> {
            &&& " · Cooling down"@.is_prefix_of(
                mobile_account_status::availability_text(account, texts),
            )
            &&& resets_at is Some && -8_334_601_228_800 <= resets_at->0 <= 8_210_266_876_799
                ==> texts.cooldown@.is_suffix_of(
                mobile_account_status::availability_text(account, texts),
            )
            &&& resets_at is None ==> mobile_account_status::availability_text(account, texts)
                == " · Cooling down"@
        },
{
    reveal_strlit(" · Cooling down ");
    reveal_strlit(" · Cooling down");
    let shown = mobile_account_status::availability_text(account, texts);
    if account.availability is Exhausted {
        assert(" · Cooling down "@.subrange(0, 15) =~= " · Cooling down"@);
        assert(shown.subrange(0, 15) =~= " · Cooling down"@);
        assert(shown =~= " · Cooling down "@ + texts.cooldown@ ==> shown.subrange(
            shown.len() - texts.cooldown@.len(),
            shown.len() as int,
        ) =~= texts.cooldown@);
    }
}

/// The reset of the secondary window is a day and a minute, or unknown; that of the primary window
/// is told relative to now where the window is idle or its reset is known.
pub proof fn law_reset_is_told_where_it_is_known(
    window: AccountPoolRateLimitWindow,
    texts: AccountTimeTexts,
)
    ensures
        ({
            let known = window.resets_at is Some && -8_334_601_228_800 <= window.resets_at->0
                <= 8_210_266_876_799;
            let idle = window.used_percent.bits == 0 || 0x8000_0000_0000_0000
                <= window.used_percent.bits <= 0xFFF0_0000_0000_0000;
            let date = time::calendar_text(window.resets_at->0, "%m-%d %H:%M UTC"@);
            &&& known ==> mobile_account_status::reset_text(Some(window), false, texts) == date
            &&& !known ==> mobile_account_status::reset_text(Some(window), false, texts)
                == "unknown"@
            &&& known || idle ==> mobile_account_status::reset_text(Some(window), true, texts)
                == texts.primary_reset@
            &&& !known && !idle ==> mobile_account_status::reset_text(Some(window), true, texts)
                == "unknown"@
            &&& known ==> mobile_account_status::timestamp_text(window.resets_at) == date
            &&& !known ==> mobile_account_status::timestamp_text(window.resets_at) == "unknown"@
            &&& mobile_account_status::reset_text(None, true, texts) == "unknown"@
            &&& mobile_account_status::reset_text(None, false, texts) == "unknown"@
        }),
{
}

/// An entry of the list begins with the account's name, tells usage of both windows, and marks what
/// was not seen in the last two minutes as cached, and nothing else.
#[verifier::rlimit(40)]
pub proof fn law_entry_tells_both_windows(
    account: AccountPoolAccount,
    texts: AccountTimeTexts,
    now_seconds: i64,
)
    ensures
        ({
            let entry = mobile_account_status::entry_text(account, texts, now_seconds);
            let primary = mobile_account_status::usage_text(account.rate_limits.primary);
            let secondary = mobile_account_status::usage_text(account.rate_limits.secondary);
            let told = "\nUsed: primary "@ + primary + " · secondary "@ + secondary;
            let cached = account.rate_limits.observed_at is None || now_seconds
                - account.rate_limits.observed_at->0 > 120;
            &&& text::holds(entry, mobile_account_status::label_text(account))
            &&& cached ==> (told + " · cached"@).is_suffix_of(entry)
            &&& !cached ==> told.is_suffix_of(entry)
        }),
{
    let entry = mobile_account_status::entry_text(account, texts, now_seconds);
    let primary = mobile_account_status::usage_text(account.rate_limits.primary);
    let secondary = mobile_account_status::usage_text(account.rate_limits.secondary);
    let told = "\nUsed: primary "@ + primary + " · secondary "@ + secondary;
    let cached = account.rate_limits.observed_at is None || now_seconds
        - account.rate_limits.observed_at->0 > 120;
    let head = mobile_account_status::head_text(account, texts);
    let name = mobile_account_status::label_text(account);
    let tail = if cached {
        told + " · cached"@
    } else {
        told
    };
    assert(entry =~= "\n\n"@ + head + tail);
    let state = (if account.is_active {
        " · Current"@
    } else {
        Seq::empty()
    }) + mobile_account_status::availability_text(account, texts);
    assert(head =~= name + state);
    text::lemma_holds("\n\n"@, name, state + tail);
    assert(entry =~= "\n\n"@ + name + (state + tail));
    assert(entry.subrange(entry.len() - tail.len(), entry.len() as int) =~= tail);
}

/// The details of an account tell usage and reset of both windows, name the account, and call its
/// window warmed exactly after a warmup that succeeded.
#[verifier::rlimit(40)]
pub proof fn law_details_tell_both_windows(account: AccountPoolAccount, texts: AccountTimeTexts)
    ensures
        ({
            let detail = mobile_account_status::detail_text(account, texts);
            let primary = account.rate_limits.primary;
            let secondary = account.rate_limits.secondary;
            &&& mobile_account_status::label_text(account).is_prefix_of(detail)
            &&& text::holds(
                detail,
                "Primary"@ + ": "@ + mobile_account_status::usage_text(primary)
                    + " used\nReset: "@ + mobile_account_status::reset_text(primary, true, texts),
            )
            &&& text::holds(
                detail,
                "Secondary"@ + ": "@ + mobile_account_status::usage_text(secondary)
                    + " used\nReset: "@ + mobile_account_status::reset_text(
                    secondary,
                    false,
                    texts,
                ),
            )
            &&& account.window_warmup is Some && account.window_warmup->0.outcome is Succeeded
                ==> text::holds(detail, "\nWarmup: 5h warmed"@)
        }),
{
    let detail = mobile_account_status::detail_text(account, texts);
    let primary = account.rate_limits.primary;
    let secondary = account.rate_limits.secondary;
    let head = mobile_account_status::head_text(account, texts);
    let name = mobile_account_status::label_text(account);
    let first = "Primary"@ + ": "@ + mobile_account_status::usage_text(primary)
        + " used\nReset: "@ + mobile_account_status::reset_text(primary, true, texts);
    let second = "Secondary"@ + ": "@ + mobile_account_status::usage_text(secondary)
        + " used\nReset: "@ + mobile_account_status::reset_text(secondary, false, texts);
    let warmed = if account.window_warmup is Some && account.window_warmup->0.outcome
        is Succeeded {
        "\nWarmup: 5h warmed"@
    } else {
        Seq::empty()
    };
    let tail = "\nChecked: "@ + mobile_account_status::timestamp_text(
        account.rate_limits.observed_at,
    ) + "\nCached values remain if refresh fails."@;
    assert(mobile_account_status::window_text("Primary"@, primary, true, texts) =~= "\n"@ + first);
    assert(mobile_account_status::window_text("Secondary"@, secondary, false, texts) =~= "\n"@
        + second);
    let whole = head + ("\n"@ + first) + ("\n"@ + second) + warmed + tail;
    assert(detail =~= whole);
    lemma_lines_are_held(head, "\n"@, first, second, warmed, tail);
    assert(name.is_prefix_of(whole)) by {
        assert(whole.subrange(0, name.len() as int) =~= name);
    }
}

/// Lines that are put together one after the other are all held by the whole.
#[verifier::rlimit(40)]
proof fn lemma_lines_are_held(
    head: Seq<char>,
    line_break: Seq<char>,
    first: Seq<char>,
    second: Seq<char>,
    third: Seq<char>,
    tail: Seq<char>,
)
    ensures
        ({
            let whole = head + (line_break + first) + (line_break + second) + third + tail;
            text::holds(whole, first) && text::holds(whole, second) && text::holds(whole, third)
        }),
{
    let whole = head + (line_break + first) + (line_break + second) + third + tail;
    assert(text::holds(whole, first)) by {
        let rest = (line_break + second) + third + tail;
        text::lemma_holds(head + line_break, first, rest);
        assert(whole =~= head + line_break + first + rest);
    }
    assert(text::holds(whole, second)) by {
        let start = head + (line_break + first) + line_break;
        text::lemma_holds(start, second, third + tail);
        assert(whole =~= start + second + (third + tail));
    }
    text::lemma_holds(head + (line_break + first) + (line_break + second), third, tail);
}

/// Accounts are listed with the active ones first, then by ascending priority value, then by id.
pub proof fn law_active_accounts_are_listed_first(
    accounts: Seq<AccountPoolAccount>,
    order: Seq<usize>,
    a: int,
    b: int,
)
    requires
        order::is_shown_order(mobile_account_status::list_keys(accounts), order),
        0 <= a < b < order.len(),
    ensures
        order.len() == accounts.len(),
        ({
            let earlier = accounts[order[a] as int];
            let later = accounts[order[b] as int];
            &&& later.is_active ==> earlier.is_active
            &&& earlier.is_active == later.is_active ==> earlier.priority <= later.priority
            &&& earlier.is_active == later.is_active && earlier.priority == later.priority
                ==> !text::text_lt(later.profile_id@, earlier.profile_id@)
        }),
{
    let keys = mobile_account_status::list_keys(accounts);
    assert(order::precedes(keys, order[a] as int, order[b] as int));
    assert(order[a] < keys.len() && order[b] < keys.len());
    text::law_text_order_is_total(
        accounts[order[a] as int].profile_id@,
        accounts[order[b] as int].profile_id@,
        accounts[order[a] as int].profile_id@,
    );
}

#[verifier::rlimit(40)]
proof fn lemma_entries_hold_each(
    accounts: Seq<AccountPoolAccount>,
    texts: Seq<AccountTimeTexts>,
    order: Seq<usize>,
    from: int,
    to: int,
    now_seconds: i64,
    k: int,
) -> (around: (Seq<char>, Seq<char>))
    requires
        from <= k < to,
    ensures
        mobile_account_status::entries_text(accounts, texts, order, from, to, now_seconds)
            == around.0 + mobile_account_status::entry_text(
            accounts[order[k] as int],
            texts[order[k] as int],
            now_seconds,
        ) + around.1,
    decreases to - from,
{
    let before = mobile_account_status::entries_text(
        accounts,
        texts,
        order,
        from,
        to - 1,
        now_seconds,
    );
    let last = mobile_account_status::entry_text(
        accounts[order[to - 1] as int],
        texts[order[to - 1] as int],
        now_seconds,
    );
    if k == to - 1 {
        assert(before + last =~= before + last + Seq::<char>::empty());
        (before, Seq::empty())
    } else {
        let (a, b) = lemma_entries_hold_each(
            accounts,
            texts,
            order,
            from,
            to - 1,
            now_seconds,
            k,
        );
        let own = mobile_account_status::entry_text(
            accounts[order[k] as int],
            texts[order[k] as int],
            now_seconds,
        );
        assert(a + own + b + last =~= a + own + (b + last));
        (a, b + last)
    }
}

/// A page holds the entry of each account whose place falls on it, four places to a page, and points
/// to the next page exactly where there is one.
#[verifier::rlimit(40)]
pub proof fn law_page_shows_its_accounts(
    accounts: Seq<AccountPoolAccount>,
    texts: Seq<AccountTimeTexts>,
    order: Seq<usize>,
    page: nat,
    now_seconds: i64,
    k: int,
)
    requires
        0 <= k < accounts.len(),
        page == k / 4 + 1,
    ensures
        1 <= page <= mobile_account_status::page_count(accounts.len()),
        text::holds(
            mobile_account_status::list_text(accounts, texts, order, page, now_seconds),
            mobile_account_status::entry_text(
                accounts[order[k] as int],
                texts[order[k] as int],
                now_seconds,
            ),
        ),
        page * 4 < accounts.len() ==> text::holds(
            mobile_account_status::list_text(accounts, texts, order, page, now_seconds),
            "\n\nNext: /account list "@ + text::spec_decimal(page + 1),
        ),
        (mobile_account_status::page_count(accounts.len()) - 1) * 4 < accounts.len(),
        mobile_account_status::page_count(0) == 1,
{
    let pages = mobile_account_status::page_count(accounts.len());
    let from = (page - 1) * 4;
    let to = mobile_account_status::page_end(accounts.len(), page);
    let (a, b) = lemma_entries_hold_each(accounts, texts, order, from, to, now_seconds, k);
    let own = mobile_account_status::entry_text(
        accounts[order[k] as int],
        texts[order[k] as int],
        now_seconds,
    );
    let head = "Accounts · "@ + text::spec_decimal(page) + "/"@ + text::spec_decimal(pages);
    let next = if page < pages {
        "\n\nNext: /account list "@ + text::spec_decimal(page + 1)
    } else {
        Seq::empty()
    };
    let tail = "\n\nDetails: /account show <name>\nControls: /account help"@;
    let whole = mobile_account_status::list_text(accounts, texts, order, page, now_seconds);
    assert(whole == head + mobile_account_status::entries_text(
        accounts,
        texts,
        order,
        from,
        to,
        now_seconds,
    ) + next + tail);
    text::lemma_holds(head + a, own, b + next + tail);
    assert(whole =~= head + a + own + (b + next + tail));
    text::lemma_holds(head + (a + own + b), next, tail);
    assert(whole =~= head + (a + own + b) + next + tail);
}

/// Slash commands are taken from the two mobile clients and from no other, and only where the whole
/// input is one text.
pub proof fn law_only_mobile_clients_send_slash_commands(
    input: Seq<UserInput>,
    client_name: Option<&str>,
)
    ensures
        mobile_account_bridge::slash_command_in(input, client_name) is Some ==> {
            &&& client_name is Some
            &&& client_name->0@ == "codex_chatgpt_android_remote"@ || client_name->0@
                == "codex_chatgpt_ios_remote"@
            &&& input.len() == 1
            &&& input[0] is Text
        },
        client_name is Some && (client_name->0@ == "codex_chatgpt_android_remote"@
            || client_name->0@ == "codex_chatgpt_ios_remote"@) && input.len() == 1 ==> {
            &&& input[0] matches UserInput::Text { text, .. } ==> {
                &&& mobile_account_bridge::is_slash_command(text@, "account"@)
                    ==> mobile_account_bridge::slash_command_in(input, client_name) == Some(
                    MobileSlashCommand::Account,
                )
                &&& mobile_account_bridge::is_slash_command(text@, "status"@)
                    && !mobile_account_bridge::is_slash_command(text@, "account"@)
                    ==> mobile_account_bridge::slash_command_in(input, client_name) == Some(
                    MobileSlashCommand::Status,
                )
                &&& !mobile_account_bridge::is_slash_command(text@, "status"@)
                    && !mobile_account_bridge::is_slash_command(text@, "account"@)
                    ==> mobile_account_bridge::slash_command_in(input, client_name) is None
            }
        },
{
}

/// A text is a command where its first word, behind the slash, is the command's name in letters of
/// any case; a text that does not begin with a slash never is.
#[verifier::rlimit(40)]
pub proof fn law_command_is_the_word_behind_the_slash(
    name: Seq<char>,
    white: char,
    rest: Seq<char>,
    command: Seq<char>,
    plain: Seq<char>,
)
    requires
        name.len() > 0,
        name[0] != '/',
        forall|i: int| 0 <= i < name.len() ==> !text::is_white(#[trigger] name[i]),
        text::is_white(white),
    ensures
        ({
            let bare = seq!['/'] + name;
            let full = seq!['/'] + name + seq![white] + rest;
            &&& text::trimmed(bare) == bare ==> (mobile_account_bridge::is_slash_command(
                bare,
                command,
            ) <==> text::lowered(name) == text::lowered(command))
            &&& text::trimmed(full) == full ==> (mobile_account_bridge::is_slash_command(
                full,
                command,
            ) <==> text::lowered(name) == text::lowered(command))
            &&& text::trimmed(full) == full ==> mobile_commands::arguments(full) == text::trimmed(
                rest,
            )
            &&& text::trimmed(bare) == bare ==> mobile_commands::arguments(bare).len() == 0
        }),
        text::trimmed(plain).len() == 0 || text::trimmed(plain)[0] != '/'
            ==> !mobile_account_bridge::is_slash_command(plain, command),
{
    let bare = seq!['/'] + name;
    let full = seq!['/'] + name + seq![white] + rest;
    let inner = name + seq![white] + rest;
    assert(bare.skip(1) =~= name);
    assert(full.skip(1) =~= inner);
    assert(inner[0] == name[0]);
    assert(text::without_leading(name, '/') == name);
    assert(text::without_leading(inner, '/') == inner);
    assert(bare[0] == '/');
    assert(full[0] == '/');
    assert(text::without_leading(bare, '/') == name);
    assert(text::without_leading(full, '/') == inner);
    assert(text::trimmed_start(name) == name);
    assert(text::trimmed_start(inner) == inner);
    text::law_white_space_parts_words(name, white, rest);
    text::law_string_is_parted_at_its_first_white_space(name, white, rest);
    assert((seq![name] + text::words(rest))[0] == name);
    assert(text::trimmed(Seq::<char>::empty()).len() == 0);
}

/// The first word of the arguments is what is to be done, in letters of any case, and what follows
/// it is what it is to be done with.
pub proof fn law_arguments_are_a_verb_and_a_value(verb: Seq<char>, white: char, rest: Seq<char>)
    requires
        forall|i: int| 0 <= i < verb.len() ==> !text::is_white(#[trigger] verb[i]),
        text::is_white(white),
    ensures
        mobile_commands::verb_of(verb + seq![white] + rest) == text::lowered(verb),
        mobile_commands::value_of(verb + seq![white] + rest) == text::trimmed(rest),
        mobile_commands::verb_of(verb) == text::lowered(verb),
        mobile_commands::value_of(verb).len() == 0,
{
    text::law_string_is_parted_at_its_first_white_space(verb, white, rest);
}

/// Each account command does what its verb says and nothing else: an account is selected by `use`
/// alone, the choice is given back by `auto` alone, a strategy is stored by `strategy` alone, and
/// what is named with the verb is what it is done with.
pub proof fn law_commands_do_what_their_verb_says(
    pool: AccountPoolReadResponse,
    arguments: Seq<char>,
    action: Result<MobileAccountAction, String>,
)
    requires
        mobile_commands::is_asked_for(pool, MobileSlashCommand::Account, arguments, action),
    ensures
        ({
            let verb = mobile_commands::verb_of(arguments);
            let value = mobile_commands::value_of(arguments);
            let named = mobile_account_status::resolution(pool, value);
            &&& action matches Ok(MobileAccountAction::Use { profile_id: Some(id) }) ==> verb
                == "use"@ && named is Ok && id@ == pool.accounts@[named->Ok_0].profile_id@
            &&& action matches Ok(MobileAccountAction::Use { profile_id: None }) ==> verb
                == "auto"@ && value.len() == 0
            &&& action matches Ok(MobileAccountAction::Show { selector }) ==> verb == "show"@
                && selector@ == value
            &&& action matches Ok(MobileAccountAction::SetStrategy { strategy }) ==> verb
                == "strategy"@ && account_config::named_strategy(value) == Some(strategy)
            &&& action matches Ok(MobileAccountAction::ShowStrategy) ==> verb == "strategy"@
                && value.len() == 0
            &&& action matches Ok(MobileAccountAction::List { page }) ==> (verb.len() == 0 || verb
                == "list"@) && (value.len() == 0 ==> page == 1) && (value.len() > 0
                ==> text::unsigned(value) == Some(page as nat))
            &&& action matches Ok(MobileAccountAction::Reply { text }) ==> verb == "help"@
        }),
{
}

/// A command that is spelt right and names what exists is done.
pub proof fn law_right_commands_are_done(
    pool: AccountPoolReadResponse,
    arguments: Seq<char>,
    action: Result<MobileAccountAction, String>,
)
    requires
        mobile_commands::is_asked_for(pool, MobileSlashCommand::Account, arguments, action),
    ensures
        ({
            let verb = mobile_commands::verb_of(arguments);
            let value = mobile_commands::value_of(arguments);
            let found = mobile_account_status::resolution(pool, value) is Ok;
            &&& (verb == "use"@ || verb == "show"@) && found ==> action is Ok
            &&& verb == "auto"@ && value.len() == 0 ==> action is Ok
            &&& verb == "strategy"@ && (value.len() == 0 || account_config::named_strategy(
                value,
            ) is Some) ==> action is Ok
            &&& verb == "help"@ && value.len() == 0 ==> action is Ok
            &&& (verb.len() == 0 || verb == "list"@) && value.len() == 0 ==> action is Ok
            &&& verb == "list"@ && value.len() > 0 && text::unsigned(value) is Some && 1
                <= text::unsigned(value)->0 <= mobile_account_status::page_count(
                pool.accounts@.len(),
            ) && text::unsigned(value)->0 <= usize::MAX ==> action is Ok
        }),
{
    reveal_strlit("list");
    reveal_strlit("show");
    reveal_strlit("use");
    reveal_strlit("auto");
    reveal_strlit("strategy");
    reveal_strlit("help");
    assert("list"@.len() == 4 && "list"@[0] == 'l');
    assert("show"@.len() == 4 && "show"@[0] == 's');
    assert("use"@.len() == 3);
    assert("auto"@.len() == 4 && "auto"@[0] == 'a');
    assert("strategy"@.len() == 8);
    assert("help"@.len() == 4 && "help"@[0] == 'h');
}

/// A strategy that was stored but is overridden is told so; else the strategy in effect is named.
#[verifier::rlimit(40)]
pub proof fn law_effective_strategy_is_told(
    requested: Option<crate::config::AccountPoolRotationStrategy>,
    effective: crate::config::AccountPoolRotationStrategy,
)
    ensures
        requested is None || requested->0 == effective ==> text::holds(
            mobile_commands::strategy_text(requested, effective),
            mobile_commands::strategy_name(effective),
        ),
        requested is Some && requested->0 != effective ==> "Saved, but overridden"@.is_prefix_of(
            mobile_commands::strategy_text(requested, effective),
        ),
        effective is FillFirst ==> mobile_commands::strategy_name(effective) == "fill-first"@,
        effective is EarliestReset ==> mobile_commands::strategy_name(effective)
            == "earliest-reset"@,
{
    text::lemma_holds(
        "Strategy: "@,
        mobile_commands::strategy_name(effective),
        "\nUsed at the next automatic selection. Select now: /account auto"@,
    );
    if requested is Some && requested->0 != effective {
        reveal_strlit(
            "Saved, but overridden by a higher-priority configuration. Use /account strategy to see the effective strategy.",
        );
        reveal_strlit("Saved, but overridden");
        assert("Saved, but overridden by a higher-priority configuration. Use /account strategy to see the effective strategy."@.subrange(
            0,
            21,
        ) =~= "Saved, but overridden"@);
    }
}

/// After a selection the account that is active is named.
pub proof fn law_selected_account_is_named(pool: AccountPoolReadResponse)
    ensures
        mobile_account_status::active_account(pool.accounts@) matches Some(active) ==> text::holds(
            mobile_commands::selected_text(pool),
            mobile_account_status::label_text(pool.accounts@[active]),
        ),
{
    let name = match mobile_account_status::active_account(pool.accounts@) {
        Some(index) => mobile_account_status::label_text(pool.accounts@[index]),
        None => "Account"@,
    };
    text::lemma_holds(
        "Selected: "@,
        name,
        "\nApplies to subsequent requests; automatic failover remains enabled."@,
    );
}

/// The line of an account in a summary holds its id, its label or else its email, its priority
/// value and its state.
#[verifier::rlimit(40)]
pub proof fn law_summary_line_tells_the_account(account: AccountPoolAccount, cooldown: Seq<char>)
    ensures
        ({
            let line = mobile_account_bridge::summary_line(account, cooldown);
            let state = match account.availability {
                AccountPoolAvailability::Available => "available"@,
                AccountPoolAvailability::Exhausted { resets_at: Some(_) } => "cooldown until "@
                    + cooldown,
                AccountPoolAvailability::Exhausted { resets_at: None } => "cooling down"@,
                AccountPoolAvailability::AuthenticationUnavailable { .. } =>
                    "login required on host"@,
                AccountPoolAvailability::Disabled => "disabled"@,
            };
            &&& text::holds(line, mobile_account_status::compact(account.profile_id@, 48))
            &&& account.label is Some ==> text::holds(
                line,
                mobile_account_status::compact(account.label->0@, 32),
            )
            &&& account.label is None && account.email is Some ==> text::holds(
                line,
                mobile_account_status::compact(account.email->0@, 32),
            )
            &&& text::holds(
                line,
                " (priority "@ + text::spec_decimal(account.priority as nat) + ")"@,
            )
            &&& state.is_suffix_of(line)
        }),
{
    let line = mobile_account_bridge::summary_line(account, cooldown);
    let id = mobile_account_status::compact(account.profile_id@, 48);
    let shown = mobile_account_bridge::display_label_text(account);
    let state = mobile_account_bridge::availability_label_text(account, cooldown);
    let tail = " (priority "@ + text::spec_decimal(account.priority as nat) + ") — "@ + state;
    assert(line =~= "\n· "@ + shown + tail);
    let rank = " (priority "@ + text::spec_decimal(account.priority as nat) + ")"@;
    reveal_strlit(") — ");
    reveal_strlit(")");
    assert(") — "@ =~= ")"@ + ") — "@.skip(1));
    text::lemma_holds("\n· "@ + shown, rank, ") — "@.skip(1) + state);
    assert(line =~= "\n· "@ + shown + rank + (") — "@.skip(1) + state));
    assert(line.subrange(line.len() - state.len(), line.len() as int) =~= state);
    let name = if account.label is Some {
        mobile_account_status::compact(account.label->0@, 32)
    } else if account.email is Some {
        mobile_account_status::compact(account.email->0@, 32)
    } else {
        Seq::empty()
    };
    if account.label is Some || account.email is Some {
        assert(shown =~= id + " ("@ + name + ")"@);
        text::lemma_holds("\n· "@, id, " ("@ + name + ")"@ + tail);
        assert(line =~= "\n· "@ + id + (" ("@ + name + ")"@ + tail));
        text::lemma_holds("\n· "@ + id + " ("@, name, ")"@ + tail);
        assert(line =~= "\n· "@ + id + " ("@ + name + (")"@ + tail));
    } else {
        text::lemma_holds("\n· "@, id, tail);
    }
}

#[verifier::rlimit(40)]
proof fn lemma_lines_hold_each(
    accounts: Seq<AccountPoolAccount>,
    cooldowns: Seq<String>,
    n: int,
    k: int,
) -> (around: (Seq<char>, Seq<char>))
    requires
        0 <= k < n,
    ensures
        mobile_account_bridge::summary_lines(accounts, cooldowns, n) == around.0
            + mobile_account_bridge::summary_line(accounts[k], cooldowns[k]@) + around.1,
    decreases n,
{
    let before = mobile_account_bridge::summary_lines(accounts, cooldowns, n - 1);
    let last = mobile_account_bridge::summary_line(accounts[n - 1], cooldowns[n - 1]@);
    if k == n - 1 {
        assert(before + last =~= before + last + Seq::<char>::empty());
        (before, Seq::empty())
    } else {
        let (a, b) = lemma_lines_hold_each(accounts, cooldowns, n - 1, k);
        let own = mobile_account_bridge::summary_line(accounts[k], cooldowns[k]@);
        assert(a + own + b + last =~= a + own + (b + last));
        (a, b + last)
    }
}

/// A summary of an enabled pool holds the line of each of its first eight accounts, and tells how
/// many there are beyond them.
#[verifier::rlimit(40)]
pub proof fn law_summary_lists_the_first_accounts(
    pool: AccountPoolReadResponse,
    cooldowns: Seq<String>,
    k: int,
)
    requires
        pool.enabled,
        0 <= k < pool.accounts@.len(),
        k < 8,
    ensures
        text::holds(
            mobile_account_bridge::summary_text(pool, cooldowns),
            mobile_account_bridge::summary_line(pool.accounts@[k], cooldowns[k]@),
        ),
        pool.accounts@.len() > 8 ==> text::holds(
            mobile_account_bridge::summary_text(pool, cooldowns),
            "\n"@ + text::spec_decimal((pool.accounts@.len() - 8) as nat)
                + " more accounts. Run `codex account list` on the host."@,
        ),
        pool.active_profile_id is Some ==> text::holds(
            mobile_account_bridge::summary_text(pool, cooldowns),
            mobile_account_status::compact(pool.active_profile_id->0@, 48),
        ),
{
    let accounts = pool.accounts@;
    let n = if accounts.len() <= 8 {
        accounts.len() as int
    } else {
        8
    };
    let (a, b) = lemma_lines_hold_each(accounts, cooldowns, n, k);
    let own = mobile_account_bridge::summary_line(accounts[k], cooldowns[k]@);
    let start = "Codex account pool · active: "@;
    let active = mobile_account_status::compact(
        text::text_or(pool.active_profile_id, "automatic"@),
        48,
    );
    let more = if accounts.len() > 8 {
        "\n"@ + text::spec_decimal((accounts.len() - 8) as nat)
            + " more accounts. Run `codex account list` on the host."@
    } else {
        Seq::empty()
    };
    let whole = mobile_account_bridge::summary_text(pool, cooldowns);
    assert(whole == start + active + (a + own + b) + more);
    text::lemma_holds(start + active + a, own, b + more);
    assert(whole =~= start + active + a + own + (b + more));
    text::lemma_holds(start + active + (a + own + b), more, Seq::empty());
    assert(whole =~= start + active + (a + own + b) + more + Seq::<char>::empty());
    text::lemma_holds(start, active, (a + own + b) + more);
    assert(whole =~= start + active + ((a + own + b) + more));
}

/// Whole seconds are milliseconds with the fraction cut off, towards zero; a turn never lasts less
/// than nothing, and as long as its clock says where that can be told.
pub proof fn law_turn_times_follow_the_clock(started_ms: i64, completed_ms: i64)
    ensures
        ({
            let seconds = mobile_account_bridge::seconds_of(started_ms);
            let duration = mobile_account_bridge::duration_of(started_ms, completed_ms);
            &&& started_ms >= 0 ==> seconds * 1000 <= started_ms < seconds * 1000 + 1000
            &&& started_ms < 0 ==> seconds * 1000 - 1000 < started_ms <= seconds * 1000
            &&& 0 <= duration <= i64::MAX
            &&& 0 <= completed_ms - started_ms <= i64::MAX ==> duration == completed_ms - started_ms
            &&& completed_ms < started_ms ==> duration == 0
        }),
{
}

/// The user's words open the answer as they were sent, but for white space around them.
pub proof fn law_users_words_are_repeated(input: Seq<UserInput>, command: MobileSlashCommand)
    ensures
        input.len() == 1 && input[0] is Text ==> mobile_account_bridge::user_text(input, command)
            == text::trimmed(input[0]->text@),
        !(input.len() == 1 && input[0] is Text) && command is Account
            ==> mobile_account_bridge::user_text(input, command) == "/account"@,
        !(input.len() == 1 && input[0] is Text) && command is Status
            ==> mobile_account_bridge::user_text(input, command) == "/status"@,
{
}

/// Without a pool nothing is shown and nothing is done: no response is changed, no warning is sent,
/// and every command is answered with how to set one up.
pub proof fn law_nothing_is_shown_without_a_pool(
    pool: AccountPoolReadResponse,
    account_before: mobile_account_bridge::GetAccountResponse,
    account_after: mobile_account_bridge::GetAccountResponse,
    messages_before: mobile_account_bridge::GetWorkspaceMessagesResponse,
    messages_after: mobile_account_bridge::GetWorkspaceMessagesResponse,
    now_seconds: i64,
    connections: usize,
    notification: Option<mobile_account_bridge::ServerNotification>,
    command: MobileSlashCommand,
    sent: Seq<char>,
    action: Result<MobileAccountAction, String>,
)
    requires
        !pool.enabled,
        mobile_account_bridge::is_account_overlaid(account_before, account_after, pool),
        mobile_account_bridge::is_headed(messages_before, messages_after, pool, now_seconds),
        mobile_account_bridge::is_pool_warning(connections, pool, notification),
        mobile_commands::is_action_of(pool, command, sent, action),
    ensures
        account_after == account_before,
        messages_after == messages_before,
        notification is None,
        action matches Ok(MobileAccountAction::Reply { text: reply }) && reply@
            == "Account pool is not configured. Add accounts on the host with `codex account add`."@,
{
}

/// With a pool its caption is shown: in place of the email of a ChatGPT login, and of no other login;
/// as the first of the workspace messages, before all that were there; and as a warning wherever a
/// client is connected. Nothing else of a response changes.
pub proof fn law_caption_is_shown_with_a_pool(
    pool: AccountPoolReadResponse,
    account_before: mobile_account_bridge::GetAccountResponse,
    account_after: mobile_account_bridge::GetAccountResponse,
    messages_before: mobile_account_bridge::GetWorkspaceMessagesResponse,
    messages_after: mobile_account_bridge::GetWorkspaceMessagesResponse,
    now_seconds: i64,
    connections: usize,
    notification: Option<mobile_account_bridge::ServerNotification>,
    k: int,
)
    requires
        pool.enabled,
        mobile_account_bridge::is_account_overlaid(account_before, account_after, pool),
        mobile_account_bridge::is_headed(messages_before, messages_after, pool, now_seconds),
        mobile_account_bridge::is_pool_warning(connections, pool, notification),
    ensures
        ({
            let caption = mobile_account_status::account_caption_text(pool);
            let headline = messages_after.messages@[0];
            &&& account_after.requires_openai_auth == account_before.requires_openai_auth
            &&& match account_before.account {
                Some(mobile_account_bridge::Account::Chatgpt { plan_type, .. }) => {
                    &&& account_after.account matches Some(
                        mobile_account_bridge::Account::Chatgpt { email, plan_type: plan },
                    ) && plan == plan_type && email is Some && email->0@ == caption
                },
                _ => account_after.account == account_before.account,
            }
            &&& headline.message_body@ == caption
            &&& headline.message_type is Headline
            &&& headline.message_id@ == "codex-local-account-pool"@
            &&& headline.created_at == Some(now_seconds)
            &&& headline.archived_at is None
            &&& messages_after.feature_enabled == messages_before.feature_enabled
            &&& messages_after.messages@.len() == messages_before.messages@.len() + 1
            &&& 0 <= k < messages_before.messages@.len() ==> messages_after.messages@[k + 1]
                == messages_before.messages@[k]
            &&& notification is Some <==> connections > 0
            &&& notification is Some ==> (notification->0
                matches mobile_account_bridge::ServerNotification::Warning {
                thread_id,
                message,
            } && thread_id is None && message@ == caption)
        }),
{
    if 0 <= k < messages_before.messages@.len() {
        assert(messages_after.messages@.skip(1)[k] == messages_before.messages@[k]);
    }
}

/// Only the two mobile clients are remembered, and only what is sent to them is decorated: their
/// rate-limit updates, and nothing else.
pub proof fn law_only_mobile_clients_see_the_caption(
    clients: Map<u64, String>,
    connection_id: u64,
    other: u64,
    client_name: String,
    registry: mobile_account_bridge::RemoteClientRegistry,
    before: mobile_account_bridge::ServerNotification,
    after: mobile_account_bridge::ServerNotification,
)
    requires
        registry.is_decorated(connection_id, before, after),
    ensures
        ({
            let joined = mobile_account_bridge::RemoteClientRegistry::clients_after(
                clients,
                connection_id,
                client_name,
            );
            let mobile = client_name@ == "codex_chatgpt_android_remote"@ || client_name@
                == "codex_chatgpt_ios_remote"@;
            &&& mobile ==> joined.contains_key(connection_id) && joined[connection_id]
                == client_name
            &&& !mobile ==> joined == clients
            &&& other != connection_id ==> (joined.contains_key(other) <==> clients.contains_key(
                other,
            )) && (clients.contains_key(other) ==> joined[other] == clients[other])
        }),
        !registry.clients@.contains_key(connection_id) ==> after == before,
        registry.caption is None ==> after == before,
        before !is AccountRateLimitsUpdated ==> after == before,
        before is AccountRateLimitsUpdated ==> after is AccountRateLimitsUpdated,
        registry.clients@.contains_key(connection_id) && registry.caption is Some && before
            is AccountRateLimitsUpdated && before->rate_limits.limit_id is None
            ==> after->rate_limits.limit_name is Some && after->rate_limits.limit_name->0@
            == registry.caption->0@,
{
}

/// A synthetic turn is admitted in an open thread without a running turn, and nowhere else; the
/// reason is passed on.
pub proof fn law_synthetic_turns_never_replace_running_ones(
    thread: mobile_commands::SlashTurnThread,
    admitted: Result<(), String>,
)
    requires
        mobile_commands::is_admission(thread, admitted),
    ensures
        admitted is Ok <==> (thread matches mobile_commands::SlashTurnThread::Open { turn_running }
            && !turn_running),
        thread matches mobile_commands::SlashTurnThread::InputRefused { reason } ==> (
        admitted matches Err(message) && message@ == reason@),
        thread matches mobile_commands::SlashTurnThread::InvalidId { reason } ==> (
        admitted matches Err(message) && reason@.is_suffix_of(message@)),
        thread matches mobile_commands::SlashTurnThread::NotFound { thread_id } ==> (
        admitted matches Err(message) && thread_id@.is_suffix_of(message@)),
{
}

/// Each notification of a synthetic turn is counted, and the turn is complete with the sixth.
pub proof fn law_sixth_notification_completes_the_turn(
    turn: mobile_account_bridge::MobileSlashTurn,
    now_ms: i64,
)
    requires
        turn.sent < 6,
    ensures
        ({
            let after = turn.after_notification(now_ms);
            &&& after.sent == turn.sent + 1
            &&& after.thread_id == turn.thread_id
            &&& after.turn_id == turn.turn_id
            &&& after.user_item == turn.user_item
            &&& after.agent_item == turn.agent_item
            &&& after.started_at_ms == turn.started_at_ms
            &&& after.sent == 6 ==> after.completed_at_ms == Some(now_ms)
            &&& after.sent < 6 ==> after.completed_at_ms == turn.completed_at_ms
        }),
{
}

/// The active account is marked as the current one, and an account that can be scheduled is told by
/// its name and that mark alone.
pub proof fn law_current_account_is_marked(account: AccountPoolAccount, texts: AccountTimeTexts)
    ensures
        account.is_active ==> text::holds(
            mobile_account_status::head_text(account, texts),
            " · Current"@,
        ),
        !account.is_active && account.availability is Available ==> mobile_account_status::head_text(
            account,
            texts,
        ) == mobile_account_status::label_text(account),
{
    let name = mobile_account_status::label_text(account);
    let state = mobile_account_status::availability_text(account, texts);
    text::lemma_holds(name, " · Current"@, state);
    if !account.is_active && account.availability is Available {
        reveal_strlit("");
        assert(mobile_account_status::head_text(account, texts) =~= name);
    }
}

/// A warmup shows in the details exactly where it succeeded: a failed or skipped one leaves them as
/// they are without any.
pub proof fn law_only_successful_warmups_show(
    account: AccountPoolAccount,
    without: AccountPoolAccount,
    texts: AccountTimeTexts,
)
    requires
        without == (AccountPoolAccount { window_warmup: None, ..account }),
    ensures
        ({
            let shown = mobile_account_status::detail_text(account, texts);
            let plain = mobile_account_status::detail_text(without, texts);
            let warmed = account.window_warmup is Some && account.window_warmup->0.outcome
                is Succeeded;
            &&& warmed ==> shown.len() == plain.len() + "\nWarmup: 5h warmed"@.len()
            &&& !warmed ==> shown == plain
        }),
{
}

} // verus!
