//! The pool's section of a configuration file, and the names of rotation strategies in it.
//!
//! A configuration file is a TOML document. The pool owns one section of it, and every other part is
//! kept as it is. The section itself goes in and out as the text of a document of its own.
use vstd::prelude::*;

use crate::config::AccountPoolRotationStrategy;
use crate::text;
use crate::text::debug_text;
use crate::text::same_text;

verus! {

/// The strategy that a name stands for.
pub open spec fn named_strategy(name: Seq<char>) -> Option<AccountPoolRotationStrategy> {
    if name == "fill_first"@ || name == "fill-first"@ {
        Some(AccountPoolRotationStrategy::FillFirst)
    } else if name == "earliest_reset"@ || name == "earliest-reset"@ {
        Some(AccountPoolRotationStrategy::EarliestReset)
    } else {
        None
    }
}

/// The strategy that a name stands for.
pub fn strategy_named(name: &str) -> (strategy: Option<AccountPoolRotationStrategy>)
    ensures
        strategy == named_strategy(name@),
{
    if same_text(name, "fill_first") || same_text(name, "fill-first") {
        Some(AccountPoolRotationStrategy::FillFirst)
    } else if same_text(name, "earliest_reset") || same_text(name, "earliest-reset") {
        Some(AccountPoolRotationStrategy::EarliestReset)
    } else {
        None
    }
}

/// The strategy that a name stands for, or what is wrong with the name.
pub fn parse_rotation_strategy(value: &str) -> (strategy: Result<
    AccountPoolRotationStrategy,
    String,
>)
    ensures
        match strategy {
            Ok(strategy) => named_strategy(value@) == Some(strategy),
            Err(message) => named_strategy(value@) is None && message@
                == "invalid rotation strategy "@ + text::debug_of(value@)
                + "; expected fill_first or earliest_reset"@,
        },
{
    match strategy_named(value) {
        Some(strategy) => Ok(strategy),
        None => {
            let mut message = "invalid rotation strategy ".to_owned();
            message.append(debug_text(value).as_str());
            message.append("; expected fill_first or earliest_reset");
            Err(message)
        },
    }
}

/// The name of a strategy in a configuration file.
pub open spec fn strategy_key(strategy: AccountPoolRotationStrategy) -> Seq<char> {
    match strategy {
        AccountPoolRotationStrategy::FillFirst => "fill_first"@,
        AccountPoolRotationStrategy::EarliestReset => "earliest_reset"@,
    }
}

/// The name of a strategy in a configuration file.
pub fn format_rotation_strategy(strategy: AccountPoolRotationStrategy) -> (name: &'static str)
    ensures
        name@ == strategy_key(strategy),
{
    match strategy {
        AccountPoolRotationStrategy::FillFirst => "fill_first",
        AccountPoolRotationStrategy::EarliestReset => "earliest_reset",
    }
}

/// The name that a strategy is given is read back as that strategy.
pub proof fn law_formatted_strategy_is_read_back(strategy: AccountPoolRotationStrategy)
    ensures
        named_strategy(strategy_key(strategy)) == Some(strategy),
{
    reveal_strlit("fill_first");
    reveal_strlit("fill-first");
    reveal_strlit("earliest_reset");
    reveal_strlit("earliest-reset");
    assert("earliest_reset"@.len() == 14);
    assert("fill_first"@.len() == 10 && "fill-first"@.len() == 10);
}

/// Name of the pool's section in a configuration file.
pub const ACCOUNT_POOL_SECTION: &'static str = "account_pool";

/// `toml::Value`: a value of a TOML document, of which nothing is known but what the names below say.
#[verifier::external_type_specification]
#[verifier::external_body]
pub struct ExTomlValue(toml::Value);

/// `toml::map::Map`: the table type of the TOML library.
#[verifier::external_type_specification]
#[verifier::external_body]
#[verifier::reject_recursive_types(K)]
#[verifier::reject_recursive_types(V)]
pub struct ExTomlMap<K, V>(toml::map::Map<K, V>);

/// What a TOML table holds: its values by their keys.
pub uninterp spec fn entries(table: toml::map::Map<String, toml::Value>) -> Map<
    Seq<char>,
    toml::Value,
>;

/// What a TOML value holds where it is a table; `None` for any other value.
pub uninterp spec fn table_entries(value: toml::Value) -> Option<Map<Seq<char>, toml::Value>>;

/// What a text holds as a TOML document, or what is wrong with it.
pub uninterp spec fn parsed_document(text: Seq<char>) -> Result<
    Map<Seq<char>, toml::Value>,
    Seq<char>,
>;

/// The document that `toml::to_string` writes of a value; `None` where it cannot write one.
pub uninterp spec fn value_document(value: toml::Value) -> Option<Seq<char>>;

/// The document that `toml::to_string_pretty` writes of a table with some entries, or why it cannot.
pub uninterp spec fn pretty_document(entries: Map<Seq<char>, toml::Value>) -> Result<
    Seq<char>,
    Seq<char>,
>;

/// `toml::Table::from_str`: the table that a document stands for. What it holds, and the wording of
/// an error, depend on the text alone.
#[verifier::external_body]
fn parse_document(text: &str) -> (table: Result<toml::map::Map<String, toml::Value>, String>)
    ensures
        match table {
            Ok(table) => parsed_document(text@) == Ok::<_, Seq<char>>(entries(table)),
            Err(message) => parsed_document(text@) == Err::<
                Map<Seq<char>, toml::Value>,
                _,
            >(message@),
        },
{
    text.parse::<toml::Table>().map_err(|error| error.to_string())
}

/// The contents of a table without entries.
pub open spec fn no_entries() -> Map<Seq<char>, toml::Value> {
    Map::empty()
}

/// `toml::map::Map::new`: a table without entries.
#[verifier::external_body]
fn new_document() -> (table: toml::map::Map<String, toml::Value>)
    ensures
        entries(table) == no_entries(),
{
    toml::map::Map::new()
}

/// `toml::map::Map::get`: the value of a key, where the table has it.
#[verifier::external_body]
fn value_at<'a>(table: &'a toml::map::Map<String, toml::Value>, key: &str) -> (value: Option<
    &'a toml::Value,
>)
    ensures
        match value {
            Some(value) => entries(*table).contains_key(key@) && entries(*table)[key@] == *value,
            None => !entries(*table).contains_key(key@),
        },
{
    table.get(key)
}

/// `toml::map::Map::insert`: the key has the value afterwards, in place of any other, and no other key
/// is touched. The value before, which the call returns, is given up.
#[verifier::external_body]
fn insert_value(table: &mut toml::map::Map<String, toml::Value>, key: &str, value: toml::Value)
    ensures
        entries(*final(table)) == entries(*old(table)).insert(key@, value),
{
    table.insert(key.to_string(), value);
}

/// `toml::Value::Table`: the value that is a table.
#[verifier::external_body]
fn table_value(table: toml::map::Map<String, toml::Value>) -> (value: toml::Value)
    ensures
        table_entries(value) == Some(entries(table)),
{
    toml::Value::Table(table)
}

/// `toml::to_string` of a value. The text depends on the value alone; there is none for a value that
/// is no document.
#[verifier::external_body]
fn write_value(value: &toml::Value) -> (text: Option<String>)
    ensures
        text::opt_text(text) == value_document(*value),
{
    toml::to_string(value).ok()
}

/// `toml::to_string_pretty` of a table. The text, and the wording of an error, depend on what the
/// table holds. That the text reads back as the table is not claimed.
#[verifier::external_body]
fn write_document(table: &toml::map::Map<String, toml::Value>) -> (text: Result<String, String>)
    ensures
        match text {
            Ok(text) => pretty_document(entries(*table)) == Ok::<_, Seq<char>>(text@),
            Err(message) => pretty_document(entries(*table)) == Err::<Seq<char>, _>(message@),
        },
{
    toml::to_string_pretty(table).map_err(|error| error.to_string())
}

/// What a configuration file holds: nothing where there is no file.
pub open spec fn config_entries(contents: Option<&str>) -> Result<
    Map<Seq<char>, toml::Value>,
    Seq<char>,
> {
    match contents {
        Some(contents) => parsed_document(contents@),
        None => Ok(no_entries()),
    }
}

/// The document of a configuration file with some contents; `None` for a file that does not exist.
/// The error is what is wrong with the contents.
pub fn open_document(contents: Option<&str>) -> (opened: Result<
    toml::map::Map<String, toml::Value>,
    String,
>)
    ensures
        match opened {
            Ok(table) => config_entries(contents) == Ok::<_, Seq<char>>(entries(table)),
            Err(message) => config_entries(contents) == Err::<Map<Seq<char>, toml::Value>, _>(
                message@,
            ),
        },
{
    match contents {
        Some(contents) => parse_document(contents),
        None => Ok(new_document()),
    }
}

/// The text of the pool's section of a document. It is empty where the document has no such section,
/// or has a value in its place that cannot be written as a document, such as a number.
pub open spec fn section_text(document: Map<Seq<char>, toml::Value>) -> Seq<char> {
    if document.contains_key(ACCOUNT_POOL_SECTION@) {
        match value_document(document[ACCOUNT_POOL_SECTION@]) {
            Some(text) => text,
            None => Seq::empty(),
        }
    } else {
        Seq::empty()
    }
}

/// The text of the pool's section of a document.
pub fn account_pool_section(document: &toml::map::Map<String, toml::Value>) -> (section: String)
    ensures
        section@ == section_text(entries(*document)),
{
    match value_at(document, ACCOUNT_POOL_SECTION) {
        Some(value) => match write_value(value) {
            Some(text) => text,
            None => String::new(),
        },
        None => String::new(),
    }
}

/// Whether a document is another one with the pool's section replaced by the document `section`.
pub open spec fn is_patched(
    before: Map<Seq<char>, toml::Value>,
    after: Map<Seq<char>, toml::Value>,
    section: Map<Seq<char>, toml::Value>,
) -> bool {
    &&& after.contains_key(ACCOUNT_POOL_SECTION@)
    &&& table_entries(after[ACCOUNT_POOL_SECTION@]) == Some(section)
    &&& after == before.insert(ACCOUNT_POOL_SECTION@, after[ACCOUNT_POOL_SECTION@])
}

/// Replaces the pool's section of a document by what a text holds. The error is what is wrong with
/// the text, and then the document stays as it is.
pub fn replace_account_pool(
    document: &mut toml::map::Map<String, toml::Value>,
    section: &str,
) -> (replaced: Result<(), String>)
    ensures
        match replaced {
            Ok(_) => {
                &&& parsed_document(section@) is Ok
                &&& is_patched(
                    entries(*old(document)),
                    entries(*final(document)),
                    parsed_document(section@)->Ok_0,
                )
            },
            Err(message) => {
                &&& parsed_document(section@) == Err::<Map<Seq<char>, toml::Value>, _>(message@)
                &&& *final(document) == *old(document)
            },
        },
{
    match parse_document(section) {
        Ok(table) => {
            insert_value(document, ACCOUNT_POOL_SECTION, table_value(table));
            assert(entries(*document) =~= entries(*old(document)).insert(
                ACCOUNT_POOL_SECTION@,
                entries(*document)[ACCOUNT_POOL_SECTION@],
            ));
            Ok(())
        },
        Err(message) => Err(message),
    }
}

fn failure(doing: &str, path: &str, reason: &str) -> (message: String)
    ensures
        message@ == failure_text(doing@, path@, reason@),
{
    let mut message = doing.to_owned();
    message.append(path);
    message.append(": ");
    message.append(reason);
    message
}

/// What is said of a step that failed.
pub open spec fn failure_text(doing: Seq<char>, path: Seq<char>, reason: Seq<char>) -> Seq<char> {
    doing + path + ": "@ + reason
}

/// The text of the pool's section of a configuration file, or what is wrong with the file. `path` is
/// how the file is called in a message.
pub fn read_account_pool_config(path: &str, contents: Option<&str>) -> (section: Result<
    String,
    String,
>)
    ensures
        is_reading_of(path@, contents, section),
{
    match open_document(contents) {
        Ok(document) => Ok(account_pool_section(&document)),
        Err(reason) => Err(failure("failed to parse ", path, reason.as_str())),
    }
}

/// Whether `section` is what reading the pool's section of a file comes to.
pub open spec fn is_reading_of(
    path: Seq<char>,
    contents: Option<&str>,
    section: Result<String, String>,
) -> bool {
    match section {
        Ok(section) => config_entries(contents) is Ok && section@ == section_text(
            config_entries(contents)->Ok_0,
        ),
        Err(message) => config_entries(contents) is Err && message@ == failure_text(
            "failed to parse "@,
            path,
            config_entries(contents)->Err_0,
        ),
    }
}

/// Whether `patched` is what replacing the pool's section of a file comes to.
pub open spec fn is_patch_of(
    path: Seq<char>,
    contents: Option<&str>,
    section: Seq<char>,
    patched: Result<String, String>,
) -> bool {
    match config_entries(contents) {
        Err(reason) => patched matches Err(message) && message@ == failure_text(
            "failed to parse "@,
            path,
            reason,
        ),
        Ok(before) => match parsed_document(section) {
            Err(reason) => patched matches Err(message) && message@ == failure_text(
                "failed to serialize "@,
                "[account_pool]"@,
                reason,
            ),
            Ok(wanted) => exists|after: Map<Seq<char>, toml::Value>| #[trigger]
                is_patched(before, after, wanted) && match pretty_document(after) {
                    Ok(text) => patched matches Ok(patched) && patched@ == text,
                    Err(reason) => patched matches Err(message) && message@ == failure_text(
                        "failed to serialize "@,
                        path,
                        reason,
                    ),
                },
        },
    }
}

/// The text of a configuration file with the pool's section replaced by what `section` holds, or what
/// is wrong: first with the file, then with the section, then with writing the result. `path` is how
/// the file is called in a message.
pub fn patch_account_pool_config(path: &str, contents: Option<&str>, section: &str) -> (patched:
    Result<String, String>)
    ensures
        is_patch_of(path@, contents, section@, patched),
{
    let mut document = match open_document(contents) {
        Ok(document) => document,
        Err(reason) => {
            return Err(failure("failed to parse ", path, reason.as_str()));
        },
    };
    match replace_account_pool(&mut document, section) {
        Ok(()) => {},
        Err(reason) => {
            return Err(failure("failed to serialize ", "[account_pool]", reason.as_str()));
        },
    }
    assert(is_patched(
        config_entries(contents)->Ok_0,
        entries(document),
        parsed_document(section@)->Ok_0,
    ));
    match write_document(&document) {
        Ok(text) => Ok(text),
        Err(reason) => Err(failure("failed to serialize ", path, reason.as_str())),
    }
}

/// Replacing the pool's section keeps every other part of a document: no other key comes, goes or
/// changes its value. Replacing it again leaves nothing of the first replacement.
pub proof fn law_patch_touches_the_pool_section_only(
    before: Map<Seq<char>, toml::Value>,
    after: Map<Seq<char>, toml::Value>,
    section: Map<Seq<char>, toml::Value>,
    later: Map<Seq<char>, toml::Value>,
    later_section: Map<Seq<char>, toml::Value>,
    key: Seq<char>,
)
    requires
        is_patched(before, after, section),
        is_patched(after, later, later_section),
        key != ACCOUNT_POOL_SECTION@,
    ensures
        after.contains_key(key) <==> before.contains_key(key),
        before.contains_key(key) ==> after[key] == before[key],
        is_patched(before, later, later_section),
{
    assert(later =~= before.insert(ACCOUNT_POOL_SECTION@, later[ACCOUNT_POOL_SECTION@]));
}

/// Four names stand for a strategy, two for each, and no other name for any.
pub proof fn law_strategy_has_two_names(name: Seq<char>)
    ensures
        named_strategy("fill_first"@) == Some(AccountPoolRotationStrategy::FillFirst),
        named_strategy("fill-first"@) == Some(AccountPoolRotationStrategy::FillFirst),
        named_strategy("earliest_reset"@) == Some(AccountPoolRotationStrategy::EarliestReset),
        named_strategy("earliest-reset"@) == Some(AccountPoolRotationStrategy::EarliestReset),
        named_strategy(name) is Some ==> name == "fill_first"@ || name == "fill-first"@ || name
            == "earliest_reset"@ || name == "earliest-reset"@,
{
    reveal_strlit("fill_first");
    reveal_strlit("fill-first");
    reveal_strlit("earliest_reset");
    reveal_strlit("earliest-reset");
    assert("earliest_reset"@.len() == 14 && "earliest-reset"@.len() == 14);
    assert("fill_first"@.len() == 10 && "fill-first"@.len() == 10);
}

/// The section that is shown is what stands under the pool's name in a document, and nothing where
/// nothing stands there; what is shown after a replacement is what was put in.
pub proof fn law_section_is_what_stands_under_its_name(
    document: Map<Seq<char>, toml::Value>,
    after: Map<Seq<char>, toml::Value>,
    section: Map<Seq<char>, toml::Value>,
)
    ensures
        !document.contains_key("account_pool"@) ==> section_text(document).len() == 0,
        document.contains_key("account_pool"@) && value_document(
            document["account_pool"@],
        ) is Some ==> section_text(document) == value_document(document["account_pool"@])->0,
        document.contains_key("account_pool"@) && value_document(
            document["account_pool"@],
        ) is None ==> section_text(document).len() == 0,
        is_patched(document, after, section) ==> after.contains_key("account_pool"@)
            && table_entries(after["account_pool"@]) == Some(section),
{
}

/// A file that does not exist is an empty document, and one that does is what its text says; a
/// failure names the file and the reason.
pub proof fn law_missing_file_is_an_empty_document(
    contents: Option<&str>,
    doing: Seq<char>,
    path: Seq<char>,
    reason: Seq<char>,
)
    ensures
        contents is None ==> (config_entries(contents) matches Ok(entries) && forall|key: Seq<char>|
            !entries.contains_key(key)),
        contents is Some ==> config_entries(contents) == parsed_document(contents->0@),
        text::holds(failure_text(doing, path, reason), path),
        text::holds(failure_text(doing, path, reason), reason),
{
    text::lemma_holds(doing, path, ": "@ + reason);
    assert(failure_text(doing, path, reason) =~= doing + path + (": "@ + reason));
    text::lemma_holds(doing + path + ": "@, reason, Seq::empty());
    assert(failure_text(doing, path, reason) =~= doing + path + ": "@ + reason
        + Seq::<char>::empty());
}

/// A file that cannot be read as a document is neither shown nor patched, and the reason is told; a
/// section that cannot be read is not put in. Else the patched text is the document with the new
/// section, and all else as it was.
pub proof fn law_unreadable_text_is_never_patched(
    path: Seq<char>,
    contents: Option<&str>,
    section: Seq<char>,
    shown: Result<String, String>,
    patched: Result<String, String>,
)
    requires
        is_reading_of(path, contents, shown),
        is_patch_of(path, contents, section, patched),
    ensures
        shown is Ok <==> config_entries(contents) is Ok,
        shown matches Ok(text) ==> text@ == section_text(config_entries(contents)->Ok_0),
        config_entries(contents) is Err ==> patched is Err,
        parsed_document(section) is Err ==> patched is Err,
        patched matches Ok(text) ==> exists|after: Map<Seq<char>, toml::Value>|
            pretty_document(after) == Ok::<Seq<char>, Seq<char>>(text@)
                && after.remove("account_pool"@) == config_entries(contents)->Ok_0.remove(
                "account_pool"@,
            ) && #[trigger] after.contains_key("account_pool"@) && table_entries(
                after["account_pool"@],
            ) == Some(parsed_document(section)->Ok_0),
{
    if patched is Ok {
        let before = config_entries(contents)->Ok_0;
        let wanted = parsed_document(section)->Ok_0;
        let after = choose|after: Map<Seq<char>, toml::Value>| #[trigger]
            is_patched(before, after, wanted) && match pretty_document(after) {
                Ok(text) => patched matches Ok(patched) && patched@ == text,
                Err(reason) => patched matches Err(message) && message@ == failure_text(
                    "failed to serialize "@,
                    path,
                    reason,
                ),
            };
        assert(is_patched(before, after, wanted));
        assert(after.remove("account_pool"@) =~= before.remove("account_pool"@));
        assert(after.contains_key("account_pool"@));
    }
}

} // verus!
