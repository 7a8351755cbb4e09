//! Selecting account profiles by id or label.
use vstd::prelude::*;

use crate::accounts::AccountProfile;
use crate::seqs;
use crate::text;
use crate::text::debug_text;
use crate::text::same_text;

verus! {

#[derive(Clone, Copy, Debug, PartialEq, Eq, Structural)]
pub enum AccountProfileState {
    PendingLogin,
    Ready,
}

/// A profile as it is stored.
#[derive(Clone, Debug, PartialEq, Eq)]
pub struct AccountProfileRecord {
    pub profile: AccountProfile,
    pub state: AccountProfileState,
    pub disabled: bool,
}

/// Why a selector names no profile.
#[derive(Clone, Copy, Debug, PartialEq, Eq, Structural)]
pub enum ProfileSelectorError {
    NotFound,
    Ambiguous,
}

/// The records with an id.
pub open spec fn has_id(id: Seq<char>) -> spec_fn(AccountProfileRecord) -> bool {
    |record: AccountProfileRecord| record.profile.id@ == id
}

/// The records with a label.
pub open spec fn has_label(label: Seq<char>) -> spec_fn(AccountProfileRecord) -> bool {
    |record: AccountProfileRecord| text::opt_text(record.profile.label) == Some(label)
}

/// The record that a selector names: the one with that id, else the only one with that label.
pub open spec fn selected(records: Seq<AccountProfileRecord>, selector: Seq<char>) -> Result<
    int,
    ProfileSelectorError,
> {
    match seqs::first_where(records, has_id(selector)) {
        Some(i) => Ok(i),
        None => match seqs::first_where(records, has_label(selector)) {
            Some(i) => if exists|j: int|
                i < j < records.len() && has_label(selector)(#[trigger] records[j]) {
                Err(ProfileSelectorError::Ambiguous)
            } else {
                Ok(i)
            },
            None => Err(ProfileSelectorError::NotFound),
        },
    }
}

impl ProfileSelectorError {
    /// What is said of a selector that names no profile.
    pub open spec fn text(self, selector: Seq<char>) -> Seq<char> {
        match self {
            ProfileSelectorError::NotFound => "No account matches "@ + text::debug_of(selector)
                + ". Use `codex account list` to see IDs and labels."@,
            ProfileSelectorError::Ambiguous => "Account label "@ + text::debug_of(selector)
                + " is ambiguous. Select an exact profile ID or assign a unique label with `codex account set <id> --label <label>`."@,
        }
    }

    pub fn message(&self, selector: &str) -> (message: String)
        ensures
            message@ == self.text(selector@),
    {
        match self {
            ProfileSelectorError::NotFound => {
                let mut message = "No account matches ".to_owned();
                message.append(debug_text(selector).as_str());
                message.append(". Use `codex account list` to see IDs and labels.");
                message
            },
            ProfileSelectorError::Ambiguous => {
                let mut message = "Account label ".to_owned();
                message.append(debug_text(selector).as_str());
                message.append(
                    " is ambiguous. Select an exact profile ID or assign a unique label with `codex account set <id> --label <label>`.",
                );
                message
            },
        }
    }
}

/// Position of the record with an id.
pub fn find_id(records: &Vec<AccountProfileRecord>, id: &str) -> (found: Option<usize>)
    ensures
        match found {
            Some(index) => index < records@.len() && seqs::first_where(records@, has_id(id@))
                == Some(index as int),
            None => seqs::first_where(records@, has_id(id@)) is None,
        },
{
    let ghost wanted = has_id(id@);
    let mut i: usize = 0;
    while i < records.len()
        invariant
            i <= records@.len(),
            wanted == has_id(id@),
            forall|j: int| 0 <= j < i ==> !wanted(#[trigger] records@[j]),
        decreases records@.len() - i,
    {
        if same_text(records[i].profile.id.as_str(), id) {
            proof {
                seqs::lemma_first_where_is(records@, wanted, i as int);
            }
            return Some(i);
        }
        i = i + 1;
    }
    proof {
        seqs::lemma_first_where(records@, wanted);
    }
    None
}

fn labelled(record: &AccountProfileRecord, label: &str) -> (does: bool)
    ensures
        does == has_label(label@)(*record),
{
    match &record.profile.label {
        Some(own) => same_text(own.as_str(), label),
        None => false,
    }
}

/// Position of the record that a selector names.
pub fn select(records: &Vec<AccountProfileRecord>, selector: &str) -> (found: Result<
    usize,
    ProfileSelectorError,
>)
    ensures
        match found {
            Ok(index) => index < records@.len() && selected(records@, selector@) == Ok::<
                int,
                ProfileSelectorError,
            >(index as int),
            Err(error) => selected(records@, selector@) == Err::<int, ProfileSelectorError>(error),
        },
{
    match find_id(records, selector) {
        Some(index) => {
            return Ok(index);
        },
        None => {},
    }
    let ghost by_label = has_label(selector@);
    let mut first: Option<usize> = None;
    let mut i: usize = 0;
    while i < records.len()
        invariant
            i <= records@.len(),
            by_label == has_label(selector@),
            seqs::first_where(records@, has_id(selector@)) is None,
            match first {
                Some(index) => index < i && by_label(records@[index as int]) && forall|j: int|
                    0 <= j < i && j != index ==> !by_label(#[trigger] records@[j]),
                None => forall|j: int| 0 <= j < i ==> !by_label(#[trigger] records@[j]),
            },
        decreases records@.len() - i,
    {
        if labelled(&records[i], selector) {
            match first {
                Some(index) => {
                    proof {
                        seqs::lemma_first_where_is(records@, by_label, index as int);
                        assert(has_label(selector@)(records@[i as int]));
                    }
                    return Err(ProfileSelectorError::Ambiguous);
                },
                None => {
                    first = Some(i);
                },
            }
        }
        i = i + 1;
    }
    match first {
        Some(index) => {
            proof {
                seqs::lemma_first_where_is(records@, by_label, index as int);
                assert forall|j: int| index < j < records@.len() implies !has_label(selector@)(
                    #[trigger] records@[j],
                ) by {
                    assert(!by_label(records@[j]));
                }
            }
            Ok(index)
        },
        None => {
            proof {
                seqs::lemma_first_where(records@, by_label);
            }
            Err(ProfileSelectorError::NotFound)
        },
    }
}

/// The record that a selector names, or what is wrong with the selector. Exact ids come first, so
/// that scripts can rely on them; then a label that only one profile has.
pub fn resolve_account<'a>(records: &'a Vec<AccountProfileRecord>, selector: &str) -> (found: Result<
    &'a AccountProfileRecord,
    String,
>)
    ensures
        match found {
            Ok(record) => {
                &&& selected(records@, selector@) is Ok
                &&& 0 <= selected(records@, selector@)->Ok_0 < records@.len()
                &&& *record == records@[selected(records@, selector@)->Ok_0]
            },
            Err(message) => {
                &&& selected(records@, selector@) is Err
                &&& message@ == selected(records@, selector@)->Err_0.text(selector@)
            },
        },
{
    match select(records, selector) {
        Ok(index) => Ok(&records[index]),
        Err(error) => Err(error.message(selector)),
    }
}

/// The id of a profile always selects that profile, whatever other profiles are labelled.
pub proof fn law_exact_id_selects_its_profile(records: Seq<AccountProfileRecord>, i: int)
    requires
        0 <= i < records.len(),
        forall|j: int|
            0 <= j < i ==> (#[trigger] records[j]).profile.id@ != records[i].profile.id@,
    ensures
        selected(records, records[i].profile.id@) == Ok::<int, ProfileSelectorError>(i),
{
    let by_id = has_id(records[i].profile.id@);
    assert forall|j: int| 0 <= j < i implies !by_id(#[trigger] records[j]) by {}
    seqs::lemma_first_where_is(records, by_id, i);
}

/// A label that two profiles share selects neither of them, unless it is the exact id of one.
pub proof fn law_shared_label_selects_nothing(
    records: Seq<AccountProfileRecord>,
    label: Seq<char>,
    i: int,
    k: int,
)
    requires
        0 <= i < k < records.len(),
        has_label(label)(records[i]),
        has_label(label)(records[k]),
        forall|j: int| 0 <= j < records.len() ==> (#[trigger] records[j]).profile.id@ != label,
    ensures
        selected(records, label) == Err::<int, ProfileSelectorError>(
            ProfileSelectorError::Ambiguous,
        ),
{
    let by_id = has_id(label);
    let by_label = has_label(label);
    seqs::lemma_first_where(records, by_id);
    if seqs::first_where(records, by_id) is Some {
        assert(records[seqs::first_where(records, by_id)->0].profile.id@ == label);
    }
    seqs::lemma_first_where(records, by_label);
    if seqs::first_where(records, by_label) is None {
        assert(!by_label(records[i]));
    } else {
        let first = seqs::first_where(records, by_label)->0;
        if first > i {
            assert(!by_label(records[i]));
        }
        assert(has_label(label)(records[k]));
    }
}

/// Where no profile has a selector for its id, it selects the one profile that has it for its
/// label; where none has, nothing is found.
pub proof fn law_only_bearer_of_a_label_is_selected(
    records: Seq<AccountProfileRecord>,
    selector: Seq<char>,
    i: int,
)
    requires
        forall|j: int| 0 <= j < records.len() ==> (#[trigger] records[j]).profile.id@ != selector,
        forall|j: int|
            0 <= j < records.len() && j != i ==> ((#[trigger] records[j]).profile.label
                matches Some(label) ==> label@ != selector),
    ensures
        0 <= i < records.len() && (records[i].profile.label matches Some(label) && label@
            == selector) ==> selected(records, selector) == Ok::<int, ProfileSelectorError>(i),
        !(0 <= i < records.len()) || !(records[i].profile.label matches Some(label) && label@
            == selector) ==> selected(records, selector) == Err::<int, ProfileSelectorError>(
            ProfileSelectorError::NotFound,
        ),
{
    let by_id = has_id(selector);
    let by_label = has_label(selector);
    seqs::lemma_first_where(records, by_id);
    seqs::lemma_first_where(records, by_label);
    if seqs::first_where(records, by_id) is Some {
        assert(records[seqs::first_where(records, by_id)->0].profile.id@ == selector);
    }
    assert forall|j: int| 0 <= j < records.len() && j != i implies !by_label(
        #[trigger] records[j],
    ) by {}
    if 0 <= i < records.len() && by_label(records[i]) {
        seqs::lemma_first_where_is(records, by_label, i);
    }
}

/// What a selector selects bears it, as its id or as its label.
pub proof fn law_selected_profile_bears_the_selector(
    records: Seq<AccountProfileRecord>,
    selector: Seq<char>,
)
    requires
        selected(records, selector) is Ok,
    ensures
        0 <= selected(records, selector)->Ok_0 < records.len(),
        ({
            let profile = records[selected(records, selector)->Ok_0].profile;
            profile.id@ == selector || (profile.label is Some && profile.label->0@ == selector)
        }),
{
    seqs::lemma_first_where(records, has_id(selector));
    seqs::lemma_first_where(records, has_label(selector));
}

} // verus!
