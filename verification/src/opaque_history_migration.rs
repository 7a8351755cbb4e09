//! Preflight of an account transition: whether the target may receive the history without an opaque
//! compaction being migrated first.
use vstd::prelude::*;

use crate::account_transition;
use crate::account_transition::history_item_ownership;
use crate::account_transition::HistoryItemOwnership;
use crate::execution_auth::ExecutionAuthBinding;
use crate::history::ResponseItem;
use crate::history::ResponseItemEnvelope;
use crate::portable_compaction;
use crate::portable_history;
use crate::portable_history::is_opaque_compaction;
use crate::seqs;
use crate::text;
use crate::text::copy_opt_text;
use crate::text::same_opt_text;

verus! {

/// Captured target identity and legacy ownership mapping used by one transition preflight.
#[derive(Clone, Debug, PartialEq, Eq)]
pub struct AccountTransitionTargetProfile {
    pub profile_id: Option<String>,
    pub legacy_unattributed_profile_id: Option<String>,
    pub stock_execution: bool,
}

impl AccountTransitionTargetProfile {
    /// The target of a binding, with the profile that owns unattributed history.
    pub open spec fn spec_from_execution(
        legacy_unattributed_profile_id: Option<String>,
        execution_binding: ExecutionAuthBinding,
    ) -> Self {
        match execution_binding {
            ExecutionAuthBinding::Stock => AccountTransitionTargetProfile {
                profile_id: None,
                legacy_unattributed_profile_id,
                stock_execution: true,
            },
            ExecutionAuthBinding::Pooled(lease) => AccountTransitionTargetProfile {
                profile_id: lease.spec_profile_id(),
                legacy_unattributed_profile_id,
                stock_execution: false,
            },
        }
    }

    pub fn from_execution(
        legacy_unattributed_profile_id: Option<String>,
        execution_binding: &ExecutionAuthBinding,
    ) -> (target: Self)
        ensures
            target == Self::spec_from_execution(
                legacy_unattributed_profile_id,
                *execution_binding,
            ),
    {
        match execution_binding {
            ExecutionAuthBinding::Stock => AccountTransitionTargetProfile {
                profile_id: None,
                legacy_unattributed_profile_id,
                stock_execution: true,
            },
            ExecutionAuthBinding::Pooled(lease) => AccountTransitionTargetProfile {
                profile_id: lease.profile_id_owned(),
                legacy_unattributed_profile_id,
                stock_execution: false,
            },
        }
    }

    /// The profile that a compaction is attributed to. A stamp counts only where it is a valid
    /// profile id.
    pub open spec fn owner(
        self,
        envelope: ResponseItemEnvelope,
        stamp_is_valid: bool,
    ) -> Option<String> {
        match account_transition::ownership(envelope) {
            HistoryItemOwnership::ExecutionScoped { profile_id, .. } => if stamp_is_valid {
                Some(profile_id)
            } else {
                None
            },
            HistoryItemOwnership::LegacyRootScoped => self.legacy_unattributed_profile_id,
            HistoryItemOwnership::Portable => None,
        }
    }

    /// Whether an item keeps the target from receiving the history: an opaque compaction that is
    /// not known to be the target's own. The stock login owns what no profile is stamped on.
    pub open spec fn is_blocked_by(
        self,
        envelope: ResponseItemEnvelope,
        stamp_is_valid: bool,
    ) -> bool {
        &&& portable_history::is_opaque(envelope.item)
        &&& !(self.stock_execution && account_transition::ownership(envelope) is LegacyRootScoped)
        &&& !(self.owner(envelope, stamp_is_valid) is Some && text::opt_text(
            self.owner(envelope, stamp_is_valid),
        ) == text::opt_text(self.profile_id))
    }

    /// Position of the first item that keeps the target from receiving the history.
    pub open spec fn first_blocker(
        self,
        history: Seq<ResponseItemEnvelope>,
        stamp_is_valid: Seq<bool>,
    ) -> Option<int> {
        seqs::first_where(
            Seq::new(history.len(), |i: int| i),
            |i: int| self.is_blocked_by(history[i], stamp_is_valid[i]),
        )
    }
}

/// Whether the captured target may receive the current history.
#[derive(Clone, Debug, PartialEq, Eq)]
pub enum AccountTransitionReadiness {
    Ready,
    MigrationRequired { owner_profile_id: Option<String> },
}

/// A history that has to be compacted by its owner before the target can continue it.
#[derive(Clone, Debug, PartialEq, Eq)]
pub struct OpaqueHistoryMigrationRequired {
    pub owner_profile_id: Option<String>,
    pub target_profile_id: Option<String>,
}

impl AccountTransitionReadiness {
    /// The readiness as a result.
    pub open spec fn as_result(self, target: AccountTransitionTargetProfile) -> Result<
        (),
        OpaqueHistoryMigrationRequired,
    > {
        match self {
            AccountTransitionReadiness::Ready => Ok(()),
            AccountTransitionReadiness::MigrationRequired { owner_profile_id } => Err(
                OpaqueHistoryMigrationRequired {
                    owner_profile_id,
                    target_profile_id: target.profile_id,
                },
            ),
        }
    }

    pub fn ensure_ready(self, target_profile: &AccountTransitionTargetProfile) -> (ready: Result<
        (),
        OpaqueHistoryMigrationRequired,
    >)
        ensures
            ready == self.as_result(*target_profile),
    {
        match self {
            AccountTransitionReadiness::Ready => Ok(()),
            AccountTransitionReadiness::MigrationRequired { owner_profile_id } => Err(
                OpaqueHistoryMigrationRequired {
                    owner_profile_id,
                    target_profile_id: copy_opt_text(&target_profile.profile_id),
                },
            ),
        }
    }
}

/// Whether a target may receive a history, and whose compaction is in the way where it may not.
pub open spec fn readiness_of(
    target: AccountTransitionTargetProfile,
    history: Seq<ResponseItemEnvelope>,
    stamp_is_valid: Seq<bool>,
) -> AccountTransitionReadiness {
    match target.first_blocker(history, stamp_is_valid) {
        Some(i) => AccountTransitionReadiness::MigrationRequired {
            owner_profile_id: target.owner(history[i], stamp_is_valid[i]),
        },
        None => AccountTransitionReadiness::Ready,
    }
}

/// Inspects annotated history before any target authentication is bound. `stamp_is_valid` says of
/// each item whether the profile id that it is stamped with is well formed.
pub fn preflight_account_transition(
    history: &Vec<ResponseItemEnvelope>,
    stamp_is_valid: &Vec<bool>,
    target_profile: &AccountTransitionTargetProfile,
) -> (readiness: AccountTransitionReadiness)
    requires
        stamp_is_valid@.len() == history@.len(),
    ensures
        readiness == readiness_of(*target_profile, history@, stamp_is_valid@),
{
    let ghost positions = Seq::new(history@.len(), |i: int| i);
    let ghost blocked = |i: int| target_profile.is_blocked_by(history@[i], stamp_is_valid@[i]);
    let mut i: usize = 0;
    while i < history.len()
        invariant
            i <= history@.len(),
            stamp_is_valid@.len() == history@.len(),
            positions == Seq::new(history@.len(), |i: int| i),
            blocked == (|i: int|
                target_profile.is_blocked_by(history@[i], stamp_is_valid@[i])),
            forall|j: int| 0 <= j < i ==> !blocked(#[trigger] positions[j]),
        decreases history@.len() - i,
    {
        let ownership = history_item_ownership(&history[i]);
        let skipped = match &ownership {
            HistoryItemOwnership::LegacyRootScoped => target_profile.stock_execution,
            _ => false,
        };
        if is_opaque_compaction(&history[i].item) && !skipped {
            let owner_profile_id = match ownership {
                HistoryItemOwnership::ExecutionScoped { profile_id, .. } => if stamp_is_valid[i] {
                    Some(profile_id)
                } else {
                    None
                },
                HistoryItemOwnership::LegacyRootScoped => copy_opt_text(
                    &target_profile.legacy_unattributed_profile_id,
                ),
                HistoryItemOwnership::Portable => None,
            };
            let own = owner_profile_id.is_some() && same_opt_text(
                &owner_profile_id,
                &target_profile.profile_id,
            );
            if !own {
                proof {
                    assert(blocked(positions[i as int]));
                    seqs::lemma_first_where_is(positions, blocked, i as int);
                }
                return AccountTransitionReadiness::MigrationRequired { owner_profile_id };
            }
        }
        assert(!blocked(positions[i as int]));
        i = i + 1;
    }
    proof {
        seqs::lemma_first_where(positions, blocked);
    }
    AccountTransitionReadiness::Ready
}

impl OpaqueHistoryMigrationRequired {
    /// How the target is called: by its id in backquotes, or as the selected account.
    pub open spec fn target_text(self) -> Seq<char> {
        match self.target_profile_id {
            Some(id) => "`"@ + id@ + "`"@,
            None => "the selected account"@,
        }
    }

    /// What is reported to the user.
    pub open spec fn message_text(self) -> Seq<char> {
        match self.owner_profile_id {
            Some(owner) => "History contains an opaque compaction owned by `"@ + owner@
                + "`. Switch to `"@ + owner@ + "` and run `/compact` before using "@
                + self.target_text() + "."@,
            None =>
                "History contains an opaque compaction with an unknown owner. Resume the thread with its owning account and run `/compact` before using "@
                + self.target_text() + "."@,
        }
    }

    /// What is reported to the user.
    pub fn message(&self) -> (message: String)
        ensures
            message@ == self.message_text(),
    {
        let target = match &self.target_profile_id {
            Some(id) => {
                let mut quoted = "`".to_owned();
                quoted.append(id.as_str());
                quoted.append("`");
                quoted
            },
            None => "the selected account".to_owned(),
        };
        let mut message = match &self.owner_profile_id {
            Some(owner) => {
                let mut message = "History contains an opaque compaction owned by `".to_owned();
                message.append(owner.as_str());
                message.append("`. Switch to `");
                message.append(owner.as_str());
                message.append("` and run `/compact` before using ");
                message
            },
            None =>
                "History contains an opaque compaction with an unknown owner. Resume the thread with its owning account and run `/compact` before using ".to_owned(),
        };
        message.append(target.as_str());
        message.append(".");
        message
    }
}

/// The preflight lets a history through exactly where its projection for the same binding succeeds,
/// provided every stamp is a valid profile id: no request is refused half-way, and none is sent
/// that the preflight would have stopped.
pub proof fn law_preflight_agrees_with_projection(
    history: Seq<ResponseItemEnvelope>,
    stamp_is_valid: Seq<bool>,
    legacy: Option<String>,
    binding: ExecutionAuthBinding,
)
    requires
        stamp_is_valid.len() == history.len(),
        forall|i: int| 0 <= i < stamp_is_valid.len() ==> #[trigger] stamp_is_valid[i],
        binding matches ExecutionAuthBinding::Pooled(lease) ==> lease.spec_profile_id() is Some,
    ensures
        AccountTransitionTargetProfile::spec_from_execution(legacy, binding).first_blocker(
            history,
            stamp_is_valid,
        ) == portable_compaction::transition_for(legacy, binding).blocker(history),
{
    let target = AccountTransitionTargetProfile::spec_from_execution(legacy, binding);
    let transition = portable_compaction::transition_for(legacy, binding);
    let positions = Seq::new(history.len(), |i: int| i);
    let blocked = |i: int| target.is_blocked_by(history[i], stamp_is_valid[i]);
    let refused = |envelope: ResponseItemEnvelope|
        transition.is_foreign(envelope) && portable_history::is_opaque(envelope.item);
    seqs::lemma_first_where(positions, blocked);
    seqs::lemma_first_where(history, refused);
    assert forall|i: int| 0 <= i < history.len() implies blocked(positions[i]) == refused(
        #[trigger] history[i],
    ) by {
        assert(stamp_is_valid[i]);
    }
    match target.first_blocker(history, stamp_is_valid) {
        Some(i) => {
            assert(refused(history[i]));
            assert forall|j: int| 0 <= j < i implies !refused(#[trigger] history[j]) by {
                assert(!blocked(positions[j]));
            }
            seqs::lemma_first_where_is(history, refused, i);
        },
        None => {
            assert forall|j: int| 0 <= j < history.len() implies !refused(
                #[trigger] history[j],
            ) by {
                assert(!blocked(positions[j]));
            }
        },
    }
}

/// An item keeps a target from a history exactly where it is a sealed compaction and the target is
/// not its owner: the profile that it bears, where that is a valid one; for an item without a
/// profile, the profile that unattributed history belongs to, or the stock login.
pub proof fn law_only_foreign_sealed_compactions_block(
    target: AccountTransitionTargetProfile,
    envelope: ResponseItemEnvelope,
    stamp_is_valid: bool,
)
    ensures
        ({
            let sealed = match envelope.item {
                ResponseItem::Compaction { encrypted_content, .. } => encrypted_content@
                    != Seq::<char>::empty(),
                ResponseItem::ContextCompaction { encrypted_content: Some(_), .. } => true,
                _ => false,
            };
            let borne = if envelope.metadata is Some {
                envelope.metadata->0.execution_profile_id
            } else {
                None
            };
            let legacy = target.legacy_unattributed_profile_id;
            let is_target = |id: Option<String>|
                id is Some && target.profile_id is Some && id->0@ == target.profile_id->0@;
            &&& !sealed ==> !target.is_blocked_by(envelope, stamp_is_valid)
            &&& sealed && borne is Some ==> (target.is_blocked_by(envelope, stamp_is_valid) <==> !(
            stamp_is_valid && is_target(borne)))
            &&& sealed && borne is None ==> (target.is_blocked_by(envelope, stamp_is_valid) <==> !(
            target.stock_execution || is_target(legacy)))
            &&& sealed && borne is Some ==> target.owner(envelope, stamp_is_valid) == (
            if stamp_is_valid {
                borne
            } else {
                None
            })
            &&& sealed && borne is None ==> target.owner(envelope, stamp_is_valid) == legacy
        }),
{
    if let ResponseItem::Compaction { encrypted_content, .. } = envelope.item {
        assert(encrypted_content@.len() == 0 ==> encrypted_content@ =~= Seq::<char>::empty());
    }
}

/// The target of a binding is the profile that requests on it run on, and the stock login where
/// they run on none.
pub proof fn law_target_is_the_account_of_the_binding(
    legacy: Option<String>,
    binding: ExecutionAuthBinding,
)
    ensures
        ({
            let target = AccountTransitionTargetProfile::spec_from_execution(legacy, binding);
            &&& target.legacy_unattributed_profile_id == legacy
            &&& target.stock_execution <==> binding is Stock
            &&& binding is Stock ==> target.profile_id is None
            &&& binding matches ExecutionAuthBinding::Pooled(lease) ==> if lease.account() is Some {
                target.profile_id == Some(lease.account()->0.profile_id)
            } else {
                target.profile_id is None
            }
        }),
{
}

/// The report of a history that cannot be moved names the account that has to compact it, and the
/// one that was to go on.
#[verifier::rlimit(40)]
pub proof fn law_migration_report_names_both_accounts(report: OpaqueHistoryMigrationRequired)
    ensures
        report.owner_profile_id is Some ==> text::holds(
            report.message_text(),
            report.owner_profile_id->0@,
        ),
        report.target_profile_id is Some ==> text::holds(
            report.message_text(),
            report.target_profile_id->0@,
        ),
{
    let target = report.target_text();
    let start = match report.owner_profile_id {
        Some(owner) => "History contains an opaque compaction owned by `"@ + owner@
            + "`. Switch to `"@ + owner@ + "` and run `/compact` before using "@,
        None =>
            "History contains an opaque compaction with an unknown owner. Resume the thread with its owning account and run `/compact` before using "@,
    };
    assert(report.message_text() =~= start + target + "."@);
    if report.owner_profile_id is Some {
        let owner = report.owner_profile_id->0@;
        let before = "History contains an opaque compaction owned by `"@;
        let after = "`. Switch to `"@ + owner + "` and run `/compact` before using "@ + target
            + "."@;
        text::lemma_holds(before, owner, after);
        assert(report.message_text() =~= before + owner + after);
    }
    if report.target_profile_id is Some {
        let id = report.target_profile_id->0@;
        text::lemma_holds(start + "`"@, id, "`"@ + "."@);
        assert(report.message_text() =~= start + "`"@ + id + ("`"@ + "."@));
    }
}

/// A target is ready exactly where no item of the history is in its way; where one is, the first of
/// them is the one whose owner has to compact, and the refusal tells that owner and the target.
pub proof fn law_first_item_in_the_way_is_told(
    target: AccountTransitionTargetProfile,
    history: Seq<ResponseItemEnvelope>,
    stamp_is_valid: Seq<bool>,
    i: int,
)
    requires
        0 <= i < history.len(),
        target.is_blocked_by(history[i], stamp_is_valid[i]),
        forall|j: int|
            0 <= j < i ==> !target.is_blocked_by(#[trigger] history[j], stamp_is_valid[j]),
    ensures
        ({
            let owner_profile_id = target.owner(history[i], stamp_is_valid[i]);
            let readiness = readiness_of(target, history, stamp_is_valid);
            &&& readiness == (AccountTransitionReadiness::MigrationRequired { owner_profile_id })
            &&& readiness.as_result(target) is Err
            &&& readiness.as_result(target)->Err_0.owner_profile_id == owner_profile_id
            &&& readiness.as_result(target)->Err_0.target_profile_id == target.profile_id
        }),
{
    let positions = Seq::new(history.len(), |k: int| k);
    let blocked = |k: int| target.is_blocked_by(history[k], stamp_is_valid[k]);
    assert forall|j: int| 0 <= j < i implies !blocked(#[trigger] positions[j]) by {
        assert(!target.is_blocked_by(history[j], stamp_is_valid[j]));
    }
    seqs::lemma_first_where_is(positions, blocked, i);
}

/// A history without anything in the way is received.
pub proof fn law_unblocked_history_is_received(
    target: AccountTransitionTargetProfile,
    history: Seq<ResponseItemEnvelope>,
    stamp_is_valid: Seq<bool>,
)
    requires
        forall|j: int|
            0 <= j < history.len() ==> !target.is_blocked_by(
                #[trigger] history[j],
                stamp_is_valid[j],
            ),
    ensures
        readiness_of(target, history, stamp_is_valid) is Ready,
        readiness_of(target, history, stamp_is_valid).as_result(target) is Ok,
{
    let positions = Seq::new(history.len(), |k: int| k);
    let blocked = |k: int| target.is_blocked_by(history[k], stamp_is_valid[k]);
    seqs::lemma_first_where(positions, blocked);
    if target.first_blocker(history, stamp_is_valid) is Some {
        let k = target.first_blocker(history, stamp_is_valid)->0;
        assert(!target.is_blocked_by(history[k], stamp_is_valid[k]));
    }
}

} // verus!
