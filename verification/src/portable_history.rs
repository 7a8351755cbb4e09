//! Whether persisted history can be sent to another execution account.
use vstd::prelude::*;

use crate::account_transition::AccountHistoryTransition;
use crate::execution_auth::ExecutionAuthLease;
use crate::history::ResponseItem;
use crate::history::ResponseItemEnvelope;
use crate::seqs;
use crate::text;
use crate::text::copy_opt_text;
use crate::text::same_opt_text;

verus! {

/// Whether an item is a compaction whose content only its own account can decrypt.
pub open spec fn is_opaque(item: ResponseItem) -> bool {
    match item {
        ResponseItem::Compaction { encrypted_content, .. } => encrypted_content@.len() > 0,
        ResponseItem::ContextCompaction { encrypted_content, .. } => encrypted_content is Some,
        _ => false,
    }
}

/// Whether an item is a compaction whose content only its own account can decrypt.
pub fn is_opaque_compaction(item: &ResponseItem) -> (opaque: bool)
    ensures
        opaque == is_opaque(*item),
{
    match item {
        ResponseItem::Compaction { encrypted_content, .. } => !encrypted_content.as_str().is_empty(),
        ResponseItem::ContextCompaction { encrypted_content, .. } => encrypted_content.is_some(),
        _ => false,
    }
}

/// Whether persisted history can be sent to another execution identity without first asking the
/// current account to turn an opaque remote-compaction checkpoint into portable plaintext history.
#[derive(Clone, Debug, PartialEq, Eq)]
pub enum PortableHistoryStatus {
    Portable,
    /// The active account owns at least one opaque compaction checkpoint. It has to be migrated
    /// while this account can still decrypt it.
    MigrationRequired,
    /// An opaque checkpoint belongs to another account already. The current account cannot
    /// summarize it, and automatic continuation must fail closed rather than erase context.
    BlockedByForeignOpaqueCompaction {
        source_profile_id: Option<String>,
        active_profile_id: Option<String>,
    },
}

/// The profile that is taken to own a compaction: the stamped one, else the root profile.
pub open spec fn compaction_owner(
    envelope: ResponseItemEnvelope,
    legacy_unattributed_profile_id: Option<String>,
) -> Option<String> {
    if envelope.metadata is Some && envelope.metadata->0.execution_profile_id is Some {
        envelope.metadata->0.execution_profile_id
    } else {
        legacy_unattributed_profile_id
    }
}

/// Position of the first opaque compaction that the active profile does not own.
pub open spec fn foreign_checkpoint(
    history: Seq<ResponseItemEnvelope>,
    active_profile_id: Option<String>,
    legacy_unattributed_profile_id: Option<String>,
) -> Option<int> {
    seqs::first_where(
        history,
        |envelope: ResponseItemEnvelope|
            is_opaque(envelope.item) && text::opt_text(
                compaction_owner(envelope, legacy_unattributed_profile_id),
            ) != text::opt_text(active_profile_id),
    )
}

/// Whether `status` is how a history stands to the active profile.
pub open spec fn is_status_of(
    history: Seq<ResponseItemEnvelope>,
    active: Option<String>,
    legacy_unattributed_profile_id: Option<String>,
    status: PortableHistoryStatus,
) -> bool {
    let foreign = foreign_checkpoint(history, active, legacy_unattributed_profile_id);
    match status {
        PortableHistoryStatus::Portable => foreign is None && forall|i: int|
            0 <= i < history.len() ==> !is_opaque(#[trigger] history[i].item),
        PortableHistoryStatus::MigrationRequired => foreign is None && exists|i: int|
            0 <= i < history.len() && is_opaque(#[trigger] history[i].item),
        PortableHistoryStatus::BlockedByForeignOpaqueCompaction {
            source_profile_id,
            active_profile_id,
        } => {
            &&& foreign is Some
            &&& source_profile_id == compaction_owner(
                history[foreign->0],
                legacy_unattributed_profile_id,
            )
            &&& active_profile_id == active
        },
    }
}

/// Inspects durable annotated history before a pooled session starts consuming quota. Items from
/// before execution provenance are attributed to the root profile.
pub fn portable_history_status(
    history: &Vec<ResponseItemEnvelope>,
    active_lease: &ExecutionAuthLease,
    legacy_unattributed_profile_id: &Option<String>,
) -> (status: PortableHistoryStatus)
    ensures
        is_status_of(
            history@,
            active_lease.spec_profile_id(),
            *legacy_unattributed_profile_id,
            status,
        ),
{
    let active_profile_id = active_lease.profile_id_owned();
    let mut migration_required = false;
    let ghost all = history@;
    let ghost wanted = |envelope: ResponseItemEnvelope|
        is_opaque(envelope.item) && text::opt_text(
            compaction_owner(envelope, *legacy_unattributed_profile_id),
        ) != text::opt_text(active_profile_id);
    let mut i: usize = 0;
    while i < history.len()
        invariant
            i <= history@.len(),
            all == history@,
            active_profile_id == active_lease.spec_profile_id(),
            wanted == (|envelope: ResponseItemEnvelope|
                is_opaque(envelope.item) && text::opt_text(
                    compaction_owner(envelope, *legacy_unattributed_profile_id),
                ) != text::opt_text(active_profile_id)),
            forall|j: int| 0 <= j < i ==> !wanted(#[trigger] all[j]),
            migration_required <==> exists|j: int|
                0 <= j < i && is_opaque(#[trigger] history@[j].item),
        decreases history@.len() - i,
    {
        if is_opaque_compaction(&history[i].item) {
            let stamped = match &history[i].metadata {
                Some(metadata) => copy_opt_text(&metadata.execution_profile_id),
                None => None,
            };
            let source_profile_id = match stamped {
                Some(id) => Some(id),
                None => copy_opt_text(legacy_unattributed_profile_id),
            };
            assert(source_profile_id == compaction_owner(
                history@[i as int],
                *legacy_unattributed_profile_id,
            ));
            if !same_opt_text(&source_profile_id, &active_profile_id) {
                proof {
                    seqs::lemma_first_where_is(all, wanted, i as int);
                }
                return PortableHistoryStatus::BlockedByForeignOpaqueCompaction {
                    source_profile_id,
                    active_profile_id,
                };
            }
            migration_required = true;
        }
        i = i + 1;
    }
    proof {
        seqs::lemma_first_where(all, wanted);
    }
    if migration_required {
        PortableHistoryStatus::MigrationRequired
    } else {
        PortableHistoryStatus::Portable
    }
}

/// A history is blocked exactly where its projection for the same lease fails: what the inspection
/// lets through, a request can be prepared from.
pub proof fn law_blocked_history_is_what_projection_refuses(
    history: Seq<ResponseItemEnvelope>,
    lease: ExecutionAuthLease,
    legacy: Option<String>,
)
    ensures
        foreign_checkpoint(history, lease.spec_profile_id(), legacy) == (AccountHistoryTransition {
            target_profile_id: lease.spec_profile_id(),
            target_generation: lease.spec_generation(),
            legacy_unattributed_profile_id: legacy,
        }).blocker(history),
    decreases history.len(),
{
    if history.len() > 0 {
        law_blocked_history_is_what_projection_refuses(history.drop_last(), lease, legacy);
    }
}

/// A history is blocked exactly where it holds a sealed compaction that another profile owns: the
/// one that the item bears or, where it bears none, the one that unattributed items belong to. It
/// has to be migrated where its sealed compactions are all the active profile's, and it is portable
/// where it holds none.
pub proof fn law_status_follows_from_sealed_compactions(
    history: Seq<ResponseItemEnvelope>,
    active: Option<String>,
    legacy: Option<String>,
    status: PortableHistoryStatus,
)
    requires
        is_status_of(history, active, legacy, status),
    ensures
        status is BlockedByForeignOpaqueCompaction <==> exists|i: int|
            0 <= i < history.len() && is_sealed_elsewhere(#[trigger] history[i], active, legacy),
        status is Portable <==> forall|i: int|
            0 <= i < history.len() ==> !is_sealed(#[trigger] history[i]),
        status matches PortableHistoryStatus::BlockedByForeignOpaqueCompaction {
            source_profile_id,
            active_profile_id,
        } ==> active_profile_id == active && exists|i: int|
            0 <= i < history.len() && is_sealed_elsewhere(#[trigger] history[i], active, legacy)
                && source_profile_id == bearer(history[i], legacy),
{
    let wanted = |envelope: ResponseItemEnvelope|
        is_opaque(envelope.item) && text::opt_text(compaction_owner(envelope, legacy))
            != text::opt_text(active);
    seqs::lemma_first_where(history, wanted);
    let foreign = foreign_checkpoint(history, active, legacy);
    assert forall|i: int| 0 <= i < history.len() implies is_opaque(history[i].item) == is_sealed(
        #[trigger] history[i],
    ) by {
        if let ResponseItem::Compaction { encrypted_content, .. } = history[i].item {
            assert(encrypted_content@.len() == 0 ==> encrypted_content@ =~= Seq::<char>::empty());
        }
    }
    assert forall|i: int| 0 <= i < history.len() implies wanted(#[trigger] history[i])
        == is_sealed_elsewhere(history[i], active, legacy) by {
        assert(is_opaque(history[i].item) == is_sealed(history[i]));
    }
    match foreign {
        Some(i) => {
            assert(is_sealed_elsewhere(history[i], active, legacy));
        },
        None => {
            assert forall|i: int| 0 <= i < history.len() implies !is_sealed_elsewhere(
                #[trigger] history[i],
                active,
                legacy,
            ) by {
                assert(!wanted(history[i]));
            }
        },
    }
}

/// Whether an item is a compaction with sealed content.
pub open spec fn is_sealed(envelope: ResponseItemEnvelope) -> bool {
    match envelope.item {
        ResponseItem::Compaction { encrypted_content, .. } => encrypted_content@
            != Seq::<char>::empty(),
        ResponseItem::ContextCompaction { encrypted_content: Some(_), .. } => true,
        _ => false,
    }
}

/// The profile that an item bears, or else the one that unattributed items belong to.
pub open spec fn bearer(envelope: ResponseItemEnvelope, legacy: Option<String>) -> Option<String> {
    match envelope.metadata {
        Some(metadata) => match metadata.execution_profile_id {
            Some(id) => Some(id),
            None => legacy,
        },
        None => legacy,
    }
}

/// Whether an item is a sealed compaction of another profile than the active one.
pub open spec fn is_sealed_elsewhere(
    envelope: ResponseItemEnvelope,
    active: Option<String>,
    legacy: Option<String>,
) -> bool {
    is_sealed(envelope) && match (bearer(envelope, legacy), active) {
        (Some(owner), Some(own)) => owner@ != own@,
        (None, None) => false,
        _ => true,
    }
}

} // verus!
