//! Laws that hold of the operations over every ledger and every input.
use vstd::prelude::*;
use crate::cells::{byte_len, data_size, has_recipient, lemma_data_fits_cell, Document, MAX_FIELD_LEN};
use crate::document_storage::{
    add_document_effect, close_document_effect, initialize_effect, revoke_access_effect,
    share_document_effect, valid, same_cells, AddDocument, CloseDocument, Initialize,
    RevokeAccess, ShareDocument,
};
use crate::error::{DocumentError, LedgerError};
use crate::store::Ledger;

verus! {

/// Initializing the same owner a second time fails, the cell being already in
/// use, and leaves every cell, the first call's registry cell and its
/// document count included, as the first call left it.
pub proof fn lemma_initialize_twice(
    l0: Ledger,
    l1: Ledger,
    l2: Ledger,
    ctx: Initialize,
    r2: Result<(), LedgerError>,
)
    requires
        initialize_effect(l0, l1, ctx, Ok(())),
        initialize_effect(l1, l2, ctx, r2),
    ensures
        r2 == Err::<(), LedgerError>(LedgerError::AccountAlreadyInUse),
        same_cells(l1, l2),
{
}

/// Adding a document with a file name, content identifier or content hash
/// longer than 100 bytes fails and creates no cell.
pub proof fn lemma_oversized_field_rejected(
    l0: Ledger,
    l1: Ledger,
    ctx: AddDocument,
    file_name: String,
    cid: String,
    file_hash: String,
    now: i64,
    r: Result<(), LedgerError>,
)
    requires
        add_document_effect(l0, l1, ctx, file_name, cid, file_hash, now, r),
        byte_len(file_name@) > MAX_FIELD_LEN || byte_len(cid@) > MAX_FIELD_LEN || byte_len(
            file_hash@,
        ) > MAX_FIELD_LEN,
    ensures
        r is Err,
        same_cells(l0, l1),
{
}

/// When the signer's registry cell exists and records the owner named in the
/// call, a field longer than 100 bytes fails with the error of the first such
/// field, in the order file name, content identifier, content hash, and
/// creates no cell.
pub proof fn lemma_oversized_field_error(
    l0: Ledger,
    l1: Ledger,
    ctx: AddDocument,
    file_name: String,
    cid: String,
    file_hash: String,
    now: i64,
    r: Result<(), LedgerError>,
    registry: Seq<u8>,
)
    requires
        add_document_effect(l0, l1, ctx, file_name, cid, file_hash, now, r),
        crate::address::registry_address(l0.program(), ctx.user) == Some(registry),
        l0.registries().contains_key(registry),
        l0.registries()[registry].owner == ctx.owner,
    ensures
        byte_len(file_name@) > MAX_FIELD_LEN ==> r == Err::<(), LedgerError>(
            LedgerError::Document(DocumentError::InvalidFileName),
        ),
        byte_len(file_name@) <= MAX_FIELD_LEN && byte_len(cid@) > MAX_FIELD_LEN ==> r == Err::<
            (),
            LedgerError,
        >(LedgerError::Document(DocumentError::InvalidCID)),
        byte_len(file_name@) <= MAX_FIELD_LEN && byte_len(cid@) <= MAX_FIELD_LEN && byte_len(
            file_hash@,
        ) > MAX_FIELD_LEN ==> r == Err::<(), LedgerError>(
            LedgerError::Document(DocumentError::InvalidHash),
        ),
        r is Err ==> same_cells(l0, l1),
{
}

/// In a valid ledger every document cell's serialized data fits the bytes it
/// was allocated, whatever grants it holds.
pub proof fn lemma_documents_fit_allocation(l: Ledger, a: Seq<u8>)
    requires
        valid(l),
        l.documents().contains_key(a),
    ensures
        data_size(l.documents()[a]) <= l.document_spaces()[a],
{
    lemma_data_fits_cell(l.documents()[a]);
}

/// Sharing a document with a recipient a second time fails with the
/// duplicate-grant error, and the grant list stays as the first share left it.
pub proof fn lemma_share_twice(
    l0: Ledger,
    l1: Ledger,
    l2: Ledger,
    ctx: ShareDocument,
    key1: String,
    now1: i64,
    key2: String,
    now2: i64,
    r2: Result<(), LedgerError>,
)
    requires
        share_document_effect(l0, l1, ctx, key1, now1, Ok(())),
        share_document_effect(l1, l2, ctx, key2, now2, r2),
    ensures
        r2 == Err::<(), LedgerError>(LedgerError::Document(DocumentError::AlreadySharedWithRecipient)),
        same_cells(l1, l2),
        l2.documents()[ctx.document@].shared_with.len() == l1.documents()[ctx.document@].shared_with.len(),
{
    let g = l1.documents()[ctx.document@].shared_with@;
    assert(g[g.len() - 1].recipient == ctx.recipient);
}

/// Revoking, as the document's owner, a recipient that holds no grant fails
/// with recipient-not-found and changes nothing.
pub proof fn lemma_revoke_absent(l0: Ledger, l1: Ledger, ctx: RevokeAccess, r: Result<(), LedgerError>)
    requires
        revoke_access_effect(l0, l1, ctx, r),
        l0.documents().contains_key(ctx.document@),
        l0.documents()[ctx.document@].owner == ctx.owner,
        !has_recipient(l0.documents()[ctx.document@].shared_with@, ctx.recipient),
    ensures
        r == Err::<(), LedgerError>(LedgerError::Document(DocumentError::RecipientNotFound)),
        same_cells(l0, l1),
{
}

/// Revoking, as the document's owner, a recipient that holds a grant
/// succeeds and removes exactly that grant: no grant for the recipient is
/// left, and the others keep their relative order.  No other cell changes.
pub proof fn lemma_revoke_present(l0: Ledger, l1: Ledger, ctx: RevokeAccess, r: Result<(), LedgerError>)
    requires
        valid(l0),
        revoke_access_effect(l0, l1, ctx, r),
        l0.documents().contains_key(ctx.document@),
        l0.documents()[ctx.document@].owner == ctx.owner,
        has_recipient(l0.documents()[ctx.document@].shared_with@, ctx.recipient),
    ensures
        r is Ok,
        ({
            let before = l0.documents()[ctx.document@].shared_with@;
            let after = l1.documents()[ctx.document@].shared_with@;
            &&& exists|i: int|
                0 <= i < before.len() && before[i].recipient == ctx.recipient && after
                    == before.remove(i)
            &&& !has_recipient(after, ctx.recipient)
            &&& after.len() == before.len() - 1
        }),
        l1.registries() == l0.registries(),
        forall|a: Seq<u8>|
            a != ctx.document@ ==> (#[trigger] l1.documents().contains_key(a) == l0.documents().contains_key(a)
                && l1.documents()[a] == l0.documents()[a]),
{
    let d0: Document = l0.documents()[ctx.document@];
    let before = d0.shared_with@;
    let after = l1.documents()[ctx.document@].shared_with@;
    assert(d0.wf());
    let i = choose|i: int|
        0 <= i < before.len() && before[i].recipient == ctx.recipient && after == before.remove(i);
    assert forall|j: int| 0 <= j < after.len() implies after[j].recipient != ctx.recipient by {
        if j < i {
            assert(after[j] == before[j]);
        } else {
            assert(after[j] == before[j + 1]);
        }
    }
}

/// Closing a document removes its cell, and every grant it held with it:
/// a later lookup of its address finds nothing.  Every other document cell
/// stays as it was.
pub proof fn lemma_close_removes_document(
    l0: Ledger,
    l1: Ledger,
    ctx: CloseDocument,
)
    requires
        close_document_effect(l0, l1, ctx, Ok(())),
    ensures
        !l1.documents().contains_key(ctx.document@),
        forall|a: Seq<u8>|
            a != ctx.document@ ==> (#[trigger] l1.documents().contains_key(a) == l0.documents().contains_key(a)
                && l1.documents()[a] == l0.documents()[a]),
{
}

/// Closing a document while the owner's count is already zero succeeds and
/// leaves the count at zero: the count neither fails nor wraps.
pub proof fn lemma_close_at_zero_count(
    l0: Ledger,
    l1: Ledger,
    ctx: CloseDocument,
    r: Result<(), LedgerError>,
    registry: Seq<u8>,
)
    requires
        close_document_effect(l0, l1, ctx, r),
        crate::address::registry_address(l0.program(), ctx.user) == Some(registry),
        l0.registries().contains_key(registry),
        l0.registries()[registry].owner == ctx.owner,
        l0.registries()[registry].document_count == 0,
        l0.documents().contains_key(ctx.document@),
        l0.documents()[ctx.document@].owner == ctx.user,
    ensures
        r is Ok,
        l1.registries()[registry].document_count == 0,
{
}

} // verus!
