//! The five operations of the registry: `initialize`, `add_document`,
//! `share_document`, `revoke_access` and `close_document`.
//!
//! Each one runs atomically against the cells it names: it either applies all
//! of its effect or fails and leaves every cell as it was.  The signer's
//! identity comes from the host, which has checked the signature, and the
//! current time is passed in by the caller.
use vstd::prelude::*;
use crate::address::{document_address, find_document_address, find_registry_address, registry_address};
use crate::cells::{
    byte_len, cell_size, document_space, outcome, revoke_error, saturating_dec, share_error,
    text_len, Document, SharedWith, UserDocuments, MAX_FIELD_LEN, REGISTRY_SPACE,
};
use crate::error::{DocumentError, LedgerError};
use crate::key::Key;
use crate::store::Ledger;

verus! {

/// Accounts of `initialize`: the signer whose registry cell is created.
#[derive(Clone, Copy, Debug)]
pub struct Initialize {
    pub user: Key,
}

/// Accounts of `add_document`: the signer, who owns the new document, and
/// the owner that the signer's registry cell must record.
#[derive(Clone, Copy, Debug)]
pub struct AddDocument {
    pub user: Key,
    pub owner: Key,
}

/// Accounts of `share_document`: the document's address, the signer, and the
/// recipient of the grant.
#[derive(Clone, Copy, Debug)]
pub struct ShareDocument {
    pub document: Key,
    pub sharer: Key,
    pub recipient: Key,
}

/// Accounts of `revoke_access`: the document's address, the signer, and the
/// recipient whose grant is removed.
#[derive(Clone, Copy, Debug)]
pub struct RevokeAccess {
    pub document: Key,
    pub owner: Key,
    pub recipient: Key,
}

/// Accounts of `close_document`: the document's address, the signer, and the
/// owner that the signer's registry cell must record.
#[derive(Clone, Copy, Debug)]
pub struct CloseDocument {
    pub document: Key,
    pub user: Key,
    pub owner: Key,
}

/// The ledger's invariant: the store is consistent; every registry cell
/// stands at the address derived from its owner and is allocated
/// `REGISTRY_SPACE` bytes; every document cell is well formed, stands at the
/// address derived from its owner and name, and is allocated the `cell_size`
/// of its strings.
pub open spec fn valid(l: Ledger) -> bool {
    &&& l.wf()
    &&& forall|a: Seq<u8>|
        #[trigger] l.registries().contains_key(a) ==> registry_address(
            l.program(),
            l.registries()[a].owner,
        ) == Some(a) && l.registry_spaces()[a] == REGISTRY_SPACE
    &&& forall|a: Seq<u8>| #[trigger]
        l.documents().contains_key(a) ==> l.documents()[a].wf() && document_address(
            l.program(),
            l.documents()[a].owner,
            l.documents()[a].file_name@,
        ) == Some(a) && l.document_spaces()[a] == cell_size(
            l.documents()[a].file_name@,
            l.documents()[a].cid@,
            l.documents()[a].file_hash@,
        )
}

/// Whether two ledgers hold the same cells, with the same allocations, for
/// the same program.
pub open spec fn same_cells(a: Ledger, b: Ledger) -> bool {
    &&& a.program() == b.program()
    &&& a.registries() == b.registries()
    &&& a.documents() == b.documents()
    &&& a.registry_spaces() == b.registry_spaces()
    &&& a.document_spaces() == b.document_spaces()
}

/// Whether two documents agree on everything but their grants.
pub open spec fn same_metadata(a: Document, b: Document) -> bool {
    &&& a.owner == b.owner
    &&& a.file_name == b.file_name
    &&& a.cid == b.cid
    &&& a.file_hash == b.file_hash
    &&& a.created_at == b.created_at
}

/// The error `initialize` meets, or `None`.
pub open spec fn initialize_error(l: Ledger, ctx: Initialize) -> Option<LedgerError> {
    match registry_address(l.program(), ctx.user) {
        None => Some(LedgerError::AddressUnavailable),
        Some(a) => if l.registries().contains_key(a) {
            Some(LedgerError::AccountAlreadyInUse)
        } else {
            None
        },
    }
}

/// What `initialize` does: on success a registry cell for the signer, with no
/// documents, at the address derived from the signer, allocated
/// `REGISTRY_SPACE` bytes.
pub open spec fn initialize_effect(
    before: Ledger,
    after: Ledger,
    ctx: Initialize,
    r: Result<(), LedgerError>,
) -> bool {
    &&& r == outcome(initialize_error(before, ctx))
    &&& after.program() == before.program()
    &&& r is Err ==> same_cells(before, after)
    &&& r is Ok ==> {
        &&& after.registries() == before.registries().insert(
            registry_address(before.program(), ctx.user)->0,
            (UserDocuments { owner: ctx.user, document_count: 0 }),
        )
        &&& after.registry_spaces() == before.registry_spaces().insert(
            registry_address(before.program(), ctx.user)->0,
            REGISTRY_SPACE,
        )
        &&& after.documents() == before.documents()
        &&& after.document_spaces() == before.document_spaces()
    }
}

/// Creates the signer's registry cell, with a document count of zero.
pub fn initialize(ledger: &mut Ledger, ctx: &Initialize) -> (r: Result<(), LedgerError>)
    requires
        valid(*old(ledger)),
    ensures
        valid(*final(ledger)),
        initialize_effect(*old(ledger), *final(ledger), *ctx, r),
{
    let program_id = ledger.program_id();
    let address = match find_registry_address(&program_id, &ctx.user) {
        Some(a) => a,
        None => return Err(LedgerError::AddressUnavailable),
    };
    if ledger.registry(&address).is_some() {
        return Err(LedgerError::AccountAlreadyInUse);
    }
    ledger.create_registry(address, REGISTRY_SPACE, UserDocuments::new(ctx.user));
    Ok(())
}

/// The error `add_document` meets, or `None`.
pub open spec fn add_document_error(
    l: Ledger,
    ctx: AddDocument,
    file_name: Seq<char>,
    cid: Seq<char>,
    file_hash: Seq<char>,
) -> Option<LedgerError> {
    match registry_address(l.program(), ctx.user) {
        None => Some(LedgerError::AddressUnavailable),
        Some(ra) => if !l.registries().contains_key(ra) {
            Some(LedgerError::AccountNotInitialized)
        } else if l.registries()[ra].owner != ctx.owner {
            Some(LedgerError::Document(DocumentError::NotDocumentOwner))
        } else if byte_len(file_name) > MAX_FIELD_LEN {
            Some(LedgerError::Document(DocumentError::InvalidFileName))
        } else if byte_len(cid) > MAX_FIELD_LEN {
            Some(LedgerError::Document(DocumentError::InvalidCID))
        } else if byte_len(file_hash) > MAX_FIELD_LEN {
            Some(LedgerError::Document(DocumentError::InvalidHash))
        } else {
            match document_address(l.program(), ctx.user, file_name) {
                None => Some(LedgerError::AddressUnavailable),
                Some(da) => if l.documents().contains_key(da) {
                    Some(LedgerError::AccountAlreadyInUse)
                } else if l.registries()[ra].document_count == u64::MAX {
                    Some(LedgerError::ArithmeticOverflow)
                } else {
                    None
                },
            }
        },
    }
}

/// What `add_document` does: on success a new document cell for the signer,
/// with no grants, at the address derived from the signer and the file name,
/// allocated `cell_size` bytes for its strings and three grants, and one more
/// document counted in the signer's registry cell.
pub open spec fn add_document_effect(
    before: Ledger,
    after: Ledger,
    ctx: AddDocument,
    file_name: String,
    cid: String,
    file_hash: String,
    now: i64,
    r: Result<(), LedgerError>,
) -> bool {
    let ra = registry_address(before.program(), ctx.user)->0;
    let da = document_address(before.program(), ctx.user, file_name@)->0;
    &&& r == outcome(add_document_error(before, ctx, file_name@, cid@, file_hash@))
    &&& after.program() == before.program()
    &&& r is Err ==> same_cells(before, after)
    &&& r is Ok ==> {
        &&& after.registries() == before.registries().insert(
            ra,
            (UserDocuments {
                owner: before.registries()[ra].owner,
                document_count: (before.registries()[ra].document_count + 1) as u64,
            }),
        )
        &&& after.registry_spaces() == before.registry_spaces()
        &&& after.documents() == before.documents().insert(da, after.documents()[da])
        &&& after.document_spaces() == before.document_spaces().insert(
            da,
            cell_size(file_name@, cid@, file_hash@) as usize,
        )
        &&& after.documents()[da].owner == ctx.user
        &&& after.documents()[da].file_name == file_name
        &&& after.documents()[da].cid == cid
        &&& after.documents()[da].file_hash == file_hash
        &&& after.documents()[da].created_at == now
        &&& after.documents()[da].shared_with@.len() == 0
    }
}

/// Creates the document cell of (signer, `file_name`), created at `now`, and
/// counts it in the signer's registry cell.
pub fn add_document(
    ledger: &mut Ledger,
    ctx: &AddDocument,
    file_name: String,
    cid: String,
    file_hash: String,
    now: i64,
) -> (r: Result<(), LedgerError>)
    requires
        valid(*old(ledger)),
    ensures
        valid(*final(ledger)),
        add_document_effect(*old(ledger), *final(ledger), *ctx, file_name, cid, file_hash, now, r),
{
    let program_id = ledger.program_id();
    let ra = match find_registry_address(&program_id, &ctx.user) {
        Some(a) => a,
        None => return Err(LedgerError::AddressUnavailable),
    };
    let mut registry = match ledger.registry(&ra) {
        Some(c) => *c,
        None => return Err(LedgerError::AccountNotInitialized),
    };
    if !registry.owner.same(&ctx.owner) {
        return Err(LedgerError::Document(DocumentError::NotDocumentOwner));
    }
    if text_len(&file_name) > MAX_FIELD_LEN {
        return Err(LedgerError::Document(DocumentError::InvalidFileName));
    }
    if text_len(&cid) > MAX_FIELD_LEN {
        return Err(LedgerError::Document(DocumentError::InvalidCID));
    }
    if text_len(&file_hash) > MAX_FIELD_LEN {
        return Err(LedgerError::Document(DocumentError::InvalidHash));
    }
    let da = match find_document_address(&program_id, &ctx.user, &file_name) {
        Some(a) => a,
        None => return Err(LedgerError::AddressUnavailable),
    };
    if ledger.document(&da).is_some() {
        return Err(LedgerError::AccountAlreadyInUse);
    }
    match registry.increment() {
        Ok(()) => {},
        Err(e) => return Err(e),
    }
    let space = document_space(&file_name, &cid, &file_hash);
    ledger.update_registry(&ra, registry);
    let doc = Document::new(ctx.user, file_name, cid, file_hash, now);
    ledger.create_document(da, space, doc);
    Ok(())
}

/// The error `share_document` meets, or `None`.
pub open spec fn share_document_error(l: Ledger, ctx: ShareDocument, access_key: Seq<char>) -> Option<
    LedgerError,
> {
    if !l.documents().contains_key(ctx.document@) {
        Some(LedgerError::AccountNotInitialized)
    } else {
        share_error(l.documents()[ctx.document@], ctx.sharer, ctx.recipient, access_key)
    }
}

/// What `share_document` does: on success the document's grants gain, at
/// their end, one for the recipient made at `now`; nothing else changes.
pub open spec fn share_document_effect(
    before: Ledger,
    after: Ledger,
    ctx: ShareDocument,
    access_key: String,
    now: i64,
    r: Result<(), LedgerError>,
) -> bool {
    let a = ctx.document@;
    &&& r == outcome(share_document_error(before, ctx, access_key@))
    &&& after.program() == before.program()
    &&& r is Err ==> same_cells(before, after)
    &&& r is Ok ==> {
        &&& after.registries() == before.registries()
        &&& after.registry_spaces() == before.registry_spaces()
        &&& after.document_spaces() == before.document_spaces()
        &&& after.documents() == before.documents().insert(a, after.documents()[a])
        &&& same_metadata(before.documents()[a], after.documents()[a])
        &&& after.documents()[a].shared_with@ == before.documents()[a].shared_with@.push(
            (SharedWith { recipient: ctx.recipient, access_key, shared_at: now }),
        )
    }
}

/// Grants the recipient access to the document under `access_key`, at time
/// `now`, when the signer owns the document.
pub fn share_document(ledger: &mut Ledger, ctx: &ShareDocument, access_key: String, now: i64) -> (r:
    Result<(), LedgerError>)
    requires
        valid(*old(ledger)),
    ensures
        valid(*final(ledger)),
        share_document_effect(*old(ledger), *final(ledger), *ctx, access_key, now, r),
{
    let (space, mut doc) = match ledger.take_document(&ctx.document) {
        Some(entry) => entry,
        None => return Err(LedgerError::AccountNotInitialized),
    };
    let r = doc.share(&ctx.sharer, ctx.recipient, access_key, now);
    ledger.create_document(ctx.document, space, doc);
    proof {
        let a = ctx.document@;
        assert(ledger.documents() =~= old(ledger).documents().insert(a, ledger.documents()[a]));
        assert(ledger.document_spaces() =~= old(ledger).document_spaces());
        if r is Err {
            assert(ledger.documents() =~= old(ledger).documents());
        }
        assert forall|b: Seq<u8>| #[trigger] ledger.documents().contains_key(b) implies ledger.documents()[b].wf()
            && document_address(
            ledger.program(),
            ledger.documents()[b].owner,
            ledger.documents()[b].file_name@,
        ) == Some(b) by {
            if b != a {
                assert(old(ledger).documents().contains_key(b));
            }
        }
    }
    r
}

/// The error `revoke_access` meets, or `None`.
pub open spec fn revoke_access_error(l: Ledger, ctx: RevokeAccess) -> Option<LedgerError> {
    if !l.documents().contains_key(ctx.document@) {
        Some(LedgerError::AccountNotInitialized)
    } else {
        revoke_error(l.documents()[ctx.document@], ctx.owner, ctx.recipient)
    }
}

/// Whether `after`'s grants are `before`'s without the one grant for
/// `recipient`, the others kept in their order, and the rest of the document
/// is unchanged.
pub open spec fn grant_removed(before: Document, after: Document, recipient: Key) -> bool {
    &&& same_metadata(before, after)
    &&& exists|i: int|
        0 <= i < before.shared_with.len() && before.shared_with@[i].recipient == recipient
            && after.shared_with@ == before.shared_with@.remove(i)
}

/// What `revoke_access` does: on success the recipient's grant leaves the
/// document; nothing else changes.
pub open spec fn revoke_access_effect(
    before: Ledger,
    after: Ledger,
    ctx: RevokeAccess,
    r: Result<(), LedgerError>,
) -> bool {
    let a = ctx.document@;
    &&& r == outcome(revoke_access_error(before, ctx))
    &&& after.program() == before.program()
    &&& r is Err ==> same_cells(before, after)
    &&& r is Ok ==> {
        &&& after.registries() == before.registries()
        &&& after.registry_spaces() == before.registry_spaces()
        &&& after.document_spaces() == before.document_spaces()
        &&& after.documents() == before.documents().insert(a, after.documents()[a])
        &&& grant_removed(before.documents()[a], after.documents()[a], ctx.recipient)
    }
}

/// Removes the recipient's grant from the document when the signer owns it.
pub fn revoke_access(ledger: &mut Ledger, ctx: &RevokeAccess) -> (r: Result<(), LedgerError>)
    requires
        valid(*old(ledger)),
    ensures
        valid(*final(ledger)),
        revoke_access_effect(*old(ledger), *final(ledger), *ctx, r),
{
    let (space, mut doc) = match ledger.take_document(&ctx.document) {
        Some(entry) => entry,
        None => return Err(LedgerError::AccountNotInitialized),
    };
    let r = doc.revoke(&ctx.owner, &ctx.recipient);
    ledger.create_document(ctx.document, space, doc);
    proof {
        let a = ctx.document@;
        assert(ledger.documents() =~= old(ledger).documents().insert(a, ledger.documents()[a]));
        assert(ledger.document_spaces() =~= old(ledger).document_spaces());
        if r is Err {
            assert(ledger.documents() =~= old(ledger).documents());
        }
        assert forall|b: Seq<u8>| #[trigger] ledger.documents().contains_key(b) implies ledger.documents()[b].wf()
            && document_address(
            ledger.program(),
            ledger.documents()[b].owner,
            ledger.documents()[b].file_name@,
        ) == Some(b) by {
            if b != a {
                assert(old(ledger).documents().contains_key(b));
            }
        }
    }
    r
}

/// The error `close_document` meets, or `None`: both the signer's registry
/// cell and the document are checked for ownership.
pub open spec fn close_document_error(l: Ledger, ctx: CloseDocument) -> Option<LedgerError> {
    match registry_address(l.program(), ctx.user) {
        None => Some(LedgerError::AddressUnavailable),
        Some(ra) => if !l.registries().contains_key(ra) {
            Some(LedgerError::AccountNotInitialized)
        } else if l.registries()[ra].owner != ctx.owner {
            Some(LedgerError::Document(DocumentError::NotDocumentOwner))
        } else if !l.documents().contains_key(ctx.document@) {
            Some(LedgerError::AccountNotInitialized)
        } else if l.documents()[ctx.document@].owner != ctx.user {
            Some(LedgerError::Document(DocumentError::NotDocumentOwner))
        } else {
            None
        },
    }
}

/// What `close_document` does: on success the document cell, with all its
/// grants, is gone, and the signer's registry counts one document fewer,
/// staying at zero.
pub open spec fn close_document_effect(
    before: Ledger,
    after: Ledger,
    ctx: CloseDocument,
    r: Result<(), LedgerError>,
) -> bool {
    let ra = registry_address(before.program(), ctx.user)->0;
    &&& r == outcome(close_document_error(before, ctx))
    &&& after.program() == before.program()
    &&& r is Err ==> same_cells(before, after)
    &&& r is Ok ==> {
        &&& after.registries() == before.registries().insert(
            ra,
            (UserDocuments {
                owner: before.registries()[ra].owner,
                document_count: saturating_dec(before.registries()[ra].document_count),
            }),
        )
        &&& after.registry_spaces() == before.registry_spaces()
        &&& after.documents() == before.documents().remove(ctx.document@)
        &&& after.document_spaces() == before.document_spaces().remove(ctx.document@)
    }
}

/// Destroys the document cell, grants and all, and counts one document fewer
/// in the signer's registry cell.
pub fn close_document(ledger: &mut Ledger, ctx: &CloseDocument) -> (r: Result<(), LedgerError>)
    requires
        valid(*old(ledger)),
    ensures
        valid(*final(ledger)),
        close_document_effect(*old(ledger), *final(ledger), *ctx, r),
{
    let program_id = ledger.program_id();
    let ra = match find_registry_address(&program_id, &ctx.user) {
        Some(a) => a,
        None => return Err(LedgerError::AddressUnavailable),
    };
    let mut registry = match ledger.registry(&ra) {
        Some(c) => *c,
        None => return Err(LedgerError::AccountNotInitialized),
    };
    if !registry.owner.same(&ctx.owner) {
        return Err(LedgerError::Document(DocumentError::NotDocumentOwner));
    }
    match ledger.document(&ctx.document) {
        None => return Err(LedgerError::AccountNotInitialized),
        Some(d) => {
            if !d.owner.same(&ctx.user) {
                return Err(LedgerError::Document(DocumentError::NotDocumentOwner));
            }
        },
    }
    registry.decrement();
    ledger.update_registry(&ra, registry);
    let _closed = ledger.take_document(&ctx.document);
    Ok(())
}

} // verus!
