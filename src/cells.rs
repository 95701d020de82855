//! The registry cell, the document cell, and their space accounting.
use vstd::prelude::*;
use vstd::utf8::encode_utf8;
use crate::error::{DocumentError, LedgerError};
use crate::key::Key;

verus! {

/// Largest length in bytes of a file name, content identifier or content hash.
pub const MAX_FIELD_LEN: usize = 100;

/// Largest length in bytes of an encrypted access key.
pub const MAX_ACCESS_KEY_LEN: usize = 500;

/// Number of grants for which a document cell reserves space.
pub const MAX_GRANTS: usize = 3;

/// Bytes of the account discriminator that precedes every cell's data.
pub const DISCRIMINATOR_LEN: usize = 8;

/// Bytes of a length prefix.
pub const LEN_PREFIX: usize = 4;

/// Bytes of a timestamp.
pub const TIMESTAMP_LEN: usize = 8;

/// Bytes allocated to a registry cell: discriminator, owner and counter.
pub const REGISTRY_SPACE: usize = 48;

/// Bytes that one grant reserves: recipient, a length-prefixed access key of
/// the largest size, and a timestamp.
pub const GRANT_SPACE: usize = 544;

/// Length in bytes of the UTF-8 encoding of `s`.
pub open spec fn byte_len(s: Seq<char>) -> nat {
    encode_utf8(s).len()
}

/// Length in bytes of `s`.
pub fn text_len(s: &String) -> (r: usize)
    ensures
        r == byte_len(s@),
{
    s.as_str().as_bytes().len()
}

/// The registry cell of one owner.
#[derive(Clone, Copy, Debug)]
pub struct UserDocuments {
    pub owner: Key,
    pub document_count: u64,
}

impl UserDocuments {
    /// A fresh registry cell for `owner`, with no documents.
    pub fn new(owner: Key) -> (r: UserDocuments)
        ensures
            r.owner == owner,
            r.document_count == 0,
    {
        UserDocuments { owner, document_count: 0 }
    }

    /// Counts one more document; fails, changing nothing, when the counter
    /// is at its largest value.
    pub fn increment(&mut self) -> (r: Result<(), LedgerError>)
        ensures
            final(self).owner == old(self).owner,
            old(self).document_count == u64::MAX ==> r == Err::<(), LedgerError>(
                LedgerError::ArithmeticOverflow,
            ) && final(self).document_count == old(self).document_count,
            old(self).document_count < u64::MAX ==> r is Ok && final(self).document_count
                == old(self).document_count + 1,
    {
        match self.document_count.checked_add(1) {
            Some(c) => {
                self.document_count = c;
                Ok(())
            },
            None => Err(LedgerError::ArithmeticOverflow),
        }
    }

    /// Counts one document fewer, staying at zero rather than failing.
    pub fn decrement(&mut self)
        ensures
            final(self).owner == old(self).owner,
            final(self).document_count == saturating_dec(old(self).document_count),
    {
        self.document_count = self.document_count.saturating_sub(1);
    }
}

/// `n - 1`, or 0 when `n` is 0.
pub open spec fn saturating_dec(n: u64) -> u64 {
    if n == 0 {
        0
    } else {
        (n - 1) as u64
    }
}

/// A grant: one recipient's encrypted key to one document.
#[derive(Debug)]
pub struct SharedWith {
    pub recipient: Key,
    pub access_key: String,
    pub shared_at: i64,
}

/// A document cell: content-addressing metadata and the grants made on it.
#[derive(Debug)]
pub struct Document {
    pub owner: Key,
    pub file_name: String,
    pub cid: String,
    pub file_hash: String,
    pub created_at: i64,
    pub shared_with: Vec<SharedWith>,
}

/// Whether some grant in `grants` is for `recipient`.
pub open spec fn has_recipient(grants: Seq<SharedWith>, recipient: Key) -> bool {
    exists|i: int| 0 <= i < grants.len() && grants[i].recipient == recipient
}

/// Whether no two grants in `grants` are for the same recipient.
pub open spec fn recipients_distinct(grants: Seq<SharedWith>) -> bool {
    forall|i: int, j: int|
        0 <= i < j < grants.len() ==> grants[i].recipient != grants[j].recipient
}

/// The bytes that the grants take when serialized.
pub open spec fn grants_size(grants: Seq<SharedWith>) -> int
    decreases grants.len(),
{
    if grants.len() == 0 {
        0
    } else {
        grants_size(grants.drop_last()) + 32 + LEN_PREFIX + byte_len(grants.last().access_key@)
            + TIMESTAMP_LEN
    }
}

/// The bytes a document cell is allocated at creation: the fixed fields, the
/// three strings at their actual lengths, and a reservation for `MAX_GRANTS`
/// grants of the largest size.
pub open spec fn cell_size(file_name: Seq<char>, cid: Seq<char>, file_hash: Seq<char>) -> int {
    DISCRIMINATOR_LEN + 32 + (LEN_PREFIX + byte_len(file_name)) + (LEN_PREFIX + byte_len(cid)) + (
    LEN_PREFIX + byte_len(file_hash)) + TIMESTAMP_LEN + LEN_PREFIX + MAX_GRANTS * GRANT_SPACE
}

/// The bytes a document cell's data takes when serialized.
pub open spec fn data_size(doc: Document) -> int {
    DISCRIMINATOR_LEN + 32 + (LEN_PREFIX + byte_len(doc.file_name@)) + (LEN_PREFIX + byte_len(
        doc.cid@,
    )) + (LEN_PREFIX + byte_len(doc.file_hash@)) + TIMESTAMP_LEN + LEN_PREFIX + grants_size(
        doc.shared_with@,
    )
}

/// Computes `cell_size` for the three strings of a new document.
pub fn document_space(file_name: &String, cid: &String, file_hash: &String) -> (r: usize)
    requires
        byte_len(file_name@) <= MAX_FIELD_LEN,
        byte_len(cid@) <= MAX_FIELD_LEN,
        byte_len(file_hash@) <= MAX_FIELD_LEN,
    ensures
        r == cell_size(file_name@, cid@, file_hash@),
{
    DISCRIMINATOR_LEN + 32 + (LEN_PREFIX + text_len(file_name)) + (LEN_PREFIX + text_len(cid)) + (
    LEN_PREFIX + text_len(file_hash)) + TIMESTAMP_LEN + LEN_PREFIX + MAX_GRANTS * GRANT_SPACE
}

/// The error that sharing `doc` by `sharer` with `recipient` under
/// `access_key` meets, checked in this order, or `None` when it succeeds.
pub open spec fn share_error(doc: Document, sharer: Key, recipient: Key, access_key: Seq<char>) -> Option<
    LedgerError,
> {
    if doc.owner != sharer {
        Some(LedgerError::Document(DocumentError::NotDocumentOwner))
    } else if has_recipient(doc.shared_with@, recipient) {
        Some(LedgerError::Document(DocumentError::AlreadySharedWithRecipient))
    } else if byte_len(access_key) > MAX_ACCESS_KEY_LEN {
        Some(LedgerError::Document(DocumentError::AccessKeyTooLong))
    } else if doc.shared_with.len() >= MAX_GRANTS {
        Some(LedgerError::StorageCapacityExceeded)
    } else {
        None
    }
}

/// The error that revoking `recipient`'s grant on `doc` by `owner` meets, or
/// `None` when it succeeds.
pub open spec fn revoke_error(doc: Document, owner: Key, recipient: Key) -> Option<LedgerError> {
    if doc.owner != owner {
        Some(LedgerError::Document(DocumentError::NotDocumentOwner))
    } else if !has_recipient(doc.shared_with@, recipient) {
        Some(LedgerError::Document(DocumentError::RecipientNotFound))
    } else {
        None
    }
}

/// The result an operation reports for the error `e`, if any.
pub open spec fn outcome(e: Option<LedgerError>) -> Result<(), LedgerError> {
    match e {
        Some(e) => Err(e),
        None => Ok(()),
    }
}

impl Document {
    /// The document's invariant: fields within their bounds, at most
    /// `MAX_GRANTS` grants, and at most one grant per recipient.
    pub open spec fn wf(&self) -> bool {
        &&& byte_len(self.file_name@) <= MAX_FIELD_LEN
        &&& byte_len(self.cid@) <= MAX_FIELD_LEN
        &&& byte_len(self.file_hash@) <= MAX_FIELD_LEN
        &&& self.shared_with.len() <= MAX_GRANTS
        &&& forall|i: int|
            0 <= i < self.shared_with.len() ==> byte_len(#[trigger] self.shared_with@[i].access_key@)
                <= MAX_ACCESS_KEY_LEN
        &&& recipients_distinct(self.shared_with@)
    }

    /// A new document of `owner`, with no grants.
    pub fn new(owner: Key, file_name: String, cid: String, file_hash: String, created_at: i64) -> (r:
        Document)
        ensures
            r.owner == owner,
            r.file_name == file_name,
            r.cid == cid,
            r.file_hash == file_hash,
            r.created_at == created_at,
            r.shared_with@ == Seq::<SharedWith>::empty(),
    {
        Document { owner, file_name, cid, file_hash, created_at, shared_with: Vec::new() }
    }

    /// The position of the grant for `recipient`, if there is one.
    pub fn find_recipient(&self, recipient: &Key) -> (r: Option<usize>)
        ensures
            match r {
                Some(i) => i < self.shared_with.len() && self.shared_with@[i as int].recipient
                    == *recipient,
                None => !has_recipient(self.shared_with@, *recipient),
            },
    {
        let mut i: usize = 0;
        while i < self.shared_with.len()
            invariant
                i <= self.shared_with.len(),
                forall|j: int| 0 <= j < i ==> self.shared_with@[j].recipient != *recipient,
            decreases self.shared_with.len() - i,
        {
            if self.shared_with[i].recipient.same(recipient) {
                return Some(i);
            }
            i = i + 1;
        }
        None
    }

    /// Grants `recipient` access under `access_key`, at time `now`, when
    /// `sharer` owns the document; the grant is appended to the list.
    pub fn share(&mut self, sharer: &Key, recipient: Key, access_key: String, now: i64) -> (r: Result<
        (),
        LedgerError,
    >)
        ensures
            r == outcome(share_error(*old(self), *sharer, recipient, access_key@)),
            r is Err ==> *final(self) == *old(self),
            old(self).wf() ==> final(self).wf(),
            r is Ok ==> final(self).shared_with@ == old(self).shared_with@.push(
                (SharedWith { recipient, access_key, shared_at: now }),
            ),
            final(self).owner == old(self).owner,
            final(self).file_name == old(self).file_name,
            final(self).cid == old(self).cid,
            final(self).file_hash == old(self).file_hash,
            final(self).created_at == old(self).created_at,
    {
        if !self.owner.same(sharer) {
            return Err(LedgerError::Document(DocumentError::NotDocumentOwner));
        }
        if self.find_recipient(&recipient).is_some() {
            return Err(LedgerError::Document(DocumentError::AlreadySharedWithRecipient));
        }
        if text_len(&access_key) > MAX_ACCESS_KEY_LEN {
            return Err(LedgerError::Document(DocumentError::AccessKeyTooLong));
        }
        if self.shared_with.len() >= MAX_GRANTS {
            return Err(LedgerError::StorageCapacityExceeded);
        }
        self.shared_with.push(SharedWith { recipient, access_key, shared_at: now });
        proof {
            assert(self.shared_with@.last().access_key@ == access_key@);
        }
        Ok(())
    }

    /// Removes `recipient`'s grant when `owner` owns the document; the other
    /// grants keep their order.
    pub fn revoke(&mut self, owner: &Key, recipient: &Key) -> (r: Result<(), LedgerError>)
        ensures
            r == outcome(revoke_error(*old(self), *owner, *recipient)),
            r is Err ==> *final(self) == *old(self),
            old(self).wf() ==> final(self).wf(),
            r is Ok ==> exists|i: int|
                0 <= i < old(self).shared_with.len() && old(self).shared_with@[i].recipient
                    == *recipient && final(self).shared_with@ == old(self).shared_with@.remove(i),
            final(self).owner == old(self).owner,
            final(self).file_name == old(self).file_name,
            final(self).cid == old(self).cid,
            final(self).file_hash == old(self).file_hash,
            final(self).created_at == old(self).created_at,
    {
        if !self.owner.same(owner) {
            return Err(LedgerError::Document(DocumentError::NotDocumentOwner));
        }
        match self.find_recipient(recipient) {
            Some(i) => {
                self.shared_with.remove(i);
                Ok(())
            },
            None => Err(LedgerError::Document(DocumentError::RecipientNotFound)),
        }
    }
}

/// Grants whose access keys are within bounds take at most `GRANT_SPACE`
/// bytes each.
proof fn lemma_grants_size_bound(grants: Seq<SharedWith>)
    requires
        forall|i: int|
            0 <= i < grants.len() ==> byte_len(#[trigger] grants[i].access_key@)
                <= MAX_ACCESS_KEY_LEN,
    ensures
        0 <= grants_size(grants) <= grants.len() * GRANT_SPACE,
    decreases grants.len(),
{
    if grants.len() > 0 {
        let rest = grants.drop_last();
        assert forall|i: int| 0 <= i < rest.len() implies byte_len(#[trigger] rest[i].access_key@)
            <= MAX_ACCESS_KEY_LEN by {
            assert(rest[i] == grants[i]);
        }
        lemma_grants_size_bound(rest);
        assert(byte_len(grants[grants.len() - 1].access_key@) <= MAX_ACCESS_KEY_LEN);
    }
}

/// A well-formed document's data fits in the space that its cell was
/// allocated at creation: the reservation for `MAX_GRANTS` grants suffices.
pub proof fn lemma_data_fits_cell(doc: Document)
    requires
        doc.wf(),
    ensures
        data_size(doc) <= cell_size(doc.file_name@, doc.cid@, doc.file_hash@),
{
    lemma_grants_size_bound(doc.shared_with@);
    assert(doc.shared_with@.len() * GRANT_SPACE <= MAX_GRANTS * GRANT_SPACE) by (nonlinear_arith)
        requires
            doc.shared_with@.len() <= MAX_GRANTS,
    ;
}

} // verus!
