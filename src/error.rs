//! Failures of the registry's operations.
use vstd::prelude::*;

verus! {

/// Failures that the registry's own rules report.
#[derive(Clone, Copy, Debug, PartialEq, Eq, Structural)]
pub enum DocumentError {
    /// The signer is not the owner recorded in the cell.
    NotDocumentOwner,
    /// The document already holds a grant for this recipient.
    AlreadySharedWithRecipient,
    /// The file name is longer than 100 bytes.
    InvalidFileName,
    /// The content identifier is longer than 100 bytes.
    InvalidCID,
    /// The content hash is longer than 100 bytes.
    InvalidHash,
    /// The document holds no grant for this recipient.
    RecipientNotFound,
    /// The encrypted access key is longer than 500 bytes.
    AccessKeyTooLong,
}

/// Failures of an operation against the store of cells: the registry's own,
/// and the conditions that the storage layer reports.
#[derive(Clone, Copy, Debug, PartialEq, Eq, Structural)]
pub enum LedgerError {
    /// A failure of the registry's own rules.
    Document(DocumentError),
    /// A cell already exists at the derived address.
    AccountAlreadyInUse,
    /// No cell exists at the address given or derived.
    AccountNotInitialized,
    /// The document counter is at its largest value.
    ArithmeticOverflow,
    /// The document's reserved space holds no further grant.
    StorageCapacityExceeded,
    /// No address can be derived from the seeds.
    AddressUnavailable,
}

} // verus!
