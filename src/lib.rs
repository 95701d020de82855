//! A per-owner document-metadata registry with capability-based sharing.
//!
//! The library models the persistent storage cells of a ledger program: one
//! registry cell per owner, counting that owner's documents, and one document
//! cell per (owner, file name), holding content-addressing metadata and a
//! bounded list of sharing grants.  Cells are located by addresses derived
//! from a namespace tag and key material, and every operation re-validates
//! ownership from the cells themselves.

pub mod address;
pub mod cells;
pub mod document_storage;
pub mod error;
pub mod key;
pub mod lemmas;
pub mod store;

pub use crate::cells::{Document, SharedWith, UserDocuments};
pub use crate::document_storage::{
    add_document, close_document, initialize, revoke_access, share_document, AddDocument,
    CloseDocument, Initialize, RevokeAccess, ShareDocument,
};
pub use crate::error::{DocumentError, LedgerError};
pub use crate::key::Key;
pub use crate::store::Ledger;
