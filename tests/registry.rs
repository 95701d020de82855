use anchor_lang::solana_program::pubkey::Pubkey;
use document_storage::address::{find_document_address, find_registry_address};
use document_storage::cells::{document_space, text_len};
use document_storage::{
    add_document, close_document, initialize, revoke_access, share_document, AddDocument,
    CloseDocument, DocumentError, Initialize, Key, Ledger, LedgerError, RevokeAccess,
    ShareDocument, UserDocuments,
};

fn key(b: u8) -> Key {
    Key::new([b; 32])
}

fn program() -> Key {
    key(200)
}

fn doc_address(ledger: &Ledger, owner: &Key, name: &str) -> Key {
    find_document_address(&ledger.program_id(), owner, &name.to_string()).unwrap()
}

fn registry_address(ledger: &Ledger, owner: &Key) -> Key {
    find_registry_address(&ledger.program_id(), owner).unwrap()
}

fn count(ledger: &Ledger, owner: &Key) -> u64 {
    ledger.registry(&registry_address(ledger, owner)).unwrap().document_count
}

fn recipients(ledger: &Ledger, document: &Key) -> Vec<Key> {
    ledger.document(document).unwrap().shared_with.iter().map(|g| g.recipient).collect()
}

fn add(ledger: &mut Ledger, owner: Key, name: &str) -> Result<(), LedgerError> {
    add_document(
        ledger,
        &AddDocument { user: owner, owner },
        name.to_string(),
        "cid".to_string(),
        "hash".to_string(),
        7,
    )
}

fn share(ledger: &mut Ledger, document: Key, sharer: Key, recipient: Key, k: &str) -> Result<(), LedgerError> {
    share_document(ledger, &ShareDocument { document, sharer, recipient }, k.to_string(), 11)
}

fn setup_with_document(owner: Key, name: &str) -> (Ledger, Key) {
    let mut ledger = Ledger::new(program());
    initialize(&mut ledger, &Initialize { user: owner }).unwrap();
    add(&mut ledger, owner, name).unwrap();
    let d = doc_address(&ledger, &owner, name);
    (ledger, d)
}

#[test]
fn end_to_end_owner_flow() {
    let o = key(1);
    let r = key(2);
    let mut ledger = Ledger::new(program());
    assert_eq!(initialize(&mut ledger, &Initialize { user: o }), Ok(()));
    assert_eq!(count(&ledger, &o), 0);
    let added = add_document(
        &mut ledger,
        &AddDocument { user: o, owner: o },
        "a.txt".to_string(),
        "cid1".to_string(),
        "h1".to_string(),
        100,
    );
    assert_eq!(added, Ok(()));
    assert_eq!(count(&ledger, &o), 1);
    let d = doc_address(&ledger, &o, "a.txt");
    {
        let doc = ledger.document(&d).unwrap();
        assert!(doc.owner == o);
        assert_eq!(doc.file_name, "a.txt");
        assert_eq!(doc.cid, "cid1");
        assert_eq!(doc.file_hash, "h1");
        assert_eq!(doc.created_at, 100);
        assert!(doc.shared_with.is_empty());
    }
    assert_eq!(share(&mut ledger, d, o, r, "k1"), Ok(()));
    assert!(recipients(&ledger, &d) == vec![r]);
    assert_eq!(ledger.document(&d).unwrap().shared_with[0].access_key, "k1");
    assert_eq!(ledger.document(&d).unwrap().shared_with[0].shared_at, 11);
    let by_recipient = revoke_access(&mut ledger, &RevokeAccess { document: d, owner: r, recipient: r });
    assert_eq!(by_recipient, Err(LedgerError::Document(DocumentError::NotDocumentOwner)));
    assert!(recipients(&ledger, &d) == vec![r]);
    assert_eq!(revoke_access(&mut ledger, &RevokeAccess { document: d, owner: o, recipient: r }), Ok(()));
    assert!(recipients(&ledger, &d).is_empty());
    assert_eq!(close_document(&mut ledger, &CloseDocument { document: d, user: o, owner: o }), Ok(()));
    assert_eq!(count(&ledger, &o), 0);
    assert!(ledger.document(&d).is_none());
}

#[test]
fn initialize_twice_fails_and_keeps_count() {
    let o = key(1);
    let (mut ledger, _d) = setup_with_document(o, "a.txt");
    assert_eq!(count(&ledger, &o), 1);
    assert_eq!(initialize(&mut ledger, &Initialize { user: o }), Err(LedgerError::AccountAlreadyInUse));
    assert_eq!(count(&ledger, &o), 1);
}

#[test]
fn initialize_distinct_owners_get_distinct_cells() {
    let mut ledger = Ledger::new(program());
    assert_eq!(initialize(&mut ledger, &Initialize { user: key(1) }), Ok(()));
    assert_eq!(initialize(&mut ledger, &Initialize { user: key(2) }), Ok(()));
    let a1 = registry_address(&ledger, &key(1));
    let a2 = registry_address(&ledger, &key(2));
    assert!(a1 != a2);
    assert!(ledger.registry(&a1).unwrap().owner == key(1));
    assert!(ledger.registry(&a2).unwrap().owner == key(2));
}

#[test]
fn add_document_rejects_long_fields() {
    let o = key(1);
    let mut ledger = Ledger::new(program());
    initialize(&mut ledger, &Initialize { user: o }).unwrap();
    let ctx = AddDocument { user: o, owner: o };
    let long = "x".repeat(101);
    let r = add_document(&mut ledger, &ctx, long.clone(), "c".to_string(), "h".to_string(), 1);
    assert_eq!(r, Err(LedgerError::Document(DocumentError::InvalidFileName)));
    let r = add_document(&mut ledger, &ctx, "f".to_string(), long.clone(), "h".to_string(), 1);
    assert_eq!(r, Err(LedgerError::Document(DocumentError::InvalidCID)));
    let r = add_document(&mut ledger, &ctx, "f".to_string(), "c".to_string(), long.clone(), 1);
    assert_eq!(r, Err(LedgerError::Document(DocumentError::InvalidHash)));
    assert_eq!(count(&ledger, &o), 0);
    assert!(ledger.document(&doc_address(&ledger, &o, "f")).is_none());
}

#[test]
fn add_document_accepts_fields_of_exactly_one_hundred_bytes() {
    let o = key(1);
    let mut ledger = Ledger::new(program());
    initialize(&mut ledger, &Initialize { user: o }).unwrap();
    let full = "y".repeat(100);
    let r = add_document(&mut ledger, &AddDocument { user: o, owner: o }, "f".to_string(), full.clone(), full, 1);
    assert_eq!(r, Ok(()));
}

#[test]
fn add_document_accepts_names_longer_than_a_seed() {
    let o = key(1);
    let mut ledger = Ledger::new(program());
    initialize(&mut ledger, &Initialize { user: o }).unwrap();
    assert_eq!(add(&mut ledger, o, &"n".repeat(33)), Ok(()));
    assert_eq!(add(&mut ledger, o, &"n".repeat(32)), Ok(()));
    let full = "z".repeat(100);
    let r = add_document(&mut ledger, &AddDocument { user: o, owner: o }, full.clone(), full.clone(), full.clone(), 3);
    assert_eq!(r, Ok(()));
    assert_eq!(count(&ledger, &o), 3);
    let d = doc_address(&ledger, &o, &full);
    assert_eq!(ledger.document(&d).unwrap().file_name, full);
    assert!(doc_address(&ledger, &o, &"n".repeat(33)) != doc_address(&ledger, &o, &"n".repeat(32)));
}

#[test]
fn long_name_address_uses_consecutive_seeds() {
    let program_id = program();
    let owner = key(1);
    let name = "abcdefghij".repeat(7);
    let pid = Pubkey::new_from_array(program_id.bytes);
    let b = name.as_bytes();
    let (expected, _) = Pubkey::find_program_address(
        &[b"document", &owner.bytes, &b[0..32], &b[32..64], &b[64..70]],
        &pid,
    );
    let got = find_document_address(&program_id, &owner, &name).unwrap();
    assert_eq!(got.bytes, expected.to_bytes());
}

#[test]
fn cells_are_allocated_their_exact_size() {
    let o = key(1);
    let mut ledger = Ledger::new(program());
    initialize(&mut ledger, &Initialize { user: o }).unwrap();
    assert_eq!(ledger.registry_space(&registry_address(&ledger, &o)), Some(48));
    let r = add_document(
        &mut ledger,
        &AddDocument { user: o, owner: o },
        "a.txt".to_string(),
        "cid1".to_string(),
        "h1".to_string(),
        1,
    );
    assert_eq!(r, Ok(()));
    let d = doc_address(&ledger, &o, "a.txt");
    assert_eq!(ledger.document_space(&d), Some(1707));
    share(&mut ledger, d, o, key(2), "k").unwrap();
    assert_eq!(ledger.document_space(&d), Some(1707));
    assert_eq!(ledger.registry_space(&registry_address(&ledger, &o)), Some(48));
    close_document(&mut ledger, &CloseDocument { document: d, user: o, owner: o }).unwrap();
    assert_eq!(ledger.document_space(&d), None);
}

#[test]
fn add_document_without_registry_fails() {
    let mut ledger = Ledger::new(program());
    assert_eq!(add(&mut ledger, key(1), "a.txt"), Err(LedgerError::AccountNotInitialized));
}

#[test]
fn add_document_with_wrong_registry_owner_fails() {
    let o = key(1);
    let mut ledger = Ledger::new(program());
    initialize(&mut ledger, &Initialize { user: o }).unwrap();
    let r = add_document(
        &mut ledger,
        &AddDocument { user: o, owner: key(9) },
        "a.txt".to_string(),
        "c".to_string(),
        "h".to_string(),
        1,
    );
    assert_eq!(r, Err(LedgerError::Document(DocumentError::NotDocumentOwner)));
}

#[test]
fn add_same_name_twice_fails() {
    let o = key(1);
    let (mut ledger, _d) = setup_with_document(o, "a.txt");
    assert_eq!(add(&mut ledger, o, "a.txt"), Err(LedgerError::AccountAlreadyInUse));
    assert_eq!(count(&ledger, &o), 1);
    assert_eq!(add(&mut ledger, o, "b.txt"), Ok(()));
    assert_eq!(count(&ledger, &o), 2);
}

#[test]
fn share_twice_with_same_recipient_fails() {
    let o = key(1);
    let r = key(2);
    let (mut ledger, d) = setup_with_document(o, "a.txt");
    assert_eq!(share(&mut ledger, d, o, r, "k1"), Ok(()));
    assert_eq!(
        share(&mut ledger, d, o, r, "k2"),
        Err(LedgerError::Document(DocumentError::AlreadySharedWithRecipient))
    );
    assert_eq!(ledger.document(&d).unwrap().shared_with.len(), 1);
    assert_eq!(ledger.document(&d).unwrap().shared_with[0].access_key, "k1");
}

#[test]
fn share_by_non_owner_fails() {
    let o = key(1);
    let (mut ledger, d) = setup_with_document(o, "a.txt");
    assert_eq!(
        share(&mut ledger, d, key(3), key(2), "k"),
        Err(LedgerError::Document(DocumentError::NotDocumentOwner))
    );
    assert!(recipients(&ledger, &d).is_empty());
}

#[test]
fn share_rejects_long_access_key() {
    let o = key(1);
    let (mut ledger, d) = setup_with_document(o, "a.txt");
    assert_eq!(
        share(&mut ledger, d, o, key(2), &"k".repeat(501)),
        Err(LedgerError::Document(DocumentError::AccessKeyTooLong))
    );
    assert_eq!(share(&mut ledger, d, o, key(2), &"k".repeat(500)), Ok(()));
}

#[test]
fn share_unknown_document_fails() {
    let mut ledger = Ledger::new(program());
    assert_eq!(share(&mut ledger, key(5), key(1), key(2), "k"), Err(LedgerError::AccountNotInitialized));
}

#[test]
fn fourth_grant_exceeds_capacity() {
    let o = key(1);
    let (mut ledger, d) = setup_with_document(o, "a.txt");
    for r in 2..5u8 {
        assert_eq!(share(&mut ledger, d, o, key(r), &"k".repeat(500)), Ok(()));
    }
    assert_eq!(share(&mut ledger, d, o, key(9), ""), Err(LedgerError::StorageCapacityExceeded));
    assert_eq!(recipients(&ledger, &d).len(), 3);
}

#[test]
fn revoke_absent_recipient_fails() {
    let o = key(1);
    let (mut ledger, d) = setup_with_document(o, "a.txt");
    share(&mut ledger, d, o, key(2), "k").unwrap();
    let r = revoke_access(&mut ledger, &RevokeAccess { document: d, owner: o, recipient: key(3) });
    assert_eq!(r, Err(LedgerError::Document(DocumentError::RecipientNotFound)));
    assert!(recipients(&ledger, &d) == vec![key(2)]);
}

#[test]
fn revoke_keeps_order_of_others() {
    let o = key(1);
    let (mut ledger, d) = setup_with_document(o, "a.txt");
    for r in [2u8, 3, 4] {
        share(&mut ledger, d, o, key(r), "k").unwrap();
    }
    let r = revoke_access(&mut ledger, &RevokeAccess { document: d, owner: o, recipient: key(3) });
    assert_eq!(r, Ok(()));
    assert!(recipients(&ledger, &d) == vec![key(2), key(4)]);
    share(&mut ledger, d, o, key(3), "again").unwrap();
    assert!(recipients(&ledger, &d) == vec![key(2), key(4), key(3)]);
}

#[test]
fn close_removes_document_with_grants() {
    let o = key(1);
    let (mut ledger, d) = setup_with_document(o, "a.txt");
    add(&mut ledger, o, "b.txt").unwrap();
    let other = doc_address(&ledger, &o, "b.txt");
    for r in [2u8, 3, 4] {
        share(&mut ledger, d, o, key(r), "k").unwrap();
    }
    assert_eq!(close_document(&mut ledger, &CloseDocument { document: d, user: o, owner: o }), Ok(()));
    assert!(ledger.document(&d).is_none());
    assert!(ledger.document(&other).is_some());
    assert_eq!(count(&ledger, &o), 1);
    assert_eq!(
        share(&mut ledger, d, o, key(2), "k"),
        Err(LedgerError::AccountNotInitialized)
    );
    assert_eq!(add(&mut ledger, o, "a.txt"), Ok(()));
    assert!(recipients(&ledger, &d).is_empty());
}

#[test]
fn close_checks_both_owners() {
    let o = key(1);
    let p = key(2);
    let (mut ledger, d) = setup_with_document(o, "a.txt");
    initialize(&mut ledger, &Initialize { user: p }).unwrap();
    let by_other = close_document(&mut ledger, &CloseDocument { document: d, user: p, owner: p });
    assert_eq!(by_other, Err(LedgerError::Document(DocumentError::NotDocumentOwner)));
    let wrong_owner = close_document(&mut ledger, &CloseDocument { document: d, user: o, owner: p });
    assert_eq!(wrong_owner, Err(LedgerError::Document(DocumentError::NotDocumentOwner)));
    let no_registry = close_document(&mut ledger, &CloseDocument { document: d, user: key(7), owner: key(7) });
    assert_eq!(no_registry, Err(LedgerError::AccountNotInitialized));
    assert!(ledger.document(&d).is_some());
    assert_eq!(count(&ledger, &o), 1);
}

#[test]
fn decrement_saturates_at_zero() {
    let mut cell = UserDocuments::new(key(1));
    cell.decrement();
    assert_eq!(cell.document_count, 0);
    assert_eq!(cell.increment(), Ok(()));
    cell.decrement();
    cell.decrement();
    assert_eq!(cell.document_count, 0);
}

#[test]
fn increment_reports_overflow() {
    let mut cell = UserDocuments { owner: key(1), document_count: u64::MAX - 1 };
    assert_eq!(cell.increment(), Ok(()));
    assert_eq!(cell.document_count, u64::MAX);
    assert_eq!(cell.increment(), Err(LedgerError::ArithmeticOverflow));
    assert_eq!(cell.document_count, u64::MAX);
}

#[test]
fn document_space_follows_formula() {
    let s = document_space(&"a.txt".to_string(), &"cid1".to_string(), &"h1".to_string());
    assert_eq!(s, 1707);
    let empty = document_space(&String::new(), &String::new(), &String::new());
    assert_eq!(empty, 8 + 32 + 4 + 4 + 4 + 8 + 4 + 3 * (32 + 4 + 500 + 8));
}

#[test]
fn text_len_counts_utf8_bytes() {
    assert_eq!(text_len(&"abc".to_string()), 3);
    assert_eq!(text_len(&"é".to_string()), 2);
    assert_eq!(text_len(&String::new()), 0);
}

#[test]
fn derived_addresses_match_runtime_derivation() {
    let program_id = program();
    let owner = key(1);
    let pid = Pubkey::new_from_array(program_id.bytes);
    let (expected, _) = Pubkey::find_program_address(&[b"user_documents", &owner.bytes], &pid);
    let got = find_registry_address(&program_id, &owner).unwrap();
    assert_eq!(got.bytes, expected.to_bytes());
    assert!(got != owner);
    let (expected_doc, _) =
        Pubkey::find_program_address(&[b"document", &owner.bytes, b"a.txt"], &pid);
    let got_doc = find_document_address(&program_id, &owner, &"a.txt".to_string()).unwrap();
    assert_eq!(got_doc.bytes, expected_doc.to_bytes());
    assert!(got_doc != got);
    let again = find_document_address(&program_id, &owner, &"a.txt".to_string()).unwrap();
    assert!(again == got_doc);
    assert!(find_document_address(&program_id, &owner, &"b.txt".to_string()).unwrap() != got_doc);
}

#[test]
fn key_equality_compares_all_bytes() {
    let a = key(1);
    let mut bytes = [1u8; 32];
    bytes[31] = 2;
    let b = Key::new(bytes);
    assert!(!a.same(&b));
    assert!(a.same(&key(1)));
    assert!(a == key(1));
    assert!(a != b);
}
