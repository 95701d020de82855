//! The store of storage cells: registry cells and document cells, each at its
//! address.
use vstd::prelude::*;
use crate::cells::{Document, UserDocuments};
use crate::key::Key;

verus! {

/// Whether `table` lists each address at most once and holds exactly the
/// cells of `cells`, each with its allocated size in `spaces`.
pub open spec fn table_matches<T>(
    table: Seq<(Key, usize, T)>,
    cells: Map<Seq<u8>, T>,
    spaces: Map<Seq<u8>, usize>,
) -> bool {
    &&& forall|i: int, j: int| 0 <= i < j < table.len() ==> table[i].0@ != table[j].0@
    &&& forall|i: int|
        0 <= i < table.len() ==> cells.contains_key(#[trigger] table[i].0@) && cells[table[i].0@]
            == table[i].2 && spaces[table[i].0@] == table[i].1
    &&& forall|a: Seq<u8>|
        cells.contains_key(a) ==> exists|i: int| 0 <= i < table.len() && #[trigger] table[i].0@ == a
    &&& spaces.dom() == cells.dom()
}

/// The position of `address` in `table`, if it is there.
fn find_entry<T>(table: &Vec<(Key, usize, T)>, address: &Key) -> (r: Option<usize>)
    ensures
        match r {
            Some(i) => i < table.len() && table@[i as int].0@ == address@,
            None => forall|i: int| 0 <= i < table.len() ==> table@[i].0@ != address@,
        },
{
    let mut i: usize = 0;
    while i < table.len()
        invariant
            i <= table.len(),
            forall|j: int| 0 <= j < i ==> table@[j].0@ != address@,
        decreases table.len() - i,
    {
        if table[i].0.same(address) {
            return Some(i);
        }
        i = i + 1;
    }
    None
}

/// Removing the entry at `i` keeps the table in step with the maps less
/// that entry's address.
proof fn lemma_remove_entry<T>(
    table: Seq<(Key, usize, T)>,
    cells: Map<Seq<u8>, T>,
    spaces: Map<Seq<u8>, usize>,
    i: int,
)
    requires
        table_matches(table, cells, spaces),
        0 <= i < table.len(),
    ensures
        table_matches(table.remove(i), cells.remove(table[i].0@), spaces.remove(table[i].0@)),
{
    let t = table.remove(i);
    let m = cells.remove(table[i].0@);
    assert forall|a: Seq<u8>| m.contains_key(a) implies exists|k: int|
        0 <= k < t.len() && #[trigger] t[k].0@ == a by {
        let k = choose|k: int| 0 <= k < table.len() && #[trigger] table[k].0@ == a;
        if k < i {
            assert(t[k].0@ == a);
        } else {
            assert(t[k - 1].0@ == a);
        }
    }
    assert(spaces.remove(table[i].0@).dom() =~= m.dom());
}

/// Appending an entry for an address not yet in the table keeps the table in
/// step with the maps extended by it.
proof fn lemma_push_entry<T>(
    table: Seq<(Key, usize, T)>,
    cells: Map<Seq<u8>, T>,
    spaces: Map<Seq<u8>, usize>,
    e: (Key, usize, T),
)
    requires
        table_matches(table, cells, spaces),
        !cells.contains_key(e.0@),
    ensures
        table_matches(table.push(e), cells.insert(e.0@, e.2), spaces.insert(e.0@, e.1)),
{
    let t = table.push(e);
    let m = cells.insert(e.0@, e.2);
    assert forall|a: Seq<u8>| m.contains_key(a) implies exists|k: int|
        0 <= k < t.len() && #[trigger] t[k].0@ == a by {
        if a != e.0@ {
            let k = choose|k: int| 0 <= k < table.len() && #[trigger] table[k].0@ == a;
            assert(t[k].0@ == a);
        } else {
            assert(t[table.len() as int].0@ == a);
        }
    }
    assert(spaces.insert(e.0@, e.1).dom() =~= m.dom());
}

/// Replacing the cell of the entry at `i`, its size kept, keeps the table in
/// step with the cell map updated at that address.
proof fn lemma_update_entry<T>(
    table: Seq<(Key, usize, T)>,
    cells: Map<Seq<u8>, T>,
    spaces: Map<Seq<u8>, usize>,
    i: int,
    c: T,
)
    requires
        table_matches(table, cells, spaces),
        0 <= i < table.len(),
    ensures
        table_matches(table.update(i, (table[i].0, table[i].1, c)), cells.insert(table[i].0@, c), spaces),
{
    let t = table.update(i, (table[i].0, table[i].1, c));
    let m = cells.insert(table[i].0@, c);
    assert forall|a: Seq<u8>| m.contains_key(a) implies exists|k: int|
        0 <= k < t.len() && #[trigger] t[k].0@ == a by {
        let k = choose|k: int| 0 <= k < table.len() && #[trigger] table[k].0@ == a;
        assert(t[k].0@ == a);
    }
    assert(spaces.dom() =~= m.dom());
}

/// The cells that a ledger program keeps: at most one registry cell and one
/// document cell at each address.
pub struct Ledger {
    /// The id of the program that owns the cells and derives their addresses.
    program_id: Key,
    registries: Vec<(Key, usize, UserDocuments)>,
    documents: Vec<(Key, usize, Document)>,
    registry_cells: Ghost<Map<Seq<u8>, UserDocuments>>,
    document_cells: Ghost<Map<Seq<u8>, Document>>,
    registry_sizes: Ghost<Map<Seq<u8>, usize>>,
    document_sizes: Ghost<Map<Seq<u8>, usize>>,
}

impl Ledger {
    /// The id of the program that owns the cells.
    pub closed spec fn program(&self) -> Key {
        self.program_id
    }

    /// The id of the program that owns the cells.
    pub fn program_id(&self) -> (r: Key)
        ensures
            r == self.program(),
    {
        self.program_id
    }

    /// The registry cells, by address.
    pub closed spec fn registries(&self) -> Map<Seq<u8>, UserDocuments> {
        self.registry_cells@
    }

    /// The document cells, by address.
    pub closed spec fn documents(&self) -> Map<Seq<u8>, Document> {
        self.document_cells@
    }

    /// The bytes allocated to each registry cell, by address.
    pub closed spec fn registry_spaces(&self) -> Map<Seq<u8>, usize> {
        self.registry_sizes@
    }

    /// The bytes allocated to each document cell, by address.
    pub closed spec fn document_spaces(&self) -> Map<Seq<u8>, usize> {
        self.document_sizes@
    }

    /// The store's internal consistency; every cell has an allocated size.
    pub closed spec fn wf(&self) -> bool {
        &&& table_matches(self.registries@, self.registry_cells@, self.registry_sizes@)
        &&& table_matches(self.documents@, self.document_cells@, self.document_sizes@)
    }

    /// An empty store for the program `program_id`.
    pub fn new(program_id: Key) -> (r: Ledger)
        ensures
            r.wf(),
            r.program() == program_id,
            r.registries() == Map::<Seq<u8>, UserDocuments>::empty(),
            r.documents() == Map::<Seq<u8>, Document>::empty(),
            r.registry_spaces() == Map::<Seq<u8>, usize>::empty(),
            r.document_spaces() == Map::<Seq<u8>, usize>::empty(),
    {
        Ledger {
            program_id,
            registries: Vec::new(),
            documents: Vec::new(),
            registry_cells: Ghost(Map::empty()),
            document_cells: Ghost(Map::empty()),
            registry_sizes: Ghost(Map::empty()),
            document_sizes: Ghost(Map::empty()),
        }
    }

    /// The registry cell at `address`, if there is one.
    pub fn registry(&self, address: &Key) -> (r: Option<&UserDocuments>)
        requires
            self.wf(),
        ensures
            match r {
                Some(c) => self.registries().contains_key(address@) && *c == self.registries()[address@],
                None => !self.registries().contains_key(address@),
            },
    {
        match find_entry(&self.registries, address) {
            Some(i) => Some(&self.registries[i].2),
            None => None,
        }
    }

    /// The document cell at `address`, if there is one.
    pub fn document(&self, address: &Key) -> (r: Option<&Document>)
        requires
            self.wf(),
        ensures
            match r {
                Some(d) => self.documents().contains_key(address@) && *d == self.documents()[address@],
                None => !self.documents().contains_key(address@),
            },
    {
        match find_entry(&self.documents, address) {
            Some(i) => Some(&self.documents[i].2),
            None => None,
        }
    }

    /// The bytes allocated to the registry cell at `address`, if there is one.
    pub fn registry_space(&self, address: &Key) -> (r: Option<usize>)
        requires
            self.wf(),
        ensures
            match r {
                Some(n) => self.registries().contains_key(address@) && n == self.registry_spaces()[address@],
                None => !self.registries().contains_key(address@),
            },
    {
        match find_entry(&self.registries, address) {
            Some(i) => Some(self.registries[i].1),
            None => None,
        }
    }

    /// The bytes allocated to the document cell at `address`, if there is one.
    pub fn document_space(&self, address: &Key) -> (r: Option<usize>)
        requires
            self.wf(),
        ensures
            match r {
                Some(n) => self.documents().contains_key(address@) && n == self.document_spaces()[address@],
                None => !self.documents().contains_key(address@),
            },
    {
        match find_entry(&self.documents, address) {
            Some(i) => Some(self.documents[i].1),
            None => None,
        }
    }

    /// Creates the registry cell `cell` at `address`, allocated `space` bytes.
    pub(crate) fn create_registry(&mut self, address: Key, space: usize, cell: UserDocuments)
        requires
            old(self).wf(),
            !old(self).registries().contains_key(address@),
        ensures
            final(self).wf(),
            final(self).program() == old(self).program(),
            final(self).registries() == old(self).registries().insert(address@, cell),
            final(self).registry_spaces() == old(self).registry_spaces().insert(address@, space),
            final(self).documents() == old(self).documents(),
            final(self).document_spaces() == old(self).document_spaces(),
    {
        proof {
            lemma_push_entry(self.registries@, self.registry_cells@, self.registry_sizes@, (address, space, cell));
        }
        self.registries.push((address, space, cell));
        self.registry_cells = Ghost(self.registry_cells@.insert(address@, cell));
        self.registry_sizes = Ghost(self.registry_sizes@.insert(address@, space));
    }

    /// Replaces the registry cell at `address` by `cell`, its allocation kept.
    pub(crate) fn update_registry(&mut self, address: &Key, cell: UserDocuments)
        requires
            old(self).wf(),
            old(self).registries().contains_key(address@),
        ensures
            final(self).wf(),
            final(self).program() == old(self).program(),
            final(self).registries() == old(self).registries().insert(address@, cell),
            final(self).registry_spaces() == old(self).registry_spaces(),
            final(self).documents() == old(self).documents(),
            final(self).document_spaces() == old(self).document_spaces(),
    {
        match find_entry(&self.registries, address) {
            Some(i) => {
                let key = self.registries[i].0;
                let space = self.registries[i].1;
                proof {
                    lemma_update_entry(self.registries@, self.registry_cells@, self.registry_sizes@, i as int, cell);
                }
                self.registries.set(i, (key, space, cell));
                self.registry_cells = Ghost(self.registry_cells@.insert(address@, cell));
            },
            None => {
                proof {
                    let k = choose|k: int|
                        0 <= k < self.registries@.len() && #[trigger] self.registries@[k].0@ == address@;
                }
            },
        }
    }

    /// Creates the document cell `doc` at `address`, allocated `space` bytes.
    pub(crate) fn create_document(&mut self, address: Key, space: usize, doc: Document)
        requires
            old(self).wf(),
            !old(self).documents().contains_key(address@),
        ensures
            final(self).wf(),
            final(self).program() == old(self).program(),
            final(self).registries() == old(self).registries(),
            final(self).registry_spaces() == old(self).registry_spaces(),
            final(self).documents() == old(self).documents().insert(address@, doc),
            final(self).document_spaces() == old(self).document_spaces().insert(address@, space),
    {
        proof {
            lemma_push_entry(self.documents@, self.document_cells@, self.document_sizes@, (address, space, doc));
        }
        self.documents.push((address, space, doc));
        self.document_cells = Ghost(self.document_cells@.insert(address@, doc));
        self.document_sizes = Ghost(self.document_sizes@.insert(address@, space));
    }

    /// Removes the document cell at `address` and hands it back with its
    /// allocation, if there is one.
    pub(crate) fn take_document(&mut self, address: &Key) -> (r: Option<(usize, Document)>)
        requires
            old(self).wf(),
        ensures
            final(self).wf(),
            final(self).program() == old(self).program(),
            final(self).registries() == old(self).registries(),
            final(self).registry_spaces() == old(self).registry_spaces(),
            final(self).documents() == old(self).documents().remove(address@),
            final(self).document_spaces() == old(self).document_spaces().remove(address@),
            match r {
                Some((n, d)) => old(self).documents().contains_key(address@) && d == old(
                    self,
                ).documents()[address@] && old(self).document_spaces().contains_key(address@)
                    && n == old(self).document_spaces()[address@],
                None => !old(self).documents().contains_key(address@) && final(self).documents()
                    == old(self).documents() && final(self).document_spaces() == old(self).document_spaces(),
            },
    {
        match find_entry(&self.documents, address) {
            Some(i) => {
                proof {
                    lemma_remove_entry(self.documents@, self.document_cells@, self.document_sizes@, i as int);
                }
                let (_, space, doc) = self.documents.remove(i);
                self.document_cells = Ghost(self.document_cells@.remove(address@));
                self.document_sizes = Ghost(self.document_sizes@.remove(address@));
                Some((space, doc))
            },
            None => {
                proof {
                    assert(self.document_cells@.remove(address@) =~= self.document_cells@);
                    assert(self.document_sizes@.remove(address@) =~= self.document_sizes@);
                }
                None
            },
        }
    }
}

} // verus!
