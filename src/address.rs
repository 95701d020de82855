//! Deterministic addressing of storage cells.
//!
//! A cell's address is derived from a namespace tag and key material by the
//! ledger's program-derived-address scheme, so cells are found without any
//! index.  The derivation itself (a hash followed by a curve-point test) is
//! the ledger runtime's; this module names its result and builds the seeds.
use vstd::prelude::*;
use vstd::string::StringSliceAdditionalSpecFns;
use vstd::utf8::encode_utf8;
use crate::key::Key;

verus! {

/// Largest number of bytes in one seed.
pub const MAX_SEED_LEN: usize = 32;

/// Largest number of seeds, the bump seed that the derivation appends included.
pub const MAX_SEEDS: usize = 16;

/// The program-derived address for `seeds` under `program_id`, or `None` when
/// no bump seed yields an address off the curve or the seeds are malformed.
pub uninterp spec fn program_address_of(seeds: Seq<Seq<u8>>, program_id: Seq<u8>) -> Option<Seq<u8>>;

/// The seeds as byte sequences.
pub open spec fn seed_views(seeds: Seq<Vec<u8>>) -> Seq<Seq<u8>> {
    seeds.map_values(|s: Vec<u8>| s@)
}

/// Whether some seed is too long, or there are too many seeds, for any
/// address to be derived from them.
pub open spec fn seeds_malformed(seeds: Seq<Seq<u8>>) -> bool {
    seeds.len() >= MAX_SEEDS || exists|i: int| 0 <= i < seeds.len() && seeds[i].len() > MAX_SEED_LEN
}

/// Relies on `Pubkey::try_find_program_address` of the ledger runtime (as
/// re-exported by anchor_lang): it is a function of the seeds and the program
/// id alone, and it gives `None` when there are 16 seeds or more or a seed
/// is longer than 32 bytes.  The bump seed it finds is not kept.
#[verifier::external_body]
fn try_find_program_address(seeds: &Vec<Vec<u8>>, program_id: &Key) -> (r: Option<Key>)
    ensures
        match r {
            Some(k) => program_address_of(seed_views(seeds@), program_id@) == Some(k@),
            None => program_address_of(seed_views(seeds@), program_id@) is None,
        },
        seeds_malformed(seed_views(seeds@)) ==> r is None,
{
    let s: Vec<&[u8]> = seeds.iter().map(|v| v.as_slice()).collect();
    let program = anchor_lang::solana_program::pubkey::Pubkey::new_from_array(program_id.bytes);
    anchor_lang::solana_program::pubkey::Pubkey::try_find_program_address(&s, &program).map(
        |(k, _bump)| Key { bytes: k.to_bytes() },
    )
}

/// The namespace tag of registry cells.
pub open spec fn registry_tag() -> Seq<u8> {
    "user_documents".spec_bytes()
}

/// The namespace tag of document cells.
pub open spec fn document_tag() -> Seq<u8> {
    "document".spec_bytes()
}

/// The seeds of the registry cell of `owner`.
pub open spec fn registry_seeds(owner: Key) -> Seq<Seq<u8>> {
    seq![registry_tag(), owner@]
}

/// `bytes` cut into consecutive seeds of `MAX_SEED_LEN` bytes, the last one
/// shorter or empty.  The derivation hashes the seeds one after another, so
/// the cut gives the address that the whole name as one seed would give, and
/// a name of any length can enter it.
pub open spec fn name_chunks(bytes: Seq<u8>) -> Seq<Seq<u8>>
    decreases bytes.len(),
{
    if bytes.len() <= MAX_SEED_LEN {
        seq![bytes]
    } else {
        seq![bytes.take(MAX_SEED_LEN as int)] + name_chunks(bytes.skip(MAX_SEED_LEN as int))
    }
}

/// The seeds of the document cell that `owner` holds under `file_name`: the
/// name enters as its UTF-8 bytes, cut into seeds of at most 32 bytes.
pub open spec fn document_seeds(owner: Key, file_name: Seq<char>) -> Seq<Seq<u8>> {
    seq![document_tag(), owner@] + name_chunks(encode_utf8(file_name))
}

/// Every chunk of `bytes` is a valid seed, and there are at most
/// `len / 32 + 1` of them.
proof fn lemma_name_chunks_bounded(bytes: Seq<u8>)
    ensures
        name_chunks(bytes).len() <= bytes.len() as int / 32 + 1,
        forall|i: int|
            0 <= i < name_chunks(bytes).len() ==> (#[trigger] name_chunks(bytes)[i]).len()
                <= MAX_SEED_LEN,
    decreases bytes.len(),
{
    if bytes.len() > MAX_SEED_LEN {
        let rest = bytes.skip(MAX_SEED_LEN as int);
        lemma_name_chunks_bounded(rest);
        let c = name_chunks(bytes);
        assert forall|i: int| 0 <= i < c.len() implies (#[trigger] c[i]).len() <= MAX_SEED_LEN by {
            if i > 0 {
                assert(c[i] == name_chunks(rest)[i - 1]);
            }
        }
    }
}

/// The seeds of a document whose name has at most 100 bytes are well formed:
/// the derivation is not ruled out for any such name.
pub proof fn lemma_document_seeds_well_formed(owner: Key, file_name: Seq<char>)
    requires
        encode_utf8(file_name).len() <= 100,
    ensures
        !seeds_malformed(document_seeds(owner, file_name)),
{
    let b = encode_utf8(file_name);
    lemma_name_chunks_bounded(b);
    let s = document_seeds(owner, file_name);
    assert(document_tag().len() == 8) by {
        reveal_strlit("document");
        assert(vstd::string::is_ascii("document"));
        vstd::string::is_ascii_spec_bytes("document");
    }
    assert forall|i: int| 0 <= i < s.len() implies (#[trigger] s[i]).len() <= MAX_SEED_LEN by {
        if i >= 2 {
            assert(s[i] == name_chunks(b)[i - 2]);
        }
    }
}

/// The address of the registry cell of `owner`, if one can be derived.
pub open spec fn registry_address(program_id: Key, owner: Key) -> Option<Seq<u8>> {
    program_address_of(registry_seeds(owner), program_id@)
}

/// The address of the document cell of (`owner`, `file_name`), if one can be
/// derived.
pub open spec fn document_address(program_id: Key, owner: Key, file_name: Seq<char>) -> Option<Seq<u8>> {
    program_address_of(document_seeds(owner, file_name), program_id@)
}

/// Derives the address of the registry cell of `owner`.
pub fn find_registry_address(program_id: &Key, owner: &Key) -> (r: Option<Key>)
    ensures
        match r {
            Some(k) => registry_address(*program_id, *owner) == Some(k@),
            None => registry_address(*program_id, *owner) is None,
        },
{
    let tag = vstd::slice::slice_to_vec("user_documents".as_bytes());
    let owner_seed = vstd::slice::slice_to_vec(owner.bytes.as_slice());
    let seeds = vec![tag, owner_seed];
    let r = try_find_program_address(&seeds, program_id);
    proof {
        assert(seed_views(seeds@) =~= registry_seeds(*owner));
    }
    r
}

/// Derives the address of the document cell of (`owner`, `file_name`).
pub fn find_document_address(program_id: &Key, owner: &Key, file_name: &String) -> (r: Option<Key>)
    ensures
        match r {
            Some(k) => document_address(*program_id, *owner, file_name@) == Some(k@),
            None => document_address(*program_id, *owner, file_name@) is None,
        },
{
    let tag = vstd::slice::slice_to_vec("document".as_bytes());
    let owner_seed = vstd::slice::slice_to_vec(owner.bytes.as_slice());
    let name = file_name.as_str().as_bytes();
    let ghost whole = name@;
    let mut seeds: Vec<Vec<u8>> = vec![tag, owner_seed];
    let mut start: usize = 0;
    proof {
        assert(whole.skip(0) =~= whole);
        assert(seed_views(seeds@) + name_chunks(whole.skip(0)) =~= document_seeds(*owner, file_name@));
    }
    while name.len() - start > MAX_SEED_LEN
        invariant
            start <= name@.len(),
            name@ == whole,
            whole == encode_utf8(file_name@),
            seed_views(seeds@) + name_chunks(whole.skip(start as int)) == document_seeds(
                *owner,
                file_name@,
            ),
        decreases name.len() - start,
    {
        let chunk = vstd::slice::slice_to_vec(
            vstd::slice::slice_subrange(name, start, start + MAX_SEED_LEN),
        );
        proof {
            let rest = whole.skip(start as int);
            assert(rest.take(MAX_SEED_LEN as int) =~= chunk@);
            assert(rest.skip(MAX_SEED_LEN as int) =~= whole.skip(start + MAX_SEED_LEN));
            assert(seed_views(seeds@.push(chunk)) =~= seed_views(seeds@).push(chunk@));
            assert(seed_views(seeds@.push(chunk)) + name_chunks(whole.skip(start + MAX_SEED_LEN))
                =~= seed_views(seeds@) + name_chunks(rest));
        }
        seeds.push(chunk);
        start = start + MAX_SEED_LEN;
    }
    let last = vstd::slice::slice_to_vec(vstd::slice::slice_subrange(name, start, name.len()));
    proof {
        assert(whole.skip(start as int) =~= last@);
        assert(seed_views(seeds@.push(last)) =~= seed_views(seeds@).push(last@));
        assert(seed_views(seeds@.push(last)) =~= seed_views(seeds@) + name_chunks(
            whole.skip(start as int),
        ));
    }
    seeds.push(last);
    try_find_program_address(&seeds, program_id)
}

} // verus!
