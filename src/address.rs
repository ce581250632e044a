//! Program-derived addresses: where a user's record and the treasury live.
use vstd::prelude::*;

verus! {

/// The address and bump seed that `seeds` yield under the program
/// `program_id`, or `None` where no bump seed gives an address off the curve.
pub uninterp spec fn program_address(seeds: Seq<Seq<u8>>, program_id: Seq<u8>) -> Option<(Seq<u8>, u8)>;

/// The bytes of each seed.
pub open spec fn seeds_view(seeds: Seq<Vec<u8>>) -> Seq<Seq<u8>> {
    seeds.map_values(|s: Vec<u8>| s@)
}

/// What a derivation returned, read as plain bytes.
pub open spec fn derived_view(r: Option<([u8; 32], u8)>) -> Option<(Seq<u8>, u8)> {
    match r {
        Some((a, b)) => Some((a@, b)),
        None => None,
    }
}

/// The address that `seeds`, bump seed included, give under `program_id`, or
/// `None` where the seeds are too many or too long or the address falls on
/// the curve.
pub uninterp spec fn created_address(seeds: Seq<Seq<u8>>, program_id: Seq<u8>) -> Option<Seq<u8>>;

/// What a re-derivation returned, read as plain bytes.
pub open spec fn created_view(r: Option<[u8; 32]>) -> Option<Seq<u8>> {
    match r {
        Some(a) => Some(a@),
        None => None,
    }
}

/// Relies on `Pubkey::try_find_program_address` (solana_program, through
/// anchor_lang): the first bump seed, counting down from 255, whose address is
/// off the ed25519 curve, and that address; a function of the bytes alone.
/// The source finds it by calling `create_program_address` on the seeds with
/// the bump seed appended, so that call gives the same address back.
#[verifier::external_body]
fn try_find_program_address(seeds: &Vec<Vec<u8>>, program_id: &[u8; 32]) -> (r: Option<([u8; 32], u8)>)
    ensures
        derived_view(r) == program_address(seeds_view(seeds@), program_id@),
        r matches Some((a, b)) ==> created_address(seeds_view(seeds@).push(seq![b]), program_id@) == Some(a@),
{
    let slices: Vec<&[u8]> = seeds.iter().map(|s| s.as_slice()).collect();
    let id = anchor_lang::prelude::Pubkey::new_from_array(*program_id);
    anchor_lang::prelude::Pubkey::try_find_program_address(&slices, &id).map(|(a, b)| (a.to_bytes(), b))
}

/// Relies on `Pubkey::create_program_address` (solana_program, through
/// anchor_lang): the address that the seeds give under the program, or an
/// error; a function of the bytes alone.
#[verifier::external_body]
fn create_program_address(seeds: &Vec<Vec<u8>>, program_id: &[u8; 32]) -> (r: Option<[u8; 32]>)
    ensures
        created_view(r) == created_address(seeds_view(seeds@), program_id@),
{
    let slices: Vec<&[u8]> = seeds.iter().map(|s| s.as_slice()).collect();
    let id = anchor_lang::prelude::Pubkey::new_from_array(*program_id);
    anchor_lang::prelude::Pubkey::create_program_address(&slices, &id).ok().map(|a| a.to_bytes())
}

/// The namespace tag of user records: the bytes of "user".
pub open spec fn user_tag() -> Seq<u8> {
    seq![117u8, 115u8, 101u8, 114u8]
}

/// The namespace tag of the treasury: the bytes of "treasury".
pub open spec fn treasury_tag() -> Seq<u8> {
    seq![116u8, 114u8, 101u8, 97u8, 115u8, 117u8, 114u8, 121u8]
}

/// Where the record of `owner` lives.
pub open spec fn user_address(program_id: Seq<u8>, owner: Seq<u8>) -> Option<(Seq<u8>, u8)> {
    program_address(seq![user_tag(), owner], program_id)
}

/// Where the treasury lives.
pub open spec fn treasury_address(program_id: Seq<u8>) -> Option<(Seq<u8>, u8)> {
    program_address(seq![treasury_tag()], program_id)
}

fn user_seed() -> (r: Vec<u8>)
    ensures
        r@ == user_tag(),
{
    let r = vec![117u8, 115u8, 101u8, 114u8];
    assert(r@ =~= user_tag());
    r
}

fn treasury_seed() -> (r: Vec<u8>)
    ensures
        r@ == treasury_tag(),
{
    let r = vec![116u8, 114u8, 101u8, 97u8, 115u8, 117u8, 114u8, 121u8];
    assert(r@ =~= treasury_tag());
    r
}

/// Whether two keys hold the same bytes.
pub(crate) fn keys_equal(a: &[u8; 32], b: &[u8; 32]) -> (r: bool)
    ensures
        r == (*a == *b),
{
    let mut i: usize = 0;
    while i < 32
        invariant
            i <= 32,
            forall|j: int| 0 <= j < i ==> a@[j] == b@[j],
        decreases 32 - i,
    {
        if a[i] != b[i] {
            return false;
        }
        i = i + 1;
    }
    assert(*a =~= *b);
    true
}

fn key_bytes(k: &[u8; 32]) -> (r: Vec<u8>)
    ensures
        r@ == k@,
{
    let mut r: Vec<u8> = Vec::new();
    let mut i: usize = 0;
    while i < 32
        invariant
            i <= 32,
            r@ == k@.subrange(0, i as int),
        decreases 32 - i,
    {
        r.push(k[i]);
        i = i + 1;
        assert(r@ =~= k@.subrange(0, i as int));
    }
    assert(k@.subrange(0, 32) =~= k@);
    r
}

/// The address of `owner`'s record under `program_id`, and its bump seed.
pub fn derive_user_address(program_id: &[u8; 32], owner: &[u8; 32]) -> (r: Option<([u8; 32], u8)>)
    ensures
        derived_view(r) == user_address(program_id@, owner@),
        r matches Some((a, b)) ==> user_address_with_bump(program_id@, owner@, b) == Some(a@),
{
    let seeds = vec![user_seed(), key_bytes(owner)];
    assert(seeds_view(seeds@) =~= seq![user_tag(), owner@]);
    let r = try_find_program_address(&seeds, program_id);
    if let Some((_, b)) = r {
        assert(seeds_view(seeds@).push(seq![b]) =~= seq![user_tag(), owner@, seq![b]]);
    }
    r
}

/// The address of the treasury under `program_id`, and its bump seed.
pub fn derive_treasury_address(program_id: &[u8; 32]) -> (r: Option<([u8; 32], u8)>)
    ensures
        derived_view(r) == treasury_address(program_id@),
{
    let seeds = vec![treasury_seed()];
    assert(seeds_view(seeds@) =~= seq![treasury_tag()]);
    try_find_program_address(&seeds, program_id)
}

/// Where the record of `owner` lives if its bump seed is `bump`.
pub open spec fn user_address_with_bump(program_id: Seq<u8>, owner: Seq<u8>, bump: u8) -> Option<Seq<u8>> {
    created_address(seq![user_tag(), owner, seq![bump]], program_id)
}

/// Whether `address` is the record address of `owner` under the stored bump
/// seed `bump`: one derivation, with no search for the bump.
pub fn is_user_address(program_id: &[u8; 32], owner: &[u8; 32], bump: u8, address: &[u8; 32]) -> (r: bool)
    ensures
        r == (user_address_with_bump(program_id@, owner@, bump) == Some(address@)),
{
    let bump_seed = vec![bump];
    assert(bump_seed@ =~= seq![bump]);
    let seeds = vec![user_seed(), key_bytes(owner), bump_seed];
    assert(seeds_view(seeds@) =~= seq![user_tag(), owner@, seq![bump]]);
    match create_program_address(&seeds, program_id) {
        Some(a) => {
            let same = keys_equal(&a, address);
            proof {
                if a@ == address@ {
                    assert(a =~= *address);
                }
            }
            same
        },
        None => false,
    }
}

/// Deriving an address is idempotent: two derivations from the same seeds
/// and program give the same address and the same bump seed.
pub proof fn lemma_derivation_idempotent(
    seeds: Seq<Seq<u8>>,
    program_id: Seq<u8>,
    first: Option<([u8; 32], u8)>,
    second: Option<([u8; 32], u8)>,
)
    requires
        derived_view(first) == program_address(seeds, program_id),
        derived_view(second) == program_address(seeds, program_id),
    ensures
        first == second,
{
    match first {
        Some((a1, b1)) => {
            let (a2, b2) = second.unwrap();
            assert(a1@ =~= a2@);
            assert(a1 == a2);
        },
        None => {},
    }
}

} // verus!
