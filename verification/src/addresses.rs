use vstd::bytes::{spec_u64_to_le_bytes, u64_to_le_bytes};
use vstd::prelude::*;

verus! {

/// The address that the outside derivation yields for a pair of seeds under
/// a deriving authority, or `None` in the statistically improbable event
/// that no bump seed yields an off-curve point. The derivation is a pure
/// function of its inputs: the same seeds and authority always give the
/// same result, on every machine.
pub uninterp spec fn derived_address(
    seed_a: Seq<u8>,
    seed_b: Seq<u8>,
    authority: Seq<u8>,
) -> Option<Seq<u8>>;

/// Relies on anchor_lang's `Pubkey::try_find_program_address`: the returned
/// program-derived address is a deterministic function of the seeds and the
/// program id alone, a `Pubkey` is exactly 32 bytes, and no private key
/// exists for the derived address.
#[verifier::external_body]
fn find_address(seed_a: &Vec<u8>, seed_b: &Vec<u8>, authority: &Vec<u8>) -> (r: Option<Vec<u8>>)
    requires
        authority@.len() == 32,
    ensures
        match r {
            Some(a) => derived_address(seed_a@, seed_b@, authority@) == Some(a@) && a@.len()
                == 32,
            None => derived_address(seed_a@, seed_b@, authority@) is None,
        },
{
    let program = anchor_lang::prelude::Pubkey::try_from(authority.as_slice()).unwrap();
    let seeds: [&[u8]; 2] = [seed_a.as_slice(), seed_b.as_slice()];
    anchor_lang::prelude::Pubkey::try_find_program_address(&seeds, &program)
        .map(|(address, _bump)| address.to_bytes().to_vec())
}

/// The namespace tag distinguishing offer records from other address
/// families: the bytes of "offer".
pub open spec fn offer_seed_tag() -> Seq<u8> {
    seq![111u8, 102u8, 102u8, 101u8, 114u8]
}

fn offer_seed_tag_bytes() -> (r: Vec<u8>)
    ensures
        r@ == offer_seed_tag(),
{
    let mut tag: Vec<u8> = Vec::new();
    tag.push(111);
    tag.push(102);
    tag.push(102);
    tag.push(101);
    tag.push(114);
    proof {
        assert(tag@ =~= offer_seed_tag());
    }
    tag
}

/// The canonical address of the offer record with the given id, derived
/// under the authority from the namespace tag and the id.
pub open spec fn offer_address_of(authority: Seq<u8>, id: u64) -> Option<Seq<u8>> {
    derived_address(offer_seed_tag(), spec_u64_to_le_bytes(id), authority)
}

/// The canonical address of the custody vault paired with an offer record:
/// a second-order derivation keyed on the offer address and the deposited
/// asset's identity.
pub open spec fn vault_address_of(
    authority: Seq<u8>,
    offer_address: Seq<u8>,
    asset_a: u64,
) -> Option<Seq<u8>> {
    derived_address(offer_address, spec_u64_to_le_bytes(asset_a), authority)
}

/// Compute the canonical offer-record address for an id. Same inputs always
/// yield the same address; `None` only if the derivation finds no bump.
pub fn derive_offer_address(authority: &Vec<u8>, id: u64) -> (r: Option<Vec<u8>>)
    requires
        authority@.len() == 32,
    ensures
        match r {
            Some(a) => offer_address_of(authority@, id) == Some(a@) && a@.len() == 32,
            None => offer_address_of(authority@, id) is None,
        },
{
    let tag = offer_seed_tag_bytes();
    let id_bytes = u64_to_le_bytes(id);
    find_address(&tag, &id_bytes, authority)
}

/// Compute the canonical custody-vault address for an offer record.
pub fn derive_vault_address(authority: &Vec<u8>, offer_address: &Vec<u8>, asset_a: u64) -> (r:
    Option<Vec<u8>>)
    requires
        authority@.len() == 32,
    ensures
        match r {
            Some(a) => vault_address_of(authority@, offer_address@, asset_a) == Some(a@)
                && a@.len() == 32,
            None => vault_address_of(authority@, offer_address@, asset_a) is None,
        },
{
    let asset_bytes = u64_to_le_bytes(asset_a);
    find_address(offer_address, &asset_bytes, authority)
}

/// Byte-for-byte equality of two addresses.
pub fn bytes_equal(a: &Vec<u8>, b: &Vec<u8>) -> (r: bool)
    ensures
        r == (a@ == b@),
{
    if a.len() != b.len() {
        return false;
    }
    let n = a.len();
    let mut i: usize = 0;
    while i < n
        invariant
            n == a@.len(),
            n == b@.len(),
            0 <= i <= n,
            forall|k: int| 0 <= k < i ==> a@[k] == b@[k],
        decreases n - i,
    {
        if a[i] != b[i] {
            return false;
        }
        i += 1;
    }
    proof {
        assert(a@ =~= b@);
    }
    true
}

} // verus!
