use crate::addresses::{offer_address_of, vault_address_of};
use vstd::prelude::*;

verus! {

/// The persisted record of one open offer: who made it, what was deposited,
/// and what is wanted in return. The record is immutable between its
/// creation by Make and its consumption by Take or Refund.
#[derive(Clone, Copy, Debug, PartialEq, Eq, Structural)]
pub struct Offer {
    /// Caller-chosen identifier; part of the address-derivation input.
    pub id: u64,
    /// Identity of the account entitled to refund the deposit.
    pub maker: u64,
    /// Identity of the asset deposited by the maker.
    pub asset_a: u64,
    /// Identity of the asset the maker wants in return.
    pub asset_b: u64,
    /// Quantity of `asset_a` locked in the custody vault.
    pub amount_a_offered: u64,
    /// Quantity of `asset_b` the taker must pay.
    pub amount_b_wanted: u64,
}

impl Offer {
    /// The record-level invariants: the two assets differ and both amounts
    /// are positive. Make refuses any input that violates one of these.
    pub open spec fn valid(self) -> bool {
        &&& self.asset_a != self.asset_b
        &&& self.amount_a_offered > 0
        &&& self.amount_b_wanted > 0
    }
}

/// One live offer in state Open: the record together with its custody
/// vault. The two exist strictly as a pair, and the vault holds exactly
/// the offered amount for the whole life of the offer.
pub struct OpenOffer {
    /// The canonical derived address the record is stored at.
    pub address: Vec<u8>,
    /// The offer record itself.
    pub record: Offer,
    /// The canonical derived address of the custody vault.
    pub vault_address: Vec<u8>,
    /// The vault's balance of `asset_a`; always `amount_a_offered`.
    pub vault_balance: u64,
}

impl OpenOffer {
    /// Well-formedness of a live offer under the given deriving authority:
    /// the record is valid, the vault holds exactly the offered amount, and
    /// both addresses are the canonical derivations from the stored identity.
    pub open spec fn wf(self, authority: Seq<u8>) -> bool {
        &&& self.record.valid()
        &&& self.vault_balance == self.record.amount_a_offered
        &&& offer_address_of(authority, self.record.id) == Some(self.address@)
        &&& vault_address_of(authority, self.address@, self.record.asset_a)
            == Some(self.vault_address@)
    }
}

} // verus!
