use crate::addresses::{
    bytes_equal, derive_offer_address, derive_vault_address, offer_address_of, vault_address_of,
};
use crate::errors::EscrowError;
use crate::offer::{Offer, OpenOffer};
use vstd::prelude::*;

verus! {

/// The caller-supplied fields and identities for a Make operation.
#[derive(Clone, Copy, Debug, PartialEq, Eq, Structural)]
pub struct MakeOffer {
    /// Caller-chosen offer identifier, unique among live offers.
    pub id: u64,
    /// Identity of the maker, the authority creating the offer.
    pub maker: u64,
    /// Identity of the asset the maker deposits.
    pub asset_a: u64,
    /// Identity of the asset the maker wants in return.
    pub asset_b: u64,
    /// Quantity of `asset_a` to lock in the custody vault.
    pub amount_a_offered: u64,
    /// Quantity of `asset_b` the taker must pay.
    pub amount_b_wanted: u64,
}

/// The account references for a Take operation. The holdings themselves are
/// passed to `Escrow::take_offer` directly.
pub struct TakeOffer {
    /// Identity of the taker fulfilling the offer.
    pub taker: u64,
    /// The offer-record address the caller claims to settle.
    pub offer_address: Vec<u8>,
    /// The custody-vault address the caller supplies for it.
    pub vault_address: Vec<u8>,
}

/// The account references for a Refund operation.
pub struct RefundOffer {
    /// Identity of the caller asking for the refund.
    pub caller: u64,
    /// The offer-record address the caller claims to reclaim.
    pub offer_address: Vec<u8>,
    /// The custody-vault address the caller supplies for it.
    pub vault_address: Vec<u8>,
}

/// The escrow engine: the deriving authority's identity and the set of live
/// offers, each paired with its funded custody vault. Every operation is a
/// single atomic unit: it either applies in full or leaves all state
/// untouched and reports why.
pub struct Escrow {
    /// The 32-byte identity under which custody addresses are derived; no
    /// private key exists for addresses derived from it.
    pub authority: Vec<u8>,
    /// The live offers, one per occupied derived address.
    pub offers: Vec<OpenOffer>,
}

impl Escrow {
    /// System-level well-formedness: every live offer is well formed under
    /// the authority, and no two occupy the same derived address.
    pub open spec fn wf(self) -> bool {
        &&& self.authority@.len() == 32
        &&& forall|i: int|
            0 <= i < self.offers@.len() ==> (#[trigger] self.offers@[i]).wf(self.authority@)
        &&& forall|i: int, j: int|
            0 <= i < j < self.offers@.len() ==> self.offers@[i].address@
                != self.offers@[j].address@
    }

    /// Whether some live offer occupies the given address.
    pub open spec fn has_offer_at(self, address: Seq<u8>) -> bool {
        exists|i: int|
            0 <= i < self.offers@.len() && (#[trigger] self.offers@[i]).address@ == address
    }

    /// The position of the live offer at the given address, when one exists.
    pub open spec fn index_at(self, address: Seq<u8>) -> int {
        choose|i: int|
            0 <= i < self.offers@.len() && (#[trigger] self.offers@[i]).address@ == address
    }

    /// The live offer at the given address, when one exists.
    pub open spec fn offer_at(self, address: Seq<u8>) -> OpenOffer {
        self.offers@[self.index_at(address)]
    }

    /// A fresh engine with no live offers.
    pub fn new(authority: Vec<u8>) -> (r: Escrow)
        requires
            authority@.len() == 32,
        ensures
            r.wf(),
            r.authority@ == authority@,
            r.offers@.len() == 0,
    {
        Escrow { authority, offers: Vec::new() }
    }

    /// The outcome Make owes for the given request and maker balance: the
    /// first failing precondition, in the fixed validation order, or `None`
    /// when Make must succeed.
    pub open spec fn make_error(self, req: MakeOffer, maker_balance_a: u64) -> Option<
        EscrowError,
    > {
        if req.asset_a == req.asset_b {
            Some(EscrowError::InvalidSameMint)
        } else if req.amount_a_offered == 0 {
            Some(EscrowError::InvalidOfferedAmount)
        } else if req.amount_b_wanted == 0 {
            Some(EscrowError::InvalidWantedAmount)
        } else {
            match offer_address_of(self.authority@, req.id) {
                None => Some(EscrowError::AddressMismatch),
                Some(address) => if self.has_offer_at(address) {
                    Some(EscrowError::DuplicateOfferId)
                } else {
                    match vault_address_of(self.authority@, address, req.asset_a) {
                        None => Some(EscrowError::AddressMismatch),
                        Some(_) => if maker_balance_a < req.amount_a_offered {
                            Some(EscrowError::InsufficientFunds)
                        } else {
                            None
                        },
                    }
                },
            }
        }
    }

    /// Create and fund a new offer: validate the request, allocate the
    /// record at its derived address, and move the offered amount from the
    /// maker's holding into the custody vault — all as one atomic unit.
    pub fn make_offer(&mut self, req: &MakeOffer, maker_holding_a: &mut u64) -> (r: Result<
        (),
        EscrowError,
    >)
        requires
            old(self).wf(),
        ensures
            final(self).wf(),
            match old(self).make_error(*req, *old(maker_holding_a)) {
                Some(e) => {
                    &&& r == Err::<(), EscrowError>(e)
                    &&& *final(self) == *old(self)
                    &&& *final(maker_holding_a) == *old(maker_holding_a)
                },
                None => {
                    &&& r == Ok::<(), EscrowError>(())
                    &&& *final(maker_holding_a) + req.amount_a_offered == *old(maker_holding_a)
                    &&& make_applied(*old(self), *final(self), *req)
                },
            },
    {
        if req.asset_a == req.asset_b {
            return Err(EscrowError::InvalidSameMint);
        }
        if req.amount_a_offered == 0 {
            return Err(EscrowError::InvalidOfferedAmount);
        }
        if req.amount_b_wanted == 0 {
            return Err(EscrowError::InvalidWantedAmount);
        }
        let offer_address = match derive_offer_address(&self.authority, req.id) {
            Some(address) => address,
            None => {
                return Err(EscrowError::AddressMismatch);
            },
        };
        if let Some(occupied) = self.find_index(&offer_address) {
            proof {
                assert(old(self).offers@[occupied as int].address@ == offer_address@);
                assert(old(self).has_offer_at(offer_address@));
            }
            return Err(EscrowError::DuplicateOfferId);
        }
        let vault_address = match derive_vault_address(&self.authority, &offer_address, req.asset_a)
            {
            Some(address) => address,
            None => {
                return Err(EscrowError::AddressMismatch);
            },
        };
        if *maker_holding_a < req.amount_a_offered {
            return Err(EscrowError::InsufficientFunds);
        }
        *maker_holding_a = *maker_holding_a - req.amount_a_offered;
        let entry = OpenOffer {
            address: offer_address,
            record: Offer {
                id: req.id,
                maker: req.maker,
                asset_a: req.asset_a,
                asset_b: req.asset_b,
                amount_a_offered: req.amount_a_offered,
                amount_b_wanted: req.amount_b_wanted,
            },
            vault_address,
            vault_balance: req.amount_a_offered,
        };
        self.offers.push(entry);
        proof {
            let pre = *old(self);
            let post = *self;
            assert(post.offers@.subrange(0, pre.offers@.len() as int) =~= pre.offers@);
            assert forall|i: int, j: int|
                0 <= i < j < post.offers@.len() implies post.offers@[i].address@
                != post.offers@[j].address@ by {
                if j == post.offers@.len() - 1 {
                    assert(pre.offers@[i].address@ != post.offers@[j].address@);
                }
            }
        }
        Ok(())
    }

    /// The outcome Take owes for the given references and taker balance:
    /// the supplied addresses must be the canonical ones recomputed from
    /// the stored record, and the taker must be able to pay.
    pub open spec fn take_error(self, req: TakeOffer, taker_balance_b: u64) -> Option<
        EscrowError,
    > {
        if !self.has_offer_at(req.offer_address@) {
            Some(EscrowError::AddressMismatch)
        } else if vault_address_of(
            self.authority@,
            self.offer_at(req.offer_address@).address@,
            self.offer_at(req.offer_address@).record.asset_a,
        ) != Some(req.vault_address@) {
            Some(EscrowError::AddressMismatch)
        } else if taker_balance_b < self.offer_at(req.offer_address@).record.amount_b_wanted {
            Some(EscrowError::InsufficientFunds)
        } else {
            None
        }
    }

    /// Fulfill an open offer atomically: pay the maker the wanted amount of
    /// asset B from the taker's holding, drain the custody vault's asset A
    /// into the taker's holding, and destroy the record and vault. On any
    /// failure nothing moves and the offer stays open.
    pub fn take_offer(
        &mut self,
        req: &TakeOffer,
        taker_holding_a: &mut u64,
        taker_holding_b: &mut u64,
        maker_holding_b: &mut u64,
    ) -> (r: Result<(), EscrowError>)
        requires
            old(self).wf(),
            old(self).has_offer_at(req.offer_address@) ==> *old(taker_holding_a) + old(
                self,
            ).offer_at(req.offer_address@).record.amount_a_offered <= u64::MAX && *old(
                maker_holding_b,
            ) + old(self).offer_at(req.offer_address@).record.amount_b_wanted <= u64::MAX,
        ensures
            final(self).wf(),
            match old(self).take_error(*req, *old(taker_holding_b)) {
                Some(e) => {
                    &&& r == Err::<(), EscrowError>(e)
                    &&& *final(self) == *old(self)
                    &&& *final(taker_holding_a) == *old(taker_holding_a)
                    &&& *final(taker_holding_b) == *old(taker_holding_b)
                    &&& *final(maker_holding_b) == *old(maker_holding_b)
                },
                None => {
                    &&& r == Ok::<(), EscrowError>(())
                    &&& *final(taker_holding_a) == *old(taker_holding_a) + old(self).offer_at(
                        req.offer_address@,
                    ).record.amount_a_offered
                    &&& *final(taker_holding_b) + old(self).offer_at(
                        req.offer_address@,
                    ).record.amount_b_wanted == *old(taker_holding_b)
                    &&& *final(maker_holding_b) == *old(maker_holding_b) + old(self).offer_at(
                        req.offer_address@,
                    ).record.amount_b_wanted
                    &&& final(self).offers@ == old(self).offers@.remove(
                        old(self).index_at(req.offer_address@),
                    )
                    &&& !final(self).has_offer_at(req.offer_address@)
                    &&& final(self).authority@ == old(self).authority@
                },
            },
    {
        let idx = match self.find_index(&req.offer_address) {
            Some(i) => i,
            None => {
                return Err(EscrowError::AddressMismatch);
            },
        };
        proof {
            lemma_found_index(*self, req.offer_address@, idx as int);
        }
        let stored_id = self.offers[idx].record.id;
        let recomputed_offer = match derive_offer_address(&self.authority, stored_id) {
            Some(address) => address,
            None => {
                return Err(EscrowError::AddressMismatch);
            },
        };
        if !bytes_equal(&recomputed_offer, &req.offer_address) {
            return Err(EscrowError::AddressMismatch);
        }
        let stored_asset_a = self.offers[idx].record.asset_a;
        let recomputed_vault = match derive_vault_address(
            &self.authority,
            &self.offers[idx].address,
            stored_asset_a,
        ) {
            Some(address) => address,
            None => {
                return Err(EscrowError::AddressMismatch);
            },
        };
        if !bytes_equal(&recomputed_vault, &req.vault_address) {
            return Err(EscrowError::AddressMismatch);
        }
        let wanted = self.offers[idx].record.amount_b_wanted;
        if *taker_holding_b < wanted {
            return Err(EscrowError::InsufficientFunds);
        }
        *taker_holding_b = *taker_holding_b - wanted;
        *maker_holding_b = *maker_holding_b + wanted;
        let entry = self.offers.remove(idx);
        *taker_holding_a = *taker_holding_a + entry.vault_balance;
        proof {
            lemma_wf_after_remove(*old(self), *self, idx as int);
        }
        Ok(())
    }

    /// The outcome Refund owes for the given references: only the stored
    /// maker may reclaim, and the supplied addresses must be the canonical
    /// ones recomputed from the stored record.
    pub open spec fn refund_error(self, req: RefundOffer) -> Option<EscrowError> {
        if !self.has_offer_at(req.offer_address@) {
            Some(EscrowError::AddressMismatch)
        } else if req.caller != self.offer_at(req.offer_address@).record.maker {
            Some(EscrowError::Unauthorized)
        } else if vault_address_of(
            self.authority@,
            self.offer_at(req.offer_address@).address@,
            self.offer_at(req.offer_address@).record.asset_a,
        ) != Some(req.vault_address@) {
            Some(EscrowError::AddressMismatch)
        } else {
            None
        }
    }

    /// Reclaim an open offer atomically: return the custody vault's full
    /// asset A balance to the maker's holding and destroy the record and
    /// vault. Only the stored maker may do this; on any failure nothing
    /// moves and the offer stays open.
    pub fn refund_offer(&mut self, req: &RefundOffer, maker_holding_a: &mut u64) -> (r: Result<
        (),
        EscrowError,
    >)
        requires
            old(self).wf(),
            old(self).has_offer_at(req.offer_address@) ==> *old(maker_holding_a) + old(
                self,
            ).offer_at(req.offer_address@).vault_balance <= u64::MAX,
        ensures
            final(self).wf(),
            match old(self).refund_error(*req) {
                Some(e) => {
                    &&& r == Err::<(), EscrowError>(e)
                    &&& *final(self) == *old(self)
                    &&& *final(maker_holding_a) == *old(maker_holding_a)
                },
                None => {
                    &&& r == Ok::<(), EscrowError>(())
                    &&& *final(maker_holding_a) == *old(maker_holding_a) + old(self).offer_at(
                        req.offer_address@,
                    ).record.amount_a_offered
                    &&& final(self).offers@ == old(self).offers@.remove(
                        old(self).index_at(req.offer_address@),
                    )
                    &&& !final(self).has_offer_at(req.offer_address@)
                    &&& final(self).authority@ == old(self).authority@
                },
            },
    {
        let idx = match self.find_index(&req.offer_address) {
            Some(i) => i,
            None => {
                return Err(EscrowError::AddressMismatch);
            },
        };
        proof {
            lemma_found_index(*self, req.offer_address@, idx as int);
        }
        if req.caller != self.offers[idx].record.maker {
            return Err(EscrowError::Unauthorized);
        }
        let stored_id = self.offers[idx].record.id;
        let recomputed_offer = match derive_offer_address(&self.authority, stored_id) {
            Some(address) => address,
            None => {
                return Err(EscrowError::AddressMismatch);
            },
        };
        if !bytes_equal(&recomputed_offer, &req.offer_address) {
            return Err(EscrowError::AddressMismatch);
        }
        let stored_asset_a = self.offers[idx].record.asset_a;
        let recomputed_vault = match derive_vault_address(
            &self.authority,
            &self.offers[idx].address,
            stored_asset_a,
        ) {
            Some(address) => address,
            None => {
                return Err(EscrowError::AddressMismatch);
            },
        };
        if !bytes_equal(&recomputed_vault, &req.vault_address) {
            return Err(EscrowError::AddressMismatch);
        }
        let entry = self.offers.remove(idx);
        *maker_holding_a = *maker_holding_a + entry.vault_balance;
        proof {
            lemma_wf_after_remove(*old(self), *self, idx as int);
        }
        Ok(())
    }

    /// The number of live offers.
    pub fn open_offer_count(&self) -> (n: usize)
        ensures
            n == self.offers@.len(),
    {
        self.offers.len()
    }

    /// Whether a live offer occupies the given address.
    pub fn is_open(&self, address: &Vec<u8>) -> (r: bool)
        ensures
            r == self.has_offer_at(address@),
    {
        match self.find_index(address) {
            Some(i) => {
                proof {
                    assert(self.offers@[i as int].address@ == address@);
                }
                true
            },
            None => false,
        }
    }

    /// The record stored at the given address, when a live offer is there.
    pub fn offer_record(&self, address: &Vec<u8>) -> (r: Option<Offer>)
        requires
            self.wf(),
        ensures
            match r {
                Some(record) => self.has_offer_at(address@) && record == self.offer_at(
                    address@,
                ).record,
                None => !self.has_offer_at(address@),
            },
    {
        match self.find_index(address) {
            Some(i) => {
                proof {
                    lemma_found_index(*self, address@, i as int);
                }
                Some(self.offers[i].record)
            },
            None => None,
        }
    }

    /// Find the position of the live offer at an address, if any.
    fn find_index(&self, address: &Vec<u8>) -> (r: Option<usize>)
        ensures
            match r {
                Some(i) => i < self.offers@.len() && self.offers@[i as int].address@ == address@,
                None => !self.has_offer_at(address@),
            },
    {
        let n = self.offers.len();
        let mut i: usize = 0;
        while i < n
            invariant
                n == self.offers@.len(),
                0 <= i <= n,
                forall|k: int|
                    0 <= k < i ==> (#[trigger] self.offers@[k]).address@ != address@,
            decreases n - i,
        {
            if bytes_equal(&self.offers[i].address, address) {
                return Some(i);
            }
            i += 1;
        }
        None
    }
}

/// What a successful Make leaves behind: the earlier live offers untouched,
/// plus exactly one new record at its canonical derived address, paired with
/// a vault funded with exactly the offered amount.
pub open spec fn make_applied(pre: Escrow, post: Escrow, req: MakeOffer) -> bool {
    &&& post.authority@ == pre.authority@
    &&& post.offers@.len() == pre.offers@.len() + 1
    &&& post.offers@.subrange(0, pre.offers@.len() as int) == pre.offers@
    &&& entry_for(post.offers@.last(), pre.authority@, req)
}

/// The shape of the live offer that a Make request creates.
pub open spec fn entry_for(entry: OpenOffer, authority: Seq<u8>, req: MakeOffer) -> bool {
    &&& entry.record == (Offer {
        id: req.id,
        maker: req.maker,
        asset_a: req.asset_a,
        asset_b: req.asset_b,
        amount_a_offered: req.amount_a_offered,
        amount_b_wanted: req.amount_b_wanted,
    })
    &&& entry.vault_balance == req.amount_a_offered
    &&& offer_address_of(authority, req.id) == Some(entry.address@)
    &&& vault_address_of(authority, entry.address@, req.asset_a) == Some(entry.vault_address@)
}

/// Destroying one live offer preserves system-level well-formedness and
/// really closes it: nothing remains at its address.
proof fn lemma_wf_after_remove(pre: Escrow, post: Escrow, i: int)
    requires
        pre.wf(),
        0 <= i < pre.offers@.len(),
        post.authority@ == pre.authority@,
        post.offers@ == pre.offers@.remove(i),
    ensures
        post.wf(),
        !post.has_offer_at(pre.offers@[i].address@),
{
    pre.offers@.remove_ensures(i);
    assert forall|k: int|
        0 <= k < post.offers@.len() implies (#[trigger] post.offers@[k]).address@
        != pre.offers@[i].address@ by {
        if k < i {
            assert(pre.offers@[k].address@ != pre.offers@[i].address@);
        } else {
            assert(post.offers@[k] == pre.offers@[k + 1]);
            assert(pre.offers@[i].address@ != pre.offers@[k + 1].address@);
        }
    }
    assert forall|k: int|
        0 <= k < post.offers@.len() implies (#[trigger] post.offers@[k]).wf(post.authority@) by {
        if k < i {
            assert(post.offers@[k] == pre.offers@[k]);
        } else {
            assert(post.offers@[k] == pre.offers@[k + 1]);
        }
    }
    assert forall|k: int, l: int|
        0 <= k < l < post.offers@.len() implies post.offers@[k].address@
        != post.offers@[l].address@ by {
        let pk: int = if k < i {
            k
        } else {
            k + 1
        };
        let pl: int = if l < i {
            l
        } else {
            l + 1
        };
        assert(post.offers@[k] == pre.offers@[pk]);
        assert(post.offers@[l] == pre.offers@[pl]);
        assert(pre.offers@[pk].address@ != pre.offers@[pl].address@);
    }
}

/// In a well-formed engine the position of a live offer's address is unique,
/// so any found position is the canonical one.
pub proof fn lemma_found_index(s: Escrow, address: Seq<u8>, i: int)
    requires
        s.wf(),
        0 <= i < s.offers@.len(),
        s.offers@[i].address@ == address,
    ensures
        s.has_offer_at(address),
        s.index_at(address) == i,
        s.offer_at(address) == s.offers@[i],
{
    assert(s.has_offer_at(address));
    let j = s.index_at(address);
    if i < j {
        assert(s.offers@[i].address@ != s.offers@[j].address@);
    } else if j < i {
        assert(s.offers@[j].address@ != s.offers@[i].address@);
    }
}

} // verus!
