use crate::addresses::{offer_address_of, vault_address_of};
use crate::engine::{
    entry_for, lemma_found_index, make_applied, Escrow, MakeOffer, RefundOffer, TakeOffer,
};
use crate::errors::EscrowError;
use vstd::prelude::*;

verus! {

/// Make always succeeds on a valid request: the assets differ, both
/// amounts are positive, the maker can fund the deposit, the canonical
/// addresses exist, and no live record occupies the derived address.
/// Together with `Escrow::make_offer`'s postcondition this says a valid
/// Make creates exactly one new live offer and debits the maker's holding
/// by exactly the offered amount.
pub proof fn lemma_make_succeeds(s: Escrow, req: MakeOffer, maker_balance_a: u64)
    requires
        req.asset_a != req.asset_b,
        req.amount_a_offered > 0,
        req.amount_b_wanted > 0,
        maker_balance_a >= req.amount_a_offered,
        match offer_address_of(s.authority@, req.id) {
            Some(address) => !s.has_offer_at(address) && vault_address_of(
                s.authority@,
                address,
                req.asset_a,
            ) is Some,
            None => false,
        },
    ensures
        s.make_error(req, maker_balance_a) is None,
{
}

/// Make with the same asset on both sides always fails with
/// `InvalidSameMint`, regardless of the amounts, the balance, or the rest
/// of the system's state; `Escrow::make_offer`'s postcondition then says
/// nothing changes.
pub proof fn lemma_make_same_mint_rejected(s: Escrow, req: MakeOffer, maker_balance_a: u64)
    requires
        req.asset_a == req.asset_b,
    ensures
        s.make_error(req, maker_balance_a) == Some(EscrowError::InvalidSameMint),
{
}

/// Make with a zero offered or zero wanted amount always fails, for any
/// asset pair; when the assets differ the error names the offending
/// amount.
pub proof fn lemma_make_zero_amount_rejected(s: Escrow, req: MakeOffer, maker_balance_a: u64)
    requires
        req.amount_a_offered == 0 || req.amount_b_wanted == 0,
    ensures
        s.make_error(req, maker_balance_a) is Some,
        req.asset_a != req.asset_b && req.amount_a_offered == 0 ==> s.make_error(
            req,
            maker_balance_a,
        ) == Some(EscrowError::InvalidOfferedAmount),
        req.asset_a != req.asset_b && req.amount_a_offered > 0 && req.amount_b_wanted == 0
            ==> s.make_error(req, maker_balance_a) == Some(EscrowError::InvalidWantedAmount),
{
}

/// A maker whose holding is strictly short of the offered amount can never
/// complete a Make: the operation fails, and on an otherwise valid request
/// the error is `InsufficientFunds`. `Escrow::make_offer`'s postcondition
/// adds that a failed Make never debits the holding at all.
pub proof fn lemma_make_underfunded_rejected(s: Escrow, req: MakeOffer, maker_balance_a: u64)
    requires
        maker_balance_a < req.amount_a_offered,
    ensures
        s.make_error(req, maker_balance_a) is Some,
        req.asset_a != req.asset_b && req.amount_a_offered > 0 && req.amount_b_wanted > 0
            && (match offer_address_of(s.authority@, req.id) {
            Some(address) => !s.has_offer_at(address) && vault_address_of(
                s.authority@,
                address,
                req.asset_a,
            ) is Some,
            None => false,
        }) ==> s.make_error(req, maker_balance_a) == Some(EscrowError::InsufficientFunds),
{
}

/// Two Make calls with the same id leave exactly one live offer: after a
/// successful Make, any second Make reusing the id fails — on an otherwise
/// well-shaped request precisely with `DuplicateOfferId` — and
/// `Escrow::make_offer`'s postcondition says the failed call leaves the
/// first call's state untouched.
pub proof fn lemma_duplicate_id_rejected(
    pre: Escrow,
    post: Escrow,
    first: MakeOffer,
    first_balance: u64,
    second: MakeOffer,
    second_balance: u64,
)
    requires
        pre.wf(),
        pre.make_error(first, first_balance) is None,
        make_applied(pre, post, first),
        second.id == first.id,
    ensures
        post.make_error(second, second_balance) is Some,
        second.asset_a != second.asset_b && second.amount_a_offered > 0
            && second.amount_b_wanted > 0 ==> post.make_error(second, second_balance) == Some(
            EscrowError::DuplicateOfferId,
        ),
{
    let entry = post.offers@.last();
    assert(entry_for(entry, pre.authority@, first));
    assert(post.offers@[post.offers@.len() - 1].address@ == entry.address@);
    assert(post.has_offer_at(entry.address@));
}

/// Refund undoes a successful Make completely: called by the stored maker
/// with the canonical addresses, it is owed success, it returns exactly
/// the deposited amount — restoring the maker's holding to its value
/// before the Make — and it leaves the live offers exactly as they were
/// before the Make.
pub proof fn lemma_make_then_refund_restores(
    pre: Escrow,
    post: Escrow,
    req: MakeOffer,
    balance_before: u64,
    balance_after: u64,
    refund: RefundOffer,
)
    requires
        pre.wf(),
        post.wf(),
        pre.make_error(req, balance_before) is None,
        make_applied(pre, post, req),
        balance_after + req.amount_a_offered == balance_before,
        refund.caller == req.maker,
        refund.offer_address@ == post.offers@.last().address@,
        refund.vault_address@ == post.offers@.last().vault_address@,
    ensures
        post.refund_error(refund) is None,
        balance_after + post.offer_at(refund.offer_address@).record.amount_a_offered
            == balance_before,
        post.offers@.remove(post.index_at(refund.offer_address@)) == pre.offers@,
{
    let last: int = post.offers@.len() - 1;
    lemma_found_index(post, refund.offer_address@, last);
    assert(post.offers@.remove(last) =~= pre.offers@);
}

/// Take is owed success on an open offer when the supplied vault address
/// is the canonical one and the taker can pay the wanted amount. Together
/// with `Escrow::take_offer`'s postcondition this says the taker then
/// gains exactly the offered amount of asset A, the maker gains exactly
/// the wanted amount of asset B, the taker pays exactly the wanted
/// amount, and the offer closes — all together.
pub proof fn lemma_take_succeeds(s: Escrow, req: TakeOffer, taker_balance_b: u64)
    requires
        s.has_offer_at(req.offer_address@),
        vault_address_of(
            s.authority@,
            s.offer_at(req.offer_address@).address@,
            s.offer_at(req.offer_address@).record.asset_a,
        ) == Some(req.vault_address@),
        taker_balance_b >= s.offer_at(req.offer_address@).record.amount_b_wanted,
    ensures
        s.take_error(req, taker_balance_b) is None,
{
}

/// A taker whose asset B holding is strictly short of the wanted amount is
/// refused with `InsufficientFunds`; `Escrow::take_offer`'s postcondition
/// says the offer then remains open and no balance moves.
pub proof fn lemma_take_underfunded_rejected(s: Escrow, req: TakeOffer, taker_balance_b: u64)
    requires
        s.has_offer_at(req.offer_address@),
        vault_address_of(
            s.authority@,
            s.offer_at(req.offer_address@).address@,
            s.offer_at(req.offer_address@).record.asset_a,
        ) == Some(req.vault_address@),
        taker_balance_b < s.offer_at(req.offer_address@).record.amount_b_wanted,
    ensures
        s.take_error(req, taker_balance_b) == Some(EscrowError::InsufficientFunds),
{
}

/// Closed is terminal: at an address holding no live record, every Take
/// and every Refund is refused with `AddressMismatch`, whatever balances
/// the caller brings.
pub proof fn lemma_closed_offer_rejected(
    s: Escrow,
    take: TakeOffer,
    taker_balance_b: u64,
    refund: RefundOffer,
)
    requires
        !s.has_offer_at(take.offer_address@),
        !s.has_offer_at(refund.offer_address@),
    ensures
        s.take_error(take, taker_balance_b) == Some(EscrowError::AddressMismatch),
        s.refund_error(refund) == Some(EscrowError::AddressMismatch),
{
}

/// Nobody but the stored maker can refund an open offer: any other caller
/// is refused with `Unauthorized`, and `Escrow::refund_offer`'s
/// postcondition says the offer stays open and no balance moves.
pub proof fn lemma_refund_non_maker_rejected(s: Escrow, req: RefundOffer)
    requires
        s.has_offer_at(req.offer_address@),
        req.caller != s.offer_at(req.offer_address@).record.maker,
    ensures
        s.refund_error(req) == Some(EscrowError::Unauthorized),
{
}

} // verus!
