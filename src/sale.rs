//! The rules of a single sale: which requests it takes, who wins, and when
//! it may be settled.
use vstd::prelude::*;
use crate::types::{ContractError, DurationType, RequestModel, SaleModel, SaleType};

verus! {

/// Index of the first request carrying the highest price.
pub open spec fn first_max_index(reqs: Seq<RequestModel>) -> int
    decreases reqs.len(),
{
    if reqs.len() <= 1 {
        0
    } else {
        let i = first_max_index(reqs.drop_last());
        if reqs[i].price < reqs.last().price { reqs.len() - 1 } else { i }
    }
}

/// The winning index of a sale of type `t` with requests `reqs`.
pub open spec fn winner_index(t: SaleType, reqs: Seq<RequestModel>) -> int {
    match t {
        SaleType::Offer => first_max_index(reqs),
        _ => reqs.len() - 1,
    }
}

/// The sale no longer takes requests at block time `now` (seconds).
pub open spec fn requests_closed(m: SaleModel, now: u64) -> bool {
    match m.duration_type {
        DurationType::Fixed => false,
        DurationType::Time(end) => now > end,
        DurationType::Bid(n) => m.requests.len() >= n,
    }
}

/// The sale may be settled at block time `now` (seconds).
pub open spec fn settle_open(m: SaleModel, now: u64) -> bool {
    match m.duration_type {
        DurationType::Fixed => true,
        DurationType::Time(end) => now >= end,
        DurationType::Bid(n) => m.requests.len() >= n,
    }
}

/// The price does not meet the floor that the sale type sets.
pub open spec fn price_too_low(m: SaleModel, price: u128) -> bool {
    match m.sale_type {
        SaleType::Fixed => price < m.initial_price,
        SaleType::Auction => (m.requests.len() == 0 && price <= m.initial_price) || (m.requests.len() > 0
            && m.requests.last().price >= price),
        SaleType::Offer => false,
    }
}

/// Why a request of `price` at time `now` is refused, if it is.
pub open spec fn submit_error(m: SaleModel, price: u128, now: u64) -> Option<ContractError> {
    if requests_closed(m, now) {
        Some(ContractError::AlreadyExpired {})
    } else if m.sale_type == SaleType::Fixed && m.requests.len() > 0 {
        Some(ContractError::AlreadyFinished {})
    } else if price_too_low(m, price) {
        Some(ContractError::LowerThanPrevious {})
    } else {
        None
    }
}

/// The sale after a request of `price` from `bidder` is accepted.
pub open spec fn submitted(m: SaleModel, bidder: Seq<char>, price: u128) -> SaleModel {
    let reqs = m.requests.push(RequestModel { address: bidder, price });
    SaleModel { requests: reqs, sell_index: winner_index(m.sale_type, reqs) as u32, ..m }
}

/// A freshly listed sale.
pub open spec fn fresh_sale(
    token_id: u32,
    provider: Seq<char>,
    sale_type: SaleType,
    duration_type: DurationType,
    initial_price: u128,
    royalty: u32,
) -> SaleModel {
    SaleModel {
        token_id,
        provider,
        sale_type,
        duration_type,
        initial_price,
        royalty,
        requests: Seq::empty(),
        sell_index: 0,
    }
}

/// What holds of every sale record between operations.
pub open spec fn sale_inv(m: SaleModel) -> bool {
    &&& m.requests.len() <= u32::MAX
    &&& m.requests.len() == 0 ==> m.sell_index == 0
    &&& m.requests.len() > 0 ==> m.sell_index == winner_index(m.sale_type, m.requests)
    &&& m.sale_type == SaleType::Fixed ==> m.duration_type == DurationType::Fixed && m.requests.len() <= 1
    &&& m.sale_type == SaleType::Fixed ==> forall|i: int|
        0 <= i < m.requests.len() ==> (#[trigger] m.requests[i]).price >= m.initial_price
    &&& m.sale_type == SaleType::Auction ==> forall|i: int, j: int|
        0 <= i < j < m.requests.len() ==> (#[trigger] m.requests[i]).price < (#[trigger] m.requests[j]).price
    &&& m.sale_type == SaleType::Auction && m.requests.len() > 0 ==> m.requests[0].price > m.initial_price
    &&& m.duration_type matches DurationType::Bid(n) ==> m.requests.len() <= n
}

/// `first_max_index` picks a request of the highest price, and no earlier
/// request has that price.
pub proof fn lemma_first_max(reqs: Seq<RequestModel>)
    requires
        reqs.len() > 0,
    ensures
        0 <= first_max_index(reqs) < reqs.len(),
        forall|j: int| 0 <= j < reqs.len() ==> (#[trigger] reqs[j]).price <= reqs[first_max_index(reqs)].price,
        forall|j: int| 0 <= j < first_max_index(reqs) ==> (#[trigger] reqs[j]).price < reqs[first_max_index(reqs)].price,
    decreases reqs.len(),
{
    if reqs.len() > 1 {
        let pre = reqs.drop_last();
        lemma_first_max(pre);
        assert forall|j: int| 0 <= j < pre.len() implies #[trigger] pre[j] == reqs[j] by {}
        let i = first_max_index(pre);
        let n = reqs.len() - 1;
        if reqs[i].price < reqs.last().price {
            assert forall|j: int| 0 <= j < reqs.len() implies (#[trigger] reqs[j]).price <= reqs[n].price by {
                if j < n {
                    assert(pre[j].price <= pre[i].price);
                }
            }
            assert forall|j: int| 0 <= j < n implies (#[trigger] reqs[j]).price < reqs[n].price by {
                assert(pre[j].price <= pre[i].price);
            }
        } else {
            assert(first_max_index(reqs) == i);
            assert forall|j: int| 0 <= j < reqs.len() implies (#[trigger] reqs[j]).price <= reqs[i].price by {
                if j < n {
                    assert(pre[j].price <= pre[i].price);
                }
            }
            assert forall|j: int| 0 <= j < i implies (#[trigger] reqs[j]).price < reqs[i].price by {
                assert(pre[j].price < pre[i].price);
            }
        }
    }
}

/// In an offer sale, after every accepted request the winner is the
/// request with the highest price, and the earliest of those if several
/// share it.
pub proof fn lemma_offer_winner(m: SaleModel, bidder: Seq<char>, price: u128, now: u64)
    requires
        sale_inv(m),
        m.requests.len() < u32::MAX,
        m.sale_type == SaleType::Offer,
        submit_error(m, price, now).is_none(),
    ensures
        ({
            let m2 = submitted(m, bidder, price);
            let w = m2.sell_index as int;
            &&& 0 <= w < m2.requests.len()
            &&& forall|j: int| 0 <= j < m2.requests.len() ==> (#[trigger] m2.requests[j]).price <= m2.requests[w].price
            &&& forall|j: int| 0 <= j < w ==> (#[trigger] m2.requests[j]).price < m2.requests[w].price
        }),
{
    lemma_submit_preserves(m, bidder, price, now);
    let m2 = submitted(m, bidder, price);
    lemma_first_max(m2.requests);
}

/// In an offer sale, a new offer takes over as the winner exactly when its
/// price is strictly above the current winning price; an equal offer leaves
/// the earlier winner in place.
pub proof fn lemma_offer_update(m: SaleModel, bidder: Seq<char>, price: u128)
    requires
        sale_inv(m),
        m.sale_type == SaleType::Offer,
        m.requests.len() > 0,
    ensures
        winner_index(SaleType::Offer, m.requests.push(RequestModel { address: bidder, price })) == if price
            > m.requests[m.sell_index as int].price {
            m.requests.len() as int
        } else {
            m.sell_index as int
        },
{
    let reqs = m.requests.push(RequestModel { address: bidder, price });
    assert(reqs.drop_last() =~= m.requests);
    lemma_first_max(m.requests);
    let i = first_max_index(m.requests);
    assert(reqs[i] == m.requests[i]);
    assert(reqs.last().price == price);
}

/// In an auction, an accepted price is above every earlier price, and a
/// price that does not exceed some earlier one, or a first price that does
/// not exceed the initial price, is refused as too low (unless the sale has
/// already closed).
pub proof fn lemma_auction_increasing(m: SaleModel, bidder: Seq<char>, price: u128, now: u64)
    requires
        sale_inv(m),
        m.sale_type == SaleType::Auction,
    ensures
        submit_error(m, price, now).is_none() ==> forall|j: int|
            0 <= j < m.requests.len() ==> (#[trigger] m.requests[j]).price < price,
        !requests_closed(m, now) && (exists|j: int| 0 <= j < m.requests.len() && price <= (#[trigger] m.requests[j]).price)
            ==> submit_error(m, price, now) == Some(ContractError::LowerThanPrevious {}),
        !requests_closed(m, now) && m.requests.len() == 0 && price <= m.initial_price
            ==> submit_error(m, price, now) == Some(ContractError::LowerThanPrevious {}),
{
    if m.requests.len() > 0 {
        let last = m.requests.len() - 1;
        assert forall|j: int| 0 <= j < m.requests.len() implies (#[trigger] m.requests[j]).price <= m.requests[last].price by {
            if j < last {
                assert(m.requests[j].price < m.requests[last].price);
            }
        }
    }
}

/// Accepting a request keeps every property of `sale_inv`.
pub proof fn lemma_submit_preserves(m: SaleModel, bidder: Seq<char>, price: u128, now: u64)
    requires
        sale_inv(m),
        m.requests.len() < u32::MAX,
        submit_error(m, price, now).is_none(),
    ensures
        sale_inv(submitted(m, bidder, price)),
{
    let m2 = submitted(m, bidder, price);
    let n = m.requests.len();
    assert forall|j: int| 0 <= j < n implies #[trigger] m2.requests[j] == m.requests[j] by {}
    assert(m2.requests[n as int].price == price);
    if m.requests.len() > 0 {
        lemma_first_max(m2.requests);
    }
    if m.sale_type == SaleType::Auction {
        lemma_auction_increasing(m, bidder, price, now);
        assert forall|i: int, j: int| 0 <= i < j < m2.requests.len() implies
            (#[trigger] m2.requests[i]).price < (#[trigger] m2.requests[j]).price by {
            if j == n {
                assert(m.requests[i].price < price);
            } else {
                assert(m.requests[i].price < m.requests[j].price);
            }
        }
    }
    if m.sale_type == SaleType::Offer {
        lemma_first_max(m2.requests);
        let w = first_max_index(m2.requests);
        assert(0 <= w < m2.requests.len());
    }
}

/// A freshly listed sale has no requests, a winning index of zero, and
/// meets `sale_inv` whenever it passed the listing checks.
pub proof fn lemma_fresh_sale(
    token_id: u32,
    provider: Seq<char>,
    sale_type: SaleType,
    duration_type: DurationType,
    initial_price: u128,
    royalty: u32,
)
    requires
        sale_type == SaleType::Fixed ==> duration_type == DurationType::Fixed,
    ensures
        fresh_sale(token_id, provider, sale_type, duration_type, initial_price, royalty).requests.len() == 0,
        fresh_sale(token_id, provider, sale_type, duration_type, initial_price, royalty).sell_index == 0,
        sale_inv(fresh_sale(token_id, provider, sale_type, duration_type, initial_price, royalty)),
{
}

/// A fixed-price sale never holds a request below its initial price, so a
/// settlement can never pay less than that price.
pub proof fn lemma_fixed_price_floor(m: SaleModel)
    requires
        sale_inv(m),
        m.sale_type == SaleType::Fixed,
        m.requests.len() > 0,
    ensures
        m.requests.len() == 1,
        m.sell_index == 0,
        m.requests[0].price >= m.initial_price,
{
}

} // verus!
