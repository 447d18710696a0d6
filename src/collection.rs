//! A collection contract: its configuration, its sale ledger, and the
//! operations that list, bid on, settle and mint tokens.
use vstd::prelude::*;
use crate::ledger::{page_size, above, SaleLedger};
use crate::royalty::{split, split_fits, share, PROTOCOL_FEE_RATE, RATE_SCALE};
use crate::route::{route, route_of, unsupported_error, Hop, PoolTopology};
use crate::sale::{
    fresh_sale, lemma_fresh_sale, lemma_first_max, lemma_submit_preserves, sale_inv, settle_open, submit_error,
    submitted, winner_index, first_max_index,
};
use crate::types::{
    transfers_view, Asset, ContractError, DurationType, Request, RequestModel, SaleInfo, SaleModel, SaleType,
    SalesResponse, Transfer, TransferModel,
};

verus! {

/// Reply id of the instantiation of the linked token contract.
pub const TOKEN_REPLY_ID: u64 = 1;

/// The settings of a collection.
#[derive(Clone, Debug, PartialEq, Eq)]
pub struct Config {
    pub owner: String,
    /// The token that settlements are paid out in.
    pub cw20_address: String,
    /// The token contract that holds the collection, once linked.
    pub cw721_address: Option<String>,
    pub max_tokens: u32,
    pub name: String,
    pub symbol: String,
    /// The id the next minted token gets.
    pub unused_token_id: u32,
    /// Royalty of the collection owner, per `RATE_SCALE`.
    pub royalty: u32,
    pub enabled: bool,
    pub uri: String,
    /// Receiver of the protocol fee.
    pub fee_collector: String,
}

/// A collection: its settings and the tokens on sale.
pub struct Collection {
    pub config: Config,
    pub sales: SaleLedger,
}

/// Why listing a token is refused, if it is.
pub open spec fn start_sale_error(
    enabled: bool,
    linked: bool,
    is_owner: bool,
    listed: bool,
    sale_type: SaleType,
    duration_type: DurationType,
) -> Option<ContractError> {
    if !enabled {
        Some(ContractError::Disabled {})
    } else if !linked {
        Some(ContractError::Uninitialized {})
    } else if !is_owner {
        Some(ContractError::Unauthorized {})
    } else if listed {
        Some(ContractError::AlreadyOnSale {})
    } else if sale_type == SaleType::Fixed && duration_type != DurationType::Fixed {
        Some(ContractError::InvalidSaleType {})
    } else {
        None
    }
}

/// Why a request is refused, if it is.
pub open spec fn propose_error(enabled: bool, sales: Map<u32, SaleModel>, token_id: u32, price: u128, now: u64)
    -> Option<ContractError> {
    if !enabled {
        Some(ContractError::Disabled {})
    } else if !sales.contains_key(token_id) {
        Some(ContractError::NotOnSale {})
    } else {
        submit_error(sales[token_id], price, now)
    }
}

/// Why a settlement by `payer` with `amount` of the settlement token at
/// time `now` is refused by the sale's own rules, if it is.
pub open spec fn settle_error(
    enabled: bool,
    sales: Map<u32, SaleModel>,
    token_id: u32,
    payer: Seq<char>,
    amount: u128,
    now: u64,
) -> Option<ContractError> {
    if !enabled {
        Some(ContractError::Disabled {})
    } else if !sales.contains_key(token_id) || sales[token_id].requests.len() == 0 {
        Some(ContractError::InvalidBuyParam {})
    } else if !settle_open(sales[token_id], now) {
        Some(ContractError::NotExpired {})
    } else {
        let w = sales[token_id].requests[sales[token_id].sell_index as int];
        if w.address != payer || w.price > amount {
            Some(ContractError::InvalidUserOrPrice {})
        } else {
            None
        }
    }
}

/// A payment, left out when it is zero.
pub open spec fn payment(to: Seq<char>, amount: int) -> Seq<TransferModel> {
    if amount == 0 {
        Seq::empty()
    } else {
        seq![TransferModel::Token { recipient: to, amount: amount as u128 }]
    }
}

/// What a settlement emits: the token to the payer, then the protocol fee,
/// the seller's royalty, the collection owner's royalty and the remainder
/// (to the payer), each only when nonzero.
pub open spec fn settlement_plan(
    token_id: u32,
    payer: Seq<char>,
    amount: u128,
    fee_collector: Seq<char>,
    provider: Seq<char>,
    seller_rate: u32,
    owner: Seq<char>,
    collection_rate: u32,
) -> Seq<TransferModel> {
    let p = share(amount as int, PROTOCOL_FEE_RATE as int, RATE_SCALE as int);
    let s = share(amount as int, seller_rate as int, RATE_SCALE as int);
    let c = share(amount as int, collection_rate as int, RATE_SCALE as int);
    seq![TransferModel::Nft { token_id, recipient: payer }] + payment(fee_collector, p) + payment(provider, s)
        + payment(owner, c) + payment(payer, amount - p - s - c)
}

/// Why a batch mint is refused, if it is.
pub open spec fn batch_mint_error(enabled: bool, is_owner: bool, counts_match: bool, linked: bool, below_max: bool)
    -> Option<ContractError> {
    if !enabled {
        Some(ContractError::Disabled {})
    } else if !is_owner {
        Some(ContractError::Unauthorized {})
    } else if !counts_match {
        Some(ContractError::CountNotMatch {})
    } else if !linked {
        Some(ContractError::Uninitialized {})
    } else if !below_max {
        Some(ContractError::MaxTokensExceed {})
    } else {
        None
    }
}

/// Why a metadata edit is refused, if it is.
pub open spec fn edit_error(enabled: bool, linked: bool, on_sale: bool, is_owner: bool) -> Option<ContractError> {
    if !enabled {
        Some(ContractError::Disabled {})
    } else if !linked {
        Some(ContractError::Uninitialized {})
    } else if on_sale {
        Some(ContractError::CannotEditOnSale {})
    } else if !is_owner {
        Some(ContractError::Unauthorized {})
    } else {
        None
    }
}

/// Refuses to migrate from a contract stored under another name.
pub fn check_migrate(stored_contract: String, expected: &String) -> (r: Result<(), ContractError>)
    ensures
        stored_contract@ == expected@ ==> r is Ok,
        stored_contract@ != expected@ ==> r == Err::<(), ContractError>(
            ContractError::CannotMigrate { previous_contract: stored_contract },
        ),
{
    if stored_contract != *expected {
        return Err(ContractError::CannotMigrate { previous_contract: stored_contract });
    }
    Ok(())
}

fn push_payment(v: &mut Vec<Transfer>, to: &String, amount: u128)
    ensures
        transfers_view(final(v)@) == transfers_view(old(v)@) + payment(to@, amount as int),
{
    let ghost pre = v@;
    if amount != 0 {
        v.push(Transfer::Token { recipient: to.clone(), amount });
    }
    assert(transfers_view(v@) =~= transfers_view(pre) + payment(to@, amount as int));
}

/// The winning index of a sale of type `t` with requests `reqs`.
fn winner_of(t: SaleType, reqs: &Vec<Request>) -> (r: u32)
    requires
        0 < reqs@.len() <= u32::MAX,
    ensures
        r == winner_index(t, reqs@.map_values(|q: Request| q@)),
{
    let ghost v = reqs@.map_values(|q: Request| q@);
    let n = reqs.len();
    match t {
        SaleType::Offer => {
            let mut idx: usize = 0;
            let mut max: u128 = 0;
            let mut i: usize = 0;
            while i < n
                invariant
                    n == reqs@.len(),
                    n <= u32::MAX,
                    v == reqs@.map_values(|q: Request| q@),
                    i <= n,
                    i == 0 ==> idx == 0 && max == 0,
                    i > 0 ==> idx == first_max_index(v.take(i as int)) && idx < i && max == v[idx as int].price,
                decreases n - i,
            {
                proof {
                    if i > 0 {
                        assert(v.take(i as int + 1).drop_last() =~= v.take(i as int));
                        lemma_first_max(v.take(i as int));
                    }
                }
                if max < reqs[i].price {
                    idx = i;
                    max = reqs[i].price;
                }
                i = i + 1;
            }
            assert(v.take(n as int) =~= v);
            idx as u32
        },
        _ => (n - 1) as u32,
    }
}

/// Whether a sale record read back from storage keeps the sale rules
/// (`sale_inv`), so that it may be put into a ledger.
pub fn sale_is_sound(s: &SaleInfo) -> (r: bool)
    ensures
        r == sale_inv(s@),
{
    let ghost m = s@;
    let n = s.requests.len();
    proof { assert(m.requests.len() == n); }
    if n > u32::MAX as usize {
        return false;
    }
    if n == 0 {
        if s.sell_index != 0 {
            return false;
        }
    } else if s.sell_index != winner_of(s.sale_type, &s.requests) {
        return false;
    }
    let mut i: usize = 0;
    while i < n
        invariant
            n == m.requests.len(),
            m == s@,
            i <= n,
            s.sale_type == SaleType::Fixed ==> forall|j: int| 0 <= j < i ==> (#[trigger] m.requests[j]).price
                >= m.initial_price,
            s.sale_type == SaleType::Auction ==> forall|a: int, b: int|
                0 <= a < b < i ==> (#[trigger] m.requests[a]).price < (#[trigger] m.requests[b]).price,
        decreases n - i,
    {
        let p = s.requests[i].price;
        proof { assert(p == m.requests[i as int].price); }
        match s.sale_type {
            SaleType::Fixed => {
                if p < s.initial_price {
                    return false;
                }
            },
            SaleType::Auction => {
                if i > 0 && s.requests[i - 1].price >= p {
                    proof {
                        let a = i - 1;
                        let b = i as int;
                        assert(m.requests[a].price >= m.requests[b].price);
                        assert(!(m.requests[a].price < m.requests[b].price));
                    }
                    return false;
                }
                proof {
                    assert forall|a: int, b: int| 0 <= a < b < i + 1 implies
                        (#[trigger] m.requests[a]).price < (#[trigger] m.requests[b]).price by {
                        if b == i && a < i - 1 {
                            assert(m.requests[a].price < m.requests[i - 1].price);
                        }
                    }
                }
            },
            SaleType::Offer => {},
        }
        i = i + 1;
    }
    match s.sale_type {
        SaleType::Fixed => {
            if s.duration_type != DurationType::Fixed || n > 1 {
                return false;
            }
        },
        SaleType::Auction => {
            if n > 0 && s.requests[0].price <= s.initial_price {
                return false;
            }
        },
        SaleType::Offer => {},
    }
    match s.duration_type {
        DurationType::Bid(limit) => n <= limit as usize,
        _ => true,
    }
}

impl Collection {
    /// The settings are sound and every listed sale keeps the sale rules.
    pub open spec fn wf(&self) -> bool {
        &&& self.sales.wf()
        &&& forall|k: u32| #[trigger] self.sales@.contains_key(k) ==> sale_inv(self.sales@[k])
    }

    /// A new collection; it has no linked token contract yet.
    pub fn new(
        owner: String,
        cw20_address: String,
        max_tokens: u32,
        name: String,
        symbol: String,
        royalty: u32,
        uri: String,
        fee_collector: String,
    ) -> (r: Result<Collection, ContractError>)
        ensures
            max_tokens == 0 <==> r == Err::<Collection, ContractError>(ContractError::InvalidMaxTokens {}),
            max_tokens != 0 ==> r is Ok,
            r.is_ok() ==> {
                let c = r.unwrap();
                &&& c.wf()
                &&& c.sales@ == Map::<u32, SaleModel>::empty()
                &&& c.config == Config {
                    owner,
                    cw20_address,
                    cw721_address: None,
                    max_tokens,
                    name,
                    symbol,
                    unused_token_id: 0,
                    royalty,
                    enabled: true,
                    uri,
                    fee_collector,
                }
            },
    {
        if max_tokens == 0 {
            return Err(ContractError::InvalidMaxTokens {});
        }
        Ok(Collection {
            config: Config {
                owner,
                cw20_address,
                cw721_address: None,
                max_tokens,
                name,
                symbol,
                unused_token_id: 0,
                royalty,
                enabled: true,
                uri,
                fee_collector,
            },
            sales: SaleLedger::new(),
        })
    }

    /// Records the address of the token contract once it is instantiated.
    pub fn link_token_contract(&mut self, reply_id: u64, address: String) -> (r: Result<(), ContractError>)
        ensures
            old(self).config.cw721_address.is_some() ==> r == Err::<(), ContractError>(ContractError::Cw721AlreadyLinked {})
                && *final(self) == *old(self),
            old(self).config.cw721_address.is_none() && reply_id != TOKEN_REPLY_ID ==> r == Err::<(), ContractError>(
                ContractError::InvalidTokenReplyId {}) && *final(self) == *old(self),
            old(self).config.cw721_address.is_none() && reply_id == TOKEN_REPLY_ID ==> r is Ok
                && final(self).config == (Config { cw721_address: Some(address), ..old(self).config })
                && final(self).sales == old(self).sales,
    {
        if self.config.cw721_address.is_some() {
            return Err(ContractError::Cw721AlreadyLinked {});
        }
        if reply_id != TOKEN_REPLY_ID {
            return Err(ContractError::InvalidTokenReplyId {});
        }
        self.config.cw721_address = Some(address);
        Ok(())
    }

    /// The sale record of `token_id`.
    pub fn get_sale(&self, token_id: u32) -> (r: Option<&SaleInfo>)
        requires
            self.wf(),
        ensures
            r.is_some() == self.sales@.contains_key(token_id),
            r.is_some() ==> r.unwrap()@ == self.sales@[token_id],
    {
        self.sales.get(token_id)
    }

    /// A page of sales in increasing token id after `start_after`; at most
    /// `limit` of them (20 when not given, never more than 30).
    pub fn get_sales(&self, start_after: Option<u32>, limit: Option<u32>) -> (r: SalesResponse)
        requires
            self.wf(),
        ensures
            r.list@.len() <= page_size(limit),
            forall|i: int| 0 <= i < r.list@.len() ==> {
                &&& self.sales@.contains_key((#[trigger] r.list@[i]).token_id)
                &&& r.list@[i]@ == self.sales@[r.list@[i].token_id]
                &&& above(start_after, r.list@[i].token_id)
            },
            forall|i: int, j: int| 0 <= i < j < r.list@.len() ==> (#[trigger] r.list@[i]).token_id
                < (#[trigger] r.list@[j]).token_id,
            forall|k: u32| #[trigger] self.sales@.contains_key(k) && above(start_after, k)
                && (r.list@.len() < page_size(limit) || (r.list@.len() > 0 && k <= r.list@.last().token_id))
                ==> exists|i: int| 0 <= i < r.list@.len() && (#[trigger] r.list@[i]).token_id == k,
    {
        SalesResponse { list: self.sales.page(start_after, limit) }
    }

    /// Lists `token_id` for sale by `sender`, whom the token contract reports
    /// as `token_owner`; on success the token is to be moved into custody.
    pub fn start_sale(
        &mut self,
        sender: &String,
        token_owner: &String,
        token_id: u32,
        sale_type: SaleType,
        duration_type: DurationType,
        initial_price: u128,
        royalty: u32,
    ) -> (r: Result<Transfer, ContractError>)
        requires
            old(self).wf(),
        ensures
            final(self).wf(),
            match start_sale_error(
                old(self).config.enabled,
                old(self).config.cw721_address.is_some(),
                sender@ == token_owner@,
                old(self).sales@.contains_key(token_id),
                sale_type,
                duration_type,
            ) {
                Some(e) => r == Err::<Transfer, ContractError>(e) && *final(self) == *old(self),
                None => {
                    &&& r == Ok::<Transfer, ContractError>(Transfer::Custody { token_id })
                    &&& final(self).config == old(self).config
                    &&& final(self).sales@ == old(self).sales@.insert(
                        token_id,
                        fresh_sale(token_id, sender@, sale_type, duration_type, initial_price, royalty),
                    )
                },
            },
    {
        if !self.config.enabled {
            return Err(ContractError::Disabled {});
        }
        if self.config.cw721_address.is_none() {
            return Err(ContractError::Uninitialized {});
        }
        if *sender != *token_owner {
            return Err(ContractError::Unauthorized {});
        }
        if self.sales.contains(token_id) {
            return Err(ContractError::AlreadyOnSale {});
        }
        if sale_type == SaleType::Fixed && duration_type != DurationType::Fixed {
            return Err(ContractError::InvalidSaleType {});
        }
        let sale = SaleInfo {
            token_id,
            provider: sender.clone(),
            sale_type,
            duration_type,
            initial_price,
            royalty,
            requests: Vec::new(),
            sell_index: 0,
        };
        proof {
            lemma_fresh_sale(token_id, sender@, sale_type, duration_type, initial_price, royalty);
            assert(sale@.requests =~= Seq::<RequestModel>::empty());
        }
        let ghost pre = self.sales@;
        self.sales.insert_new(sale);
        proof {
            assert forall|k: u32| #[trigger] self.sales@.contains_key(k) implies sale_inv(self.sales@[k]) by {
                if k != token_id {
                    assert(pre.contains_key(k));
                }
            }
        }
        Ok(Transfer::Custody { token_id })
    }

    /// Submits a bid or offer of `price` by `sender` on `token_id` at block
    /// time `now` (seconds).
    pub fn propose(&mut self, sender: &String, token_id: u32, price: u128, now: u64) -> (r: Result<(), ContractError>)
        requires
            old(self).wf(),
            old(self).sales@.contains_key(token_id) ==> old(self).sales@[token_id].requests.len() < u32::MAX,
        ensures
            final(self).wf(),
            match propose_error(old(self).config.enabled, old(self).sales@, token_id, price, now) {
                Some(e) => r == Err::<(), ContractError>(e) && *final(self) == *old(self),
                None => {
                    &&& r is Ok
                    &&& final(self).config == old(self).config
                    &&& final(self).sales@ == old(self).sales@.insert(
                        token_id,
                        submitted(old(self).sales@[token_id], sender@, price),
                    )
                },
            },
    {
        if !self.config.enabled {
            return Err(ContractError::Disabled {});
        }
        let ghost pre = self.sales@;
        let sale = match self.sales.get(token_id) {
            None => { return Err(ContractError::NotOnSale {}); },
            Some(s) => s,
        };
        let ghost m = sale@;
        let n = sale.requests.len();
        proof { assert(m.requests.len() == n); }
        let closed = match sale.duration_type {
            DurationType::Fixed => false,
            DurationType::Time(end) => now > end,
            DurationType::Bid(threshold) => n >= threshold as usize,
        };
        if closed {
            return Err(ContractError::AlreadyExpired {});
        }
        let too_low = match sale.sale_type {
            SaleType::Fixed => {
                if n > 0 {
                    return Err(ContractError::AlreadyFinished {});
                }
                price < sale.initial_price
            },
            SaleType::Auction => (n == 0 && price <= sale.initial_price) || (n > 0 && sale.requests[n - 1].price
                >= price),
            SaleType::Offer => false,
        };
        if too_low {
            return Err(ContractError::LowerThanPrevious {});
        }
        let mut s = sale.duplicate();
        s.requests.push(Request { address: sender.clone(), price });
        proof {
            assert(s@.requests =~= m.requests.push(RequestModel { address: sender@, price }));
        }
        s.sell_index = winner_of(s.sale_type, &s.requests);
        proof {
            self.sales.lemma_keys(token_id);
            assert(s@ == submitted(m, sender@, price));
            lemma_submit_preserves(m, sender@, price, now);
        }
        self.sales.replace(s);
        proof {
            assert forall|k: u32| #[trigger] self.sales@.contains_key(k) implies sale_inv(self.sales@[k]) by {
                if k != token_id {
                    assert(pre.contains_key(k));
                }
            }
        }
        Ok(())
    }

    /// Settles `token_id` for `payer`, who paid `amount` of the settlement
    /// token (after any conversion), at block time `now` (seconds). The whole
    /// amount is divided; the record is deleted.
    pub fn settle(&mut self, token_id: u32, payer: &String, amount: u128, now: u64) -> (r: Result<
        Vec<Transfer>,
        ContractError,
    >)
        requires
            old(self).wf(),
        ensures
            final(self).wf(),
            match settle_error(old(self).config.enabled, old(self).sales@, token_id, payer@, amount, now) {
                Some(e) => r == Err::<Vec<Transfer>, ContractError>(e) && *final(self) == *old(self),
                None => {
                    let m = old(self).sales@[token_id];
                    if old(self).config.cw721_address.is_none() {
                        r == Err::<Vec<Transfer>, ContractError>(ContractError::Uninitialized {}) && *final(self)
                            == *old(self)
                    } else if !split_fits(
                        amount as int,
                        PROTOCOL_FEE_RATE as int,
                        m.royalty as int,
                        old(self).config.royalty as int,
                    ) {
                        r == Err::<Vec<Transfer>, ContractError>(ContractError::InvalidRoyalty {}) && *final(self)
                            == *old(self)
                    } else {
                        &&& r is Ok
                        &&& transfers_view(r.unwrap()@) == settlement_plan(
                            token_id,
                            payer@,
                            amount,
                            old(self).config.fee_collector@,
                            m.provider,
                            m.royalty,
                            old(self).config.owner@,
                            old(self).config.royalty,
                        )
                        &&& final(self).config == old(self).config
                        &&& final(self).sales@ == old(self).sales@.remove(token_id)
                    }
                },
            },
    {
        if !self.config.enabled {
            return Err(ContractError::Disabled {});
        }
        let ghost pre = self.sales@;
        let sale = match self.sales.get(token_id) {
            None => { return Err(ContractError::InvalidBuyParam {}); },
            Some(s) => s,
        };
        let ghost m = sale@;
        let n = sale.requests.len();
        proof { assert(m.requests.len() == n); }
        if n == 0 {
            return Err(ContractError::InvalidBuyParam {});
        }
        let open = match sale.duration_type {
            DurationType::Fixed => true,
            DurationType::Time(end) => now >= end,
            DurationType::Bid(threshold) => n >= threshold as usize,
        };
        if !open {
            return Err(ContractError::NotExpired {});
        }
        proof {
            assert(sale_inv(m));
            if m.sale_type == SaleType::Offer {
                lemma_first_max(m.requests);
            }
        }
        let idx = sale.sell_index as usize;
        let winner = &sale.requests[idx];
        proof { assert(winner@ == m.requests[idx as int]); }
        if winner.address != *payer || winner.price > amount {
            return Err(ContractError::InvalidUserOrPrice {});
        }
        if self.config.cw721_address.is_none() {
            return Err(ContractError::Uninitialized {});
        }
        let legs = match split(amount, PROTOCOL_FEE_RATE, sale.royalty, self.config.royalty) {
            None => { return Err(ContractError::InvalidRoyalty {}); },
            Some(legs) => legs,
        };
        let mut out: Vec<Transfer> = Vec::new();
        out.push(Transfer::Nft { token_id, recipient: payer.clone() });
        proof {
            assert(transfers_view(out@) =~= seq![TransferModel::Nft { token_id, recipient: payer@ }]);
        }
        push_payment(&mut out, &self.config.fee_collector, legs.protocol);
        push_payment(&mut out, &sale.provider, legs.seller);
        push_payment(&mut out, &self.config.owner, legs.collection);
        push_payment(&mut out, payer, legs.remainder);
        self.sales.remove(token_id);
        proof {
            assert forall|k: u32| #[trigger] self.sales@.contains_key(k) implies sale_inv(self.sales@[k]) by {
                assert(pre.contains_key(k));
            }
        }
        Ok(out)
    }

    /// Checks, before any payment is converted, every settlement rule that
    /// does not depend on the amount paid: the collection is enabled, the
    /// token is listed with a request, its duration gate is open and `payer`
    /// made the winning request. Fails exactly as `settle` would for a payment
    /// at least the winning price.
    pub fn check_settleable(&self, token_id: u32, payer: &String, now: u64) -> (r: Result<(), ContractError>)
        requires
            self.wf(),
        ensures
            match settle_error(self.config.enabled, self.sales@, token_id, payer@, u128::MAX, now) {
                Some(e) => r == Err::<(), ContractError>(e),
                None => r is Ok,
            },
    {
        if !self.config.enabled {
            return Err(ContractError::Disabled {});
        }
        let sale = match self.sales.get(token_id) {
            None => { return Err(ContractError::InvalidBuyParam {}); },
            Some(s) => s,
        };
        let ghost m = sale@;
        let n = sale.requests.len();
        proof { assert(m.requests.len() == n); }
        if n == 0 {
            return Err(ContractError::InvalidBuyParam {});
        }
        let open = match sale.duration_type {
            DurationType::Fixed => true,
            DurationType::Time(end) => now >= end,
            DurationType::Bid(threshold) => n >= threshold as usize,
        };
        if !open {
            return Err(ContractError::NotExpired {});
        }
        proof {
            assert(sale_inv(m));
            if m.sale_type == SaleType::Offer {
                lemma_first_max(m.requests);
            }
        }
        let idx = sale.sell_index as usize;
        let winner = &sale.requests[idx];
        proof { assert(winner@ == m.requests[idx as int]); }
        if winner.address != *payer {
            return Err(ContractError::InvalidUserOrPrice {});
        }
        Ok(())
    }

    /// The pools a payment in `asset` goes through to become the settlement token.
    pub fn payment_route(&self, topology: &PoolTopology, asset: &Asset) -> (r: Result<Vec<Hop>, ContractError>)
        ensures
            !self.config.enabled ==> r == Err::<Vec<Hop>, ContractError>(ContractError::Disabled {}),
            self.config.enabled ==> match route_of(*topology, asset@, self.config.cw20_address@) {
                Some(hops) => r.is_ok() && r.unwrap()@.map_values(|h: Hop| h@) == hops,
                None => r == Err::<Vec<Hop>, ContractError>(unsupported_error(asset@)),
            },
    {
        if !self.config.enabled {
            return Err(ContractError::Disabled {});
        }
        route(topology, asset, &self.config.cw20_address)
    }

    /// Mints the next token id to the caller.
    pub fn mint(&mut self) -> (r: Result<u32, ContractError>)
        ensures
            !old(self).config.enabled ==> r == Err::<u32, ContractError>(ContractError::Disabled {})
                && *final(self) == *old(self),
            old(self).config.enabled && old(self).config.cw721_address.is_none() ==> r == Err::<u32, ContractError>(
                ContractError::Uninitialized {}) && *final(self) == *old(self),
            old(self).config.enabled && old(self).config.cw721_address.is_some() && old(self).config.unused_token_id
                >= old(self).config.max_tokens ==> r == Err::<u32, ContractError>(ContractError::MaxTokensExceed {})
                && *final(self) == *old(self),
            old(self).config.enabled && old(self).config.cw721_address.is_some() && old(self).config.unused_token_id
                < old(self).config.max_tokens ==> {
                &&& r == Ok::<u32, ContractError>(old(self).config.unused_token_id)
                &&& final(self).config == (Config {
                    unused_token_id: (old(self).config.unused_token_id + 1) as u32,
                    ..old(self).config
                })
                &&& final(self).sales == old(self).sales
            },
    {
        if !self.config.enabled {
            return Err(ContractError::Disabled {});
        }
        if self.config.cw721_address.is_none() {
            return Err(ContractError::Uninitialized {});
        }
        if self.config.unused_token_id >= self.config.max_tokens {
            return Err(ContractError::MaxTokensExceed {});
        }
        let id = self.config.unused_token_id;
        self.config.unused_token_id = id + 1;
        Ok(id)
    }

    /// Mints `uri_count` tokens for the owner, with consecutive ids from the
    /// next unused one; `extension_count` metadata records must come with them.
    /// Only the first id is held to the token limit.
    pub fn batch_mint(&mut self, sender: &String, uri_count: usize, extension_count: usize) -> (r: Result<
        Vec<u32>,
        ContractError,
    >)
        requires
            old(self).config.unused_token_id + uri_count <= u32::MAX,
        ensures
            match batch_mint_error(
                old(self).config.enabled,
                sender@ == old(self).config.owner@,
                uri_count == extension_count,
                old(self).config.cw721_address.is_some(),
                old(self).config.unused_token_id < old(self).config.max_tokens,
            ) {
                Some(e) => r == Err::<Vec<u32>, ContractError>(e) && *final(self) == *old(self),
                None => {
                    &&& r is Ok
                    &&& r.unwrap()@ == Seq::new(uri_count as nat, |i: int| (old(self).config.unused_token_id + i) as u32)
                    &&& final(self).config == (Config {
                        unused_token_id: (old(self).config.unused_token_id + uri_count) as u32,
                        ..old(self).config
                    })
                    &&& final(self).sales == old(self).sales
                },
            },
    {
        if !self.config.enabled {
            return Err(ContractError::Disabled {});
        }
        if *sender != self.config.owner {
            return Err(ContractError::Unauthorized {});
        }
        if uri_count != extension_count {
            return Err(ContractError::CountNotMatch {});
        }
        if self.config.cw721_address.is_none() {
            return Err(ContractError::Uninitialized {});
        }
        if self.config.unused_token_id >= self.config.max_tokens {
            return Err(ContractError::MaxTokensExceed {});
        }
        let start = self.config.unused_token_id;
        let mut next: u32 = start;
        let mut ids: Vec<u32> = Vec::new();
        let mut i: usize = 0;
        while i < uri_count
            invariant
                start + uri_count <= u32::MAX,
                i <= uri_count,
                next == start + i,
                ids@ == Seq::new(i as nat, |j: int| (start + j) as u32),
            decreases uri_count - i,
        {
            ids.push(next);
            next = next + 1;
            i = i + 1;
            assert(ids@ =~= Seq::new(i as nat, |j: int| (start + j) as u32));
        }
        self.config.unused_token_id = next;
        Ok(ids)
    }

    /// Checks that `sender`, reported by the token contract as `token_owner`,
    /// may edit the metadata of `token_id`, which must not be on sale.
    /// Advances the mint counter by one.
    pub fn edit(&mut self, sender: &String, token_owner: &String, token_id: u32) -> (r: Result<(), ContractError>)
        requires
            old(self).wf(),
            old(self).config.unused_token_id < u32::MAX,
        ensures
            match edit_error(
                old(self).config.enabled,
                old(self).config.cw721_address.is_some(),
                old(self).sales@.contains_key(token_id),
                sender@ == token_owner@,
            ) {
                Some(e) => r == Err::<(), ContractError>(e) && *final(self) == *old(self),
                None => {
                    &&& r is Ok
                    &&& final(self).config == (Config {
                        unused_token_id: (old(self).config.unused_token_id + 1) as u32,
                        ..old(self).config
                    })
                    &&& final(self).sales == old(self).sales
                },
            },
    {
        if !self.config.enabled {
            return Err(ContractError::Disabled {});
        }
        if self.config.cw721_address.is_none() {
            return Err(ContractError::Uninitialized {});
        }
        if self.sales.contains(token_id) {
            return Err(ContractError::CannotEditOnSale {});
        }
        if *sender != *token_owner {
            return Err(ContractError::Unauthorized {});
        }
        self.config.unused_token_id = self.config.unused_token_id + 1;
        Ok(())
    }

    /// Points the collection at another token contract (owner only, while enabled).
    pub fn change_contract(&mut self, sender: &String, cw721_address: String) -> (r: Result<(), ContractError>)
        ensures
            !old(self).config.enabled ==> r == Err::<(), ContractError>(ContractError::Disabled {}) && *final(self)
                == *old(self),
            old(self).config.enabled && sender@ != old(self).config.owner@ ==> r == Err::<(), ContractError>(ContractError::Unauthorized {})
                && *final(self) == *old(self),
            old(self).config.enabled && sender@ == old(self).config.owner@ ==> r is Ok && final(self).config == (Config {
                cw721_address: Some(cw721_address),
                ..old(self).config
            }) && final(self).sales == old(self).sales,
    {
        if !self.config.enabled {
            return Err(ContractError::Disabled {});
        }
        if *sender != self.config.owner {
            return Err(ContractError::Unauthorized {});
        }
        self.config.cw721_address = Some(cw721_address);
        Ok(())
    }

    /// Checks that `sender` may hand the minter role of the token contract
    /// to someone else (owner only, while enabled); returns the token
    /// contract to send that to.
    pub fn change_cw721_owner(&self, sender: &String) -> (r: Result<String, ContractError>)
        ensures
            !self.config.enabled ==> r == Err::<String, ContractError>(ContractError::Disabled {}),
            self.config.enabled && sender@ != self.config.owner@ ==> r == Err::<String, ContractError>(
                ContractError::Unauthorized {}),
            self.config.enabled && sender@ == self.config.owner@ && self.config.cw721_address.is_none() ==> r == Err::<String, ContractError>(
                ContractError::Uninitialized {}),
            self.config.enabled && sender@ == self.config.owner@ && self.config.cw721_address.is_some() ==> r is Ok && r.unwrap()@
                == self.config.cw721_address.unwrap()@,
    {
        if !self.config.enabled {
            return Err(ContractError::Disabled {});
        }
        if *sender != self.config.owner {
            return Err(ContractError::Unauthorized {});
        }
        match &self.config.cw721_address {
            None => Err(ContractError::Uninitialized {}),
            Some(a) => Ok(a.clone()),
        }
    }

    /// Checks a price update (owner only, while enabled; one price per token)
    /// and returns how many tokens it names. Listed prices are not changed by it.
    pub fn update_price(&self, sender: &String, token_count: usize, price_count: usize) -> (r: Result<
        usize,
        ContractError,
    >)
        ensures
            !self.config.enabled ==> r == Err::<usize, ContractError>(ContractError::Disabled {}),
            self.config.enabled && sender@ != self.config.owner@ ==> r == Err::<usize, ContractError>(
                ContractError::Unauthorized {}),
            self.config.enabled && sender@ == self.config.owner@ && token_count != price_count ==> r == Err::<
                usize,
                ContractError,
            >(ContractError::WrongLength {}),
            self.config.enabled && sender@ == self.config.owner@ && token_count == price_count ==> r == Ok::<
                usize,
                ContractError,
            >(token_count),
    {
        if !self.config.enabled {
            return Err(ContractError::Disabled {});
        }
        if *sender != self.config.owner {
            return Err(ContractError::Unauthorized {});
        }
        if token_count != price_count {
            return Err(ContractError::WrongLength {});
        }
        Ok(token_count)
    }

    /// Sets the next id to mint (owner only, while enabled).
    pub fn update_unused_token_id(&mut self, sender: &String, token_id: u32) -> (r: Result<(), ContractError>)
        ensures
            !old(self).config.enabled ==> r == Err::<(), ContractError>(ContractError::Disabled {}) && *final(self)
                == *old(self),
            old(self).config.enabled && sender@ != old(self).config.owner@ ==> r == Err::<(), ContractError>(
                ContractError::Unauthorized {}) && *final(self) == *old(self),
            old(self).config.enabled && sender@ == old(self).config.owner@ ==> r is Ok && final(self).config == (Config {
                unused_token_id: token_id,
                ..old(self).config
            }) && final(self).sales == old(self).sales,
    {
        if !self.config.enabled {
            return Err(ContractError::Disabled {});
        }
        if *sender != self.config.owner {
            return Err(ContractError::Unauthorized {});
        }
        self.config.unused_token_id = token_id;
        Ok(())
    }

    /// Hands the collection to a new owner (owner only, while enabled).
    pub fn update_owner(&mut self, sender: &String, owner: String) -> (r: Result<(), ContractError>)
        ensures
            !old(self).config.enabled ==> r == Err::<(), ContractError>(ContractError::Disabled {}) && *final(self)
                == *old(self),
            old(self).config.enabled && sender@ != old(self).config.owner@ ==> r == Err::<(), ContractError>(
                ContractError::Unauthorized {}) && *final(self) == *old(self),
            old(self).config.enabled && sender@ == old(self).config.owner@ ==> r is Ok && final(self).config == (
            Config { owner, ..old(self).config }) && final(self).sales == old(self).sales,
    {
        if !self.config.enabled {
            return Err(ContractError::Disabled {});
        }
        if *sender != self.config.owner {
            return Err(ContractError::Unauthorized {});
        }
        self.config.owner = owner;
        Ok(())
    }

    /// Switches mutating operations on or off (owner only). Like every
    /// mutating operation it is refused while the collection is disabled.
    pub fn update_enabled(&mut self, sender: &String, enabled: bool) -> (r: Result<(), ContractError>)
        ensures
            !old(self).config.enabled ==> r == Err::<(), ContractError>(ContractError::Disabled {}) && *final(self)
                == *old(self),
            old(self).config.enabled && sender@ != old(self).config.owner@ ==> r == Err::<(), ContractError>(
                ContractError::Unauthorized {}) && *final(self) == *old(self),
            old(self).config.enabled && sender@ == old(self).config.owner@ ==> r is Ok && final(self).config == (
            Config { enabled, ..old(self).config }) && final(self).sales == old(self).sales,
    {
        if !self.config.enabled {
            return Err(ContractError::Disabled {});
        }
        if *sender != self.config.owner {
            return Err(ContractError::Unauthorized {});
        }
        self.config.enabled = enabled;
        Ok(())
    }
}

/// A settlement that went through cannot go through again: the record is
/// gone, so a second call on the same token fails with `InvalidBuyParam`.
pub proof fn lemma_settle_once(
    enabled: bool,
    sales: Map<u32, SaleModel>,
    token_id: u32,
    payer: Seq<char>,
    amount: u128,
    now: u64,
    payer2: Seq<char>,
    amount2: u128,
    now2: u64,
)
    requires
        settle_error(enabled, sales, token_id, payer, amount, now).is_none(),
    ensures
        settle_error(enabled, sales.remove(token_id), token_id, payer2, amount2, now2) == Some(
            ContractError::InvalidBuyParam {},
        ),
{
}

/// Settling a token that is not listed, or a listed sale that has no request,
/// fails with `InvalidBuyParam`.
pub proof fn lemma_settle_without_request(
    sales: Map<u32, SaleModel>,
    token_id: u32,
    payer: Seq<char>,
    amount: u128,
    now: u64,
)
    requires
        !sales.contains_key(token_id) || sales[token_id].requests.len() == 0,
    ensures
        settle_error(true, sales, token_id, payer, amount, now) == Some(ContractError::InvalidBuyParam {}),
{
}

/// Right after a successful listing, the record read back has no requests
/// and a winning index of zero.
pub proof fn lemma_listing_round_trip(
    enabled: bool,
    linked: bool,
    sales: Map<u32, SaleModel>,
    token_id: u32,
    provider: Seq<char>,
    sale_type: SaleType,
    duration_type: DurationType,
    initial_price: u128,
    royalty: u32,
)
    requires
        start_sale_error(enabled, linked, true, sales.contains_key(token_id), sale_type, duration_type).is_none(),
    ensures
        ({
            let after = sales.insert(
                token_id,
                fresh_sale(token_id, provider, sale_type, duration_type, initial_price, royalty),
            );
            &&& after.contains_key(token_id)
            &&& after[token_id].requests.len() == 0
            &&& after[token_id].sell_index == 0
            &&& after[token_id].provider == provider
            &&& after[token_id].sale_type == sale_type
            &&& after[token_id].duration_type == duration_type
        }),
{
}

} // verus!
