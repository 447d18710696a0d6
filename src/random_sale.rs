//! A fixed-price sale that hands out a pseudo-random token from the unsold
//! inventory, picked by block time.
use vstd::prelude::*;
use crate::tables::IdSet;
use crate::types::{transfers_view, ContractError, Transfer, TransferModel};

verus! {

/// The settings of a random sale.
#[derive(Clone, Debug, PartialEq, Eq)]
pub struct Config {
    pub owner: String,
    pub price: u128,
    pub count: u32,
    pub sold_count: u32,
    pub cw721_address: String,
    pub enabled: bool,
    pub denom: String,
}

/// A random sale: tokens `1..=count`, the unsold ones in `unsold`.
pub struct RandomSale {
    pub config: Config,
    pub unsold: Vec<u32>,
    pub sold: IdSet,
}

impl RandomSale {
    /// Every token is either sold or still listed.
    pub open spec fn wf(&self) -> bool {
        self.unsold@.len() + self.config.sold_count == self.config.count
    }

    /// A sale of tokens `1..=count` at `price` in `denom`, owned by `sender`.
    pub fn new(sender: String, price: u128, denom: String, count: u32, cw721_address: String) -> (r: RandomSale)
        ensures
            r.wf(),
            r.config == (Config { owner: sender, price, count, sold_count: 0, cw721_address, enabled: true, denom }),
            r.unsold@ == Seq::new(count as nat, |i: int| (i + 1) as u32),
            r.sold@ == Set::<u32>::empty(),
    {
        let mut unsold: Vec<u32> = Vec::new();
        let mut i: u32 = 0;
        while i < count
            invariant
                i <= count,
                unsold@ == Seq::new(i as nat, |j: int| (j + 1) as u32),
            decreases count - i,
        {
            unsold.push(i + 1);
            i = i + 1;
            assert(unsold@ =~= Seq::new(i as nat, |j: int| (j + 1) as u32));
        }
        RandomSale {
            config: Config { owner: sender, price, count, sold_count: 0, cw721_address, enabled: true, denom },
            unsold,
            sold: IdSet::new(),
        }
    }

    /// Whether `token_id` has been sold or sent.
    pub fn query_get_sold_state(&self, token_id: u32) -> (r: bool)
        ensures
            r == self.sold@.contains(token_id),
    {
        self.sold.contains(token_id)
    }

    /// Sells the unsold token at position `now % unsold` to `sender`, who paid
    /// `paid` of the sale's denomination; the payment goes to the owner.
    pub fn execute_buy(&mut self, sender: &String, paid: u128, now: u64) -> (r: Result<Vec<Transfer>, ContractError>)
        requires
            old(self).wf(),
        ensures
            final(self).wf(),
            !old(self).config.enabled ==> r == Err::<Vec<Transfer>, ContractError>(ContractError::Disabled {})
                && *final(self) == *old(self),
            old(self).config.enabled && old(self).config.sold_count == old(self).config.count ==> r == Err::<
                Vec<Transfer>,
                ContractError,
            >(ContractError::AlreadyFinished {}) && *final(self) == *old(self),
            old(self).config.enabled && old(self).config.sold_count != old(self).config.count && paid
                < old(self).config.price ==> r == Err::<Vec<Transfer>, ContractError>(ContractError::InsufficientFund {})
                && *final(self) == *old(self),
            old(self).config.enabled && old(self).config.sold_count != old(self).config.count && paid
                >= old(self).config.price ==> {
                let idx = now % (old(self).unsold@.len() as u64);
                let id = old(self).unsold@[idx as int];
                &&& r is Ok
                &&& transfers_view(r.unwrap()@) == seq![
                    TransferModel::Native {
                        recipient: old(self).config.owner@,
                        denom: old(self).config.denom@,
                        amount: paid,
                    },
                    TransferModel::Nft { token_id: id, recipient: sender@ },
                ]
                &&& final(self).unsold@ == old(self).unsold@.remove(idx as int)
                &&& final(self).sold@ == old(self).sold@.insert(id)
                &&& final(self).config == (Config {
                    sold_count: (old(self).config.sold_count + 1) as u32,
                    ..old(self).config
                })
            },
    {
        if !self.config.enabled {
            return Err(ContractError::Disabled {});
        }
        if self.config.sold_count == self.config.count {
            return Err(ContractError::AlreadyFinished {});
        }
        if paid < self.config.price {
            return Err(ContractError::InsufficientFund {});
        }
        let idx = (now % (self.unsold.len() as u64)) as usize;
        let id = self.unsold.remove(idx);
        self.sold.insert(id);
        self.config.sold_count = self.config.sold_count + 1;
        let mut out: Vec<Transfer> = Vec::new();
        out.push(Transfer::Native { recipient: self.config.owner.clone(), denom: self.config.denom.clone(), amount: paid });
        out.push(Transfer::Nft { token_id: id, recipient: sender.clone() });
        assert(transfers_view(out@) =~= seq![
            TransferModel::Native { recipient: old(self).config.owner@, denom: old(self).config.denom@, amount: paid },
            TransferModel::Nft { token_id: id, recipient: sender@ },
        ]);
        Ok(out)
    }

    /// Gives the unsold `token_id` to `address` without payment (owner only).
    pub fn execute_send(&mut self, sender: &String, token_id: u32, address: &String) -> (r: Result<
        Vec<Transfer>,
        ContractError,
    >)
        requires
            old(self).wf(),
        ensures
            final(self).wf(),
            sender@ != old(self).config.owner@ ==> r == Err::<Vec<Transfer>, ContractError>(ContractError::Unauthorized {})
                && *final(self) == *old(self),
            sender@ == old(self).config.owner@ && old(self).config.sold_count == old(self).config.count ==> r == Err::<
                Vec<Transfer>,
                ContractError,
            >(ContractError::AlreadyFinished {}) && *final(self) == *old(self),
            sender@ == old(self).config.owner@ && old(self).config.sold_count != old(self).config.count
                && !old(self).unsold@.contains(token_id) ==> r == Err::<Vec<Transfer>, ContractError>(
                ContractError::AlreadySold {}) && *final(self) == *old(self),
            sender@ == old(self).config.owner@ && old(self).config.sold_count != old(self).config.count
                && old(self).unsold@.contains(token_id) ==> {
                &&& r is Ok
                &&& transfers_view(r.unwrap()@) == seq![TransferModel::Nft { token_id, recipient: address@ }]
                &&& final(self).unsold@.len() == old(self).unsold@.len() - 1
                &&& exists|i: int| 0 <= i < old(self).unsold@.len() && old(self).unsold@[i] == token_id
                    && final(self).unsold@ == old(self).unsold@.remove(i)
                    && forall|j: int| 0 <= j < i ==> old(self).unsold@[j] != token_id
                &&& final(self).sold@ == old(self).sold@.insert(token_id)
                &&& final(self).config == (Config {
                    sold_count: (old(self).config.sold_count + 1) as u32,
                    ..old(self).config
                })
            },
    {
        if *sender != self.config.owner {
            return Err(ContractError::Unauthorized {});
        }
        if self.config.sold_count == self.config.count {
            return Err(ContractError::AlreadyFinished {});
        }
        let n = self.unsold.len();
        let mut i: usize = 0;
        while i < n && self.unsold[i] != token_id
            invariant
                n == self.unsold@.len(),
                i <= n,
                forall|j: int| 0 <= j < i ==> self.unsold@[j] != token_id,
            decreases n - i,
        {
            i = i + 1;
        }
        if i == n {
            return Err(ContractError::AlreadySold {});
        }
        let ghost pre = self.unsold@;
        self.unsold.remove(i);
        self.sold.insert(token_id);
        self.config.sold_count = self.config.sold_count + 1;
        let mut out: Vec<Transfer> = Vec::new();
        out.push(Transfer::Nft { token_id, recipient: address.clone() });
        assert(transfers_view(out@) =~= seq![TransferModel::Nft { token_id, recipient: address@ }]);
        assert(pre[i as int] == token_id);
        Ok(out)
    }
}

} // verus!
