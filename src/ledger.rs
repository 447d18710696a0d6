//! The sale ledger: at most one sale record per token id.
use vstd::prelude::*;
use crate::types::{SaleInfo, SaleModel};

verus! {

/// Page size of a listing when none is asked for.
pub const DEFAULT_LIMIT: u32 = 20;

/// Largest page size of a listing.
pub const MAX_LIMIT: u32 = 30;

/// Whether `k` comes after the exclusive bound `b` (no bound: every key does).
pub open spec fn above(b: Option<u32>, k: u32) -> bool {
    match b {
        None => true,
        Some(x) => k > x,
    }
}

/// The page size a listing uses for the requested `limit`.
pub open spec fn page_size(limit: Option<u32>) -> nat {
    let l = match limit {
        None => DEFAULT_LIMIT,
        Some(l) => l,
    };
    if l < MAX_LIMIT { l as nat } else { MAX_LIMIT as nat }
}

/// Sale records keyed by token id.
pub struct SaleLedger {
    sales: Vec<SaleInfo>,
}

impl SaleLedger {
    closed spec fn has_id(&self, k: u32) -> bool {
        exists|i: int| 0 <= i < self.sales@.len() && (#[trigger] self.sales@[i]).token_id == k
    }

    closed spec fn index_of(&self, k: u32) -> int {
        choose|i: int| 0 <= i < self.sales@.len() && (#[trigger] self.sales@[i]).token_id == k
    }

    /// The records, by token id.
    pub closed spec fn view(&self) -> Map<u32, SaleModel> {
        Map::new(|k: u32| self.has_id(k), |k: u32| self.sales@[self.index_of(k)]@)
    }

    /// No two records share a token id, and each record sits under its own id.
    pub closed spec fn wf(&self) -> bool {
        forall|i: int, j: int|
            0 <= i < self.sales@.len() && 0 <= j < self.sales@.len() && i != j
                ==> (#[trigger] self.sales@[i]).token_id != (#[trigger] self.sales@[j]).token_id
    }

    proof fn lemma_entry(&self, i: int)
        requires
            self.wf(),
            0 <= i < self.sales@.len(),
        ensures
            self@.contains_key(self.sales@[i].token_id),
            self@[self.sales@[i].token_id] == self.sales@[i]@,
    {
        let k = self.sales@[i].token_id;
        assert(self.has_id(k));
        let j = self.index_of(k);
        assert(self.sales@[j].token_id == k);
    }

    /// Every record of the ledger carries its own key.
    pub proof fn lemma_keys(&self, k: u32)
        requires
            self.wf(),
            self@.contains_key(k),
        ensures
            self@[k].token_id == k,
    {
        let j = self.index_of(k);
        assert(self.has_id(k));
        assert(self.sales@[j].token_id == k);
    }

    /// An empty ledger.
    pub fn new() -> (r: SaleLedger)
        ensures
            r.wf(),
            r@ == Map::<u32, SaleModel>::empty(),
    {
        let r = SaleLedger { sales: Vec::new() };
        assert(r@ =~= Map::<u32, SaleModel>::empty());
        r
    }

    fn position(&self, token_id: u32) -> (r: Option<usize>)
        requires
            self.wf(),
        ensures
            match r {
                Some(i) => i < self.sales@.len() && self.sales@[i as int].token_id == token_id,
                None => !self@.contains_key(token_id),
            },
    {
        let n = self.sales.len();
        let mut i: usize = 0;
        while i < n
            invariant
                n == self.sales@.len(),
                i <= n,
                forall|j: int| 0 <= j < i ==> (#[trigger] self.sales@[j]).token_id != token_id,
            decreases n - i,
        {
            if self.sales[i].token_id == token_id {
                return Some(i);
            }
            i = i + 1;
        }
        None
    }

    /// Whether `token_id` is on sale.
    pub fn contains(&self, token_id: u32) -> (r: bool)
        requires
            self.wf(),
        ensures
            r == self@.contains_key(token_id),
    {
        match self.position(token_id) {
            Some(i) => {
                proof { self.lemma_entry(i as int); }
                true
            },
            None => false,
        }
    }

    /// The record of `token_id`, if it is on sale.
    pub fn get(&self, token_id: u32) -> (r: Option<&SaleInfo>)
        requires
            self.wf(),
        ensures
            r.is_some() == self@.contains_key(token_id),
            r.is_some() ==> r.unwrap()@ == self@[token_id],
    {
        match self.position(token_id) {
            Some(i) => {
                proof { self.lemma_entry(i as int); }
                Some(&self.sales[i])
            },
            None => None,
        }
    }

    /// Adds a record for a token that has none.
    pub fn insert_new(&mut self, sale: SaleInfo)
        requires
            old(self).wf(),
            !old(self)@.contains_key(sale.token_id),
        ensures
            final(self).wf(),
            final(self)@ == old(self)@.insert(sale.token_id, sale@),
    {
        let ghost pre = *self;
        let ghost k = sale.token_id;
        let ghost m = sale@;
        proof {
            assert forall|i: int| 0 <= i < pre.sales@.len() implies (#[trigger] pre.sales@[i]).token_id != k by {
                pre.lemma_entry(i);
            }
        }
        self.sales.push(sale);
        proof {
            let n = pre.sales@.len() as int;
            assert(self.sales@[n]@ == m);
            assert forall|k2: u32| #[trigger] self@.contains_key(k2) <==> pre@.insert(k, m).contains_key(k2) by {
                if pre@.contains_key(k2) {
                    let j = pre.index_of(k2);
                    assert(pre.sales@[j].token_id == k2);
                    assert(self.sales@[j].token_id == k2);
                }
                if k2 == k {
                    assert(self.sales@[n].token_id == k2);
                }
                if self.has_id(k2) && k2 != k {
                    let j = self.index_of(k2);
                    assert(pre.sales@[j].token_id == k2);
                    assert(pre.has_id(k2));
                }
            }
            assert forall|k2: u32| #[trigger] self@.contains_key(k2) implies self@[k2] == pre@.insert(k, m)[k2] by {
                let j = self.index_of(k2);
                assert(self.sales@[j].token_id == k2);
                self.lemma_entry(j);
                if k2 != k {
                    assert(j < n);
                    pre.lemma_entry(j);
                } else {
                    assert(j == n);
                }
            }
            assert(self@ =~= pre@.insert(k, m));
        }
    }

    /// Replaces the record of a token that is on sale.
    pub fn replace(&mut self, sale: SaleInfo)
        requires
            old(self).wf(),
            old(self)@.contains_key(sale.token_id),
        ensures
            final(self).wf(),
            final(self)@ == old(self)@.insert(sale.token_id, sale@),
    {
        let ghost pre = *self;
        let ghost k = sale.token_id;
        let ghost m = sale@;
        let i = self.position(sale.token_id).unwrap();
        self.sales.set(i, sale);
        proof {
            assert forall|a: int, b: int|
                0 <= a < self.sales@.len() && 0 <= b < self.sales@.len() && a != b
                implies (#[trigger] self.sales@[a]).token_id != (#[trigger] self.sales@[b]).token_id by {
                assert(pre.sales@[a].token_id != pre.sales@[b].token_id);
            }
            assert forall|k2: u32| #[trigger] self@.contains_key(k2) <==> pre@.insert(k, m).contains_key(k2) by {
                if pre@.contains_key(k2) {
                    let j = pre.index_of(k2);
                    assert(pre.sales@[j].token_id == k2);
                    assert(self.sales@[j].token_id == k2);
                }
                if self.has_id(k2) {
                    let j = self.index_of(k2);
                    assert(pre.sales@[j].token_id == k2);
                    assert(pre.has_id(k2));
                }
            }
            assert forall|k2: u32| #[trigger] self@.contains_key(k2) implies self@[k2] == pre@.insert(k, m)[k2] by {
                let j = self.index_of(k2);
                assert(self.sales@[j].token_id == k2);
                self.lemma_entry(j);
                if j != i {
                    pre.lemma_entry(j);
                }
            }
            assert(self@ =~= pre@.insert(k, m));
        }
    }

    /// Deletes the record of `token_id`; nothing changes if there is none.
    pub fn remove(&mut self, token_id: u32)
        requires
            old(self).wf(),
        ensures
            final(self).wf(),
            final(self)@ == old(self)@.remove(token_id),
    {
        let ghost pre = *self;
        match self.position(token_id) {
            None => {
                assert(self@ =~= pre@.remove(token_id));
            },
            Some(i) => {
                self.sales.remove(i);
                proof {
                    let n = pre.sales@.len() as int;
                    assert forall|a: int| 0 <= a < self.sales@.len() implies
                        #[trigger] self.sales@[a] == pre.sales@[if a < i { a } else { a + 1 }] by {}
                    assert forall|a: int, b: int|
                        0 <= a < self.sales@.len() && 0 <= b < self.sales@.len() && a != b
                        implies (#[trigger] self.sales@[a]).token_id != (#[trigger] self.sales@[b]).token_id by {
                        let a0 = if a < i { a } else { a + 1 };
                        let b0 = if b < i { b } else { b + 1 };
                        assert(self.sales@[a] == pre.sales@[a0]);
                        assert(self.sales@[b] == pre.sales@[b0]);
                    }
                    assert forall|k2: u32| #[trigger] self@.contains_key(k2) <==> pre@.remove(token_id).contains_key(k2) by {
                        if pre@.contains_key(k2) && k2 != token_id {
                            let j = pre.index_of(k2);
                            assert(pre.sales@[j].token_id == k2);
                            assert(j != i);
                            let a = if j < i { j } else { j - 1 };
                            assert(self.sales@[a] == pre.sales@[j]);
                            assert(self.has_id(k2));
                        }
                        if self.has_id(k2) {
                            let j = self.index_of(k2);
                            let j0 = if j < i { j } else { j + 1 };
                            assert(self.sales@[j] == pre.sales@[j0]);
                            assert(pre.has_id(k2));
                            assert(j0 != i);
                            assert(k2 != token_id);
                        }
                    }
                    assert forall|k2: u32| #[trigger] self@.contains_key(k2) implies self@[k2] == pre@.remove(token_id)[k2] by {
                        let j = self.index_of(k2);
                        assert(self.sales@[j].token_id == k2);
                        self.lemma_entry(j);
                        let j0 = if j < i { j } else { j + 1 };
                        assert(self.sales@[j] == pre.sales@[j0]);
                        pre.lemma_entry(j0);
                    }
                    assert(self@ =~= pre@.remove(token_id));
                }
            },
        }
    }

    fn next_above(&self, b: Option<u32>) -> (r: Option<usize>)
        requires
            self.wf(),
        ensures
            match r {
                Some(i) => {
                    &&& i < self.sales@.len()
                    &&& above(b, self.sales@[i as int].token_id)
                    &&& forall|j: int| 0 <= j < self.sales@.len() && above(b, (#[trigger] self.sales@[j]).token_id)
                        ==> self.sales@[i as int].token_id <= self.sales@[j].token_id
                },
                None => forall|j: int| 0 <= j < self.sales@.len() ==> !above(b, (#[trigger] self.sales@[j]).token_id),
            },
    {
        let n = self.sales.len();
        let mut best: Option<usize> = None;
        let mut i: usize = 0;
        while i < n
            invariant
                n == self.sales@.len(),
                i <= n,
                match best {
                    Some(x) => {
                        &&& x < i
                        &&& above(b, self.sales@[x as int].token_id)
                        &&& forall|j: int| 0 <= j < i && above(b, (#[trigger] self.sales@[j]).token_id)
                            ==> self.sales@[x as int].token_id <= self.sales@[j].token_id
                    },
                    None => forall|j: int| 0 <= j < i ==> !above(b, (#[trigger] self.sales@[j]).token_id),
                },
            decreases n - i,
        {
            let id = self.sales[i].token_id;
            let is_above = match b {
                None => true,
                Some(x) => id > x,
            };
            if is_above {
                match best {
                    None => { best = Some(i); },
                    Some(x) => {
                        if id < self.sales[x].token_id {
                            best = Some(i);
                        }
                    },
                }
            }
            i = i + 1;
        }
        best
    }

    /// Up to `page_size(limit)` records, in increasing token id, starting
    /// after `start_after`: the smallest ids above the bound.
    pub fn page(&self, start_after: Option<u32>, limit: Option<u32>) -> (r: Vec<SaleInfo>)
        requires
            self.wf(),
        ensures
            r@.len() <= page_size(limit),
            forall|i: int| 0 <= i < r@.len() ==> {
                &&& self@.contains_key((#[trigger] r@[i]).token_id)
                &&& r@[i]@ == self@[r@[i].token_id]
                &&& above(start_after, r@[i].token_id)
            },
            forall|i: int, j: int| 0 <= i < j < r@.len() ==> (#[trigger] r@[i]).token_id < (#[trigger] r@[j]).token_id,
            forall|k: u32| #[trigger] self@.contains_key(k) && above(start_after, k)
                && (r@.len() < page_size(limit) || (r@.len() > 0 && k <= r@.last().token_id))
                ==> exists|i: int| 0 <= i < r@.len() && (#[trigger] r@[i]).token_id == k,
    {
        let lim: u32 = match limit {
            None => DEFAULT_LIMIT,
            Some(l) => l,
        };
        let lim: usize = if lim < MAX_LIMIT { lim as usize } else { MAX_LIMIT as usize };
        let mut r: Vec<SaleInfo> = Vec::new();
        let mut cur: Option<u32> = start_after;
        while r.len() < lim
            invariant
                self.wf(),
                lim == page_size(limit),
                r@.len() <= lim,
                cur == (if r@.len() == 0 { start_after } else { Some(r@.last().token_id) }),
                forall|i: int| 0 <= i < r@.len() ==> {
                    &&& self@.contains_key((#[trigger] r@[i]).token_id)
                    &&& r@[i]@ == self@[r@[i].token_id]
                    &&& above(start_after, r@[i].token_id)
                },
                forall|i: int, j: int| 0 <= i < j < r@.len() ==> (#[trigger] r@[i]).token_id < (#[trigger] r@[j]).token_id,
                forall|k: u32| #[trigger] self@.contains_key(k) && above(start_after, k) && !above(cur, k)
                    ==> exists|i: int| 0 <= i < r@.len() && (#[trigger] r@[i]).token_id == k,
            decreases lim - r@.len(),
        {
            match self.next_above(cur) {
                None => {
                    proof {
                        assert forall|k: u32| #[trigger] self@.contains_key(k) && above(start_after, k)
                            implies exists|i: int| 0 <= i < r@.len() && (#[trigger] r@[i]).token_id == k by {
                            let j = self.index_of(k);
                            assert(self.has_id(k));
                            assert(self.sales@[j].token_id == k);
                            assert(!above(cur, k));
                        }
                    }
                    return r;
                },
                Some(i) => {
                    let ghost r0 = r@;
                    let ghost k0 = self.sales@[i as int].token_id;
                    proof { self.lemma_entry(i as int); }
                    let s = self.sales[i].duplicate();
                    cur = Some(s.token_id);
                    r.push(s);
                    proof {
                        assert(r@[r@.len() - 1] == s);
                        assert forall|a: int| 0 <= a < r0.len() implies #[trigger] r@[a] == r0[a] by {}
                        if r0.len() > 0 {
                            assert(above(Some(r0.last().token_id), k0));
                        } else {
                            assert(above(start_after, k0));
                        }
                        assert forall|k: u32| #[trigger] self@.contains_key(k) && above(start_after, k) && !above(cur, k)
                            implies exists|a: int| 0 <= a < r@.len() && (#[trigger] r@[a]).token_id == k by {
                            let old_cur = if r0.len() == 0 { start_after } else { Some(r0.last().token_id) };
                            if k == k0 {
                                assert(r@[r0.len() as int].token_id == k);
                            } else if above(old_cur, k) {
                                let j = self.index_of(k);
                                assert(self.has_id(k));
                                assert(self.sales@[j].token_id == k);
                                assert(k0 <= k);
                                assert(false);
                            } else {
                                let a = choose|a: int| 0 <= a < r0.len() && (#[trigger] r0[a]).token_id == k;
                                assert(r@[a].token_id == k);
                            }
                        }
                    }
                },
            }
        }
        proof {
            assert forall|k: u32| #[trigger] self@.contains_key(k) && above(start_after, k)
                && (r@.len() < page_size(limit) || (r@.len() > 0 && k <= r@.last().token_id))
                implies exists|i: int| 0 <= i < r@.len() && (#[trigger] r@[i]).token_id == k by {
                assert(!above(cur, k));
            }
        }
        r
    }
}

} // verus!
