//! Small keyed tables of the presale contract.
use vstd::prelude::*;
use crate::types::PriceInfo;

verus! {

/// The price most recently set for `k` among `entries`.
pub open spec fn latest_price(entries: Seq<PriceInfo>, k: u32) -> Option<u128>
    decreases entries.len(),
{
    if entries.len() == 0 {
        None
    } else if entries.last().token_id == k {
        Some(entries.last().price)
    } else {
        latest_price(entries.drop_last(), k)
    }
}

/// Token prices; setting a price again replaces it.
pub struct PriceTable {
    entries: Vec<PriceInfo>,
}

impl PriceTable {
    /// The prices, by token id.
    pub closed spec fn view(&self) -> Map<u32, u128> {
        Map::new(|k: u32| latest_price(self.entries@, k).is_some(), |k: u32| latest_price(self.entries@, k).unwrap())
    }

    pub fn new() -> (r: PriceTable)
        ensures
            r@ == Map::<u32, u128>::empty(),
    {
        let r = PriceTable { entries: Vec::new() };
        assert(r@ =~= Map::<u32, u128>::empty());
        r
    }

    /// The price of `token_id`, if one was set.
    pub fn get(&self, token_id: u32) -> (r: Option<u128>)
        ensures
            r.is_some() == self@.contains_key(token_id),
            r.is_some() ==> r.unwrap() == self@[token_id],
    {
        let mut i: usize = self.entries.len();
        assert(self.entries@.take(i as int) =~= self.entries@);
        while i > 0
            invariant
                i <= self.entries@.len(),
                latest_price(self.entries@, token_id) == latest_price(self.entries@.take(i as int), token_id),
            decreases i,
        {
            assert(self.entries@.take(i as int).drop_last() =~= self.entries@.take(i - 1));
            if self.entries[i - 1].token_id == token_id {
                return Some(self.entries[i - 1].price);
            }
            i = i - 1;
        }
        None
    }

    /// Sets the price of `token_id`.
    pub fn set(&mut self, token_id: u32, price: u128)
        ensures
            final(self)@ == old(self)@.insert(token_id, price),
    {
        let ghost pre = self.entries@;
        self.entries.push(PriceInfo { token_id, price });
        assert(self.entries@.drop_last() =~= pre);
        assert(self@ =~= old(self)@.insert(token_id, price));
    }
}

/// A set of token ids.
pub struct IdSet {
    ids: Vec<u32>,
}

impl IdSet {
    pub closed spec fn view(&self) -> Set<u32> {
        Set::new(|k: u32| self.ids@.contains(k))
    }

    pub fn new() -> (r: IdSet)
        ensures
            r@ == Set::<u32>::empty(),
    {
        let r = IdSet { ids: Vec::new() };
        assert(r@ =~= Set::<u32>::empty());
        r
    }

    pub fn contains(&self, k: u32) -> (r: bool)
        ensures
            r == self@.contains(k),
    {
        let n = self.ids.len();
        let mut i: usize = 0;
        while i < n
            invariant
                n == self.ids@.len(),
                i <= n,
                forall|j: int| 0 <= j < i ==> self.ids@[j] != k,
            decreases n - i,
        {
            if self.ids[i] == k {
                assert(self.ids@.contains(k));
                return true;
            }
            i = i + 1;
        }
        false
    }

    pub fn insert(&mut self, k: u32)
        ensures
            final(self)@ == old(self)@.insert(k),
    {
        let ghost pre = self.ids@;
        self.ids.push(k);
        proof {
            assert forall|x: u32| #[trigger] self.ids@.contains(x) <==> pre.contains(x) || x == k by {
                if pre.contains(x) {
                    let j = choose|j: int| 0 <= j < pre.len() && pre[j] == x;
                    assert(self.ids@[j] == x);
                }
                if x == k {
                    assert(self.ids@[pre.len() as int] == x);
                }
                if self.ids@.contains(x) && x != k {
                    let j = choose|j: int| 0 <= j < self.ids@.len() && self.ids@[j] == x;
                    assert(j < pre.len());
                    assert(pre[j] == x);
                }
            }
        }
        assert(self@ =~= old(self)@.insert(k));
    }

    /// For each id below `n`, whether it is in the set.
    pub fn flags_below(&self, n: u32) -> (r: Vec<bool>)
        ensures
            r@.len() == n,
            forall|j: int| 0 <= j < n ==> r@[j] == self@.contains(j as u32),
    {
        let mut flags: Vec<bool> = Vec::new();
        let mut j: u32 = 0;
        while j < n
            invariant
                j <= n,
                flags@.len() == j,
                forall|x: int| 0 <= x < j ==> !flags@[x],
            decreases n - j,
        {
            flags.push(false);
            j = j + 1;
        }
        let m = self.ids.len();
        let mut i: usize = 0;
        while i < m
            invariant
                m == self.ids@.len(),
                i <= m,
                flags@.len() == n,
                forall|x: int| 0 <= x < n ==> flags@[x] == (exists|a: int| 0 <= a < i && self.ids@[a] == x),
            decreases m - i,
        {
            let id = self.ids[i];
            if id < n {
                flags.set(id as usize, true);
            }
            proof {
                assert forall|x: int| 0 <= x < n implies flags@[x] == (exists|a: int| 0 <= a < i + 1 && self.ids@[a] == x) by {
                    if x == id as int {
                        assert(self.ids@[i as int] == x);
                    } else if flags@[x] {
                        let a = choose|a: int| 0 <= a < i && self.ids@[a] == x;
                        assert(0 <= a < i + 1 && self.ids@[a] == x);
                    } else {
                        assert forall|a: int| 0 <= a < i + 1 implies self.ids@[a] != x by {
                            if a < i {
                            } else {
                                assert(self.ids@[a] == id);
                            }
                        }
                    }
                }
            }
            i = i + 1;
        }
        proof {
            assert forall|x: int| 0 <= x < n implies flags@[x] == self@.contains(x as u32) by {
                if self@.contains(x as u32) {
                    let a = choose|a: int| 0 <= a < self.ids@.len() && self.ids@[a] == x as u32;
                    assert(self.ids@[a] == x);
                }
            }
        }
        flags
    }
}

/// A set of addresses.
pub struct AddressSet {
    addrs: Vec<String>,
}

impl AddressSet {
    pub closed spec fn view(&self) -> Set<Seq<char>> {
        Set::new(|a: Seq<char>| exists|i: int| 0 <= i < self.addrs@.len() && (#[trigger] self.addrs@[i])@ == a)
    }

    pub fn new() -> (r: AddressSet)
        ensures
            r@ == Set::<Seq<char>>::empty(),
    {
        let r = AddressSet { addrs: Vec::new() };
        assert(r@ =~= Set::<Seq<char>>::empty());
        r
    }

    pub fn contains(&self, a: &String) -> (r: bool)
        ensures
            r == self@.contains(a@),
    {
        let n = self.addrs.len();
        let mut i: usize = 0;
        while i < n
            invariant
                n == self.addrs@.len(),
                i <= n,
                forall|j: int| 0 <= j < i ==> (#[trigger] self.addrs@[j])@ != a@,
            decreases n - i,
        {
            if self.addrs[i] == *a {
                return true;
            }
            i = i + 1;
        }
        false
    }

    pub fn insert(&mut self, a: String)
        ensures
            final(self)@ == old(self)@.insert(a@),
    {
        let ghost pre = self.addrs@;
        let ghost av = a@;
        self.addrs.push(a);
        proof {
            assert forall|x: Seq<char>| #[trigger] self@.contains(x) <==> old(self)@.contains(x) || x == av by {
                if old(self)@.contains(x) {
                    let j = choose|j: int| 0 <= j < pre.len() && (#[trigger] pre[j])@ == x;
                    assert(self.addrs@[j] == pre[j]);
                }
                if x == av {
                    assert(self.addrs@[pre.len() as int]@ == x);
                }
                if self@.contains(x) && x != av {
                    let j = choose|j: int| 0 <= j < self.addrs@.len() && (#[trigger] self.addrs@[j])@ == x;
                    assert(j < pre.len());
                    assert(pre[j] == self.addrs@[j]);
                }
            }
        }
        assert(self@ =~= old(self)@.insert(av));
    }
}

} // verus!
