//! The marketplace: a registry of the collection contracts it has deployed.
use vstd::prelude::*;
use crate::types::ContractError;

verus! {

/// Reply id of the instantiation of a collection contract.
pub const COLLECTION_REPLY_ID: u64 = 2;

/// A registered collection and its token contract.
#[derive(Clone, Debug, PartialEq, Eq)]
pub struct CollectionInfo {
    pub id: u32,
    pub collection_addr: String,
    pub cw721_addr: String,
}

/// The mathematical content of a [`CollectionInfo`].
pub struct CollectionEntry {
    pub id: u32,
    pub collection_addr: Seq<char>,
    pub cw721_addr: Seq<char>,
}

impl View for CollectionInfo {
    type V = CollectionEntry;

    open spec fn view(&self) -> CollectionEntry {
        CollectionEntry { id: self.id, collection_addr: self.collection_addr@, cw721_addr: self.cw721_addr@ }
    }
}

impl CollectionInfo {
    /// A copy of this entry.
    pub fn duplicate(&self) -> (r: CollectionInfo)
        ensures
            r@ == self@,
    {
        CollectionInfo {
            id: self.id,
            collection_addr: self.collection_addr.clone(),
            cw721_addr: self.cw721_addr.clone(),
        }
    }
}

/// The settings of the marketplace.
#[derive(Clone, Debug, PartialEq, Eq)]
pub struct Config {
    pub owner: String,
    /// The id given to the most recently registered collection.
    pub max_collection_id: u32,
    pub collection_code_id: u64,
    pub cw721_base_code_id: u64,
}

/// The marketplace: its settings and registered collections, in
/// registration order.
pub struct Marketplace {
    pub config: Config,
    pub collections: Vec<CollectionInfo>,
}

/// The entries whose id is not `id`.
pub open spec fn without_id(s: Seq<CollectionEntry>, id: u32) -> Seq<CollectionEntry> {
    s.filter(|c: CollectionEntry| c.id != id)
}

/// Index of the first entry with `id`, if any.
pub open spec fn first_with_id(s: Seq<CollectionEntry>, id: u32) -> Option<int> {
    if exists|i: int| 0 <= i < s.len() && (#[trigger] s[i]).id == id {
        Some(choose|i: int| 0 <= i < s.len() && (#[trigger] s[i]).id == id && forall|j: int| 0 <= j < i ==> (#[trigger] s[j]).id != id)
    } else {
        None
    }
}

impl Marketplace {
    /// The registered collections.
    pub closed spec fn view(&self) -> Seq<CollectionEntry> {
        self.collections@.map_values(|c: CollectionInfo| c@)
    }

    /// A marketplace owned by `sender` with no collections.
    pub fn new(sender: String, collection_code_id: u64, cw721_base_code_id: u64) -> (r: Marketplace)
        ensures
            r.config == (Config { owner: sender, max_collection_id: 0, collection_code_id, cw721_base_code_id }),
            r@ == Seq::<CollectionEntry>::empty(),
    {
        let r = Marketplace {
            config: Config { owner: sender, max_collection_id: 0, collection_code_id, cw721_base_code_id },
            collections: Vec::new(),
        };
        assert(r@ =~= Seq::<CollectionEntry>::empty());
        r
    }

    /// Fails unless `sender` owns the marketplace.
    pub fn check_owner(&self, sender: &String) -> (r: Result<(), ContractError>)
        ensures
            sender@ == self.config.owner@ ==> r is Ok,
            sender@ != self.config.owner@ ==> r == Err::<(), ContractError>(ContractError::Unauthorized {}),
    {
        if *sender != self.config.owner {
            return Err(ContractError::Unauthorized {});
        }
        Ok(())
    }

    /// Hands the marketplace to `new_owner` (owner only).
    pub fn update_config(&mut self, sender: &String, new_owner: String) -> (r: Result<(), ContractError>)
        ensures
            final(self)@ == old(self)@,
            sender@ != old(self).config.owner@ ==> r == Err::<(), ContractError>(ContractError::Unauthorized {})
                && final(self).config == old(self).config,
            sender@ == old(self).config.owner@ ==> r is Ok && final(self).config == (Config {
                owner: new_owner,
                ..old(self).config
            }),
    {
        self.check_owner(sender)?;
        self.config.owner = new_owner;
        Ok(())
    }

    /// Sets the code ids used to deploy collections (owner only).
    pub fn update_constants(&mut self, sender: &String, collection_code_id: u64, cw721_base_code_id: u64) -> (r: Result<
        (),
        ContractError,
    >)
        ensures
            final(self)@ == old(self)@,
            sender@ != old(self).config.owner@ ==> r == Err::<(), ContractError>(ContractError::Unauthorized {})
                && final(self).config == old(self).config,
            sender@ == old(self).config.owner@ ==> r is Ok && final(self).config == (Config {
                collection_code_id,
                cw721_base_code_id,
                ..old(self).config
            }),
    {
        self.check_owner(sender)?;
        self.config.collection_code_id = collection_code_id;
        self.config.cw721_base_code_id = cw721_base_code_id;
        Ok(())
    }

    /// Registers a newly deployed collection under the next id, given the
    /// token contract it reports (`None` if it has none yet).
    pub fn register_collection(&mut self, reply_id: u64, collection_addr: String, cw721_addr: Option<String>) -> (r: Result<
        u32,
        ContractError,
    >)
        requires
            old(self).config.max_collection_id < u32::MAX,
        ensures
            reply_id != COLLECTION_REPLY_ID ==> r == Err::<u32, ContractError>(ContractError::InvalidTokenReplyId {})
                && final(self)@ == old(self)@ && final(self).config == old(self).config,
            reply_id == COLLECTION_REPLY_ID && cw721_addr.is_none() ==> r == Err::<u32, ContractError>(
                ContractError::Uninitialized {}) && final(self)@ == old(self)@ && final(self).config == old(self).config,
            reply_id == COLLECTION_REPLY_ID && cw721_addr.is_some() ==> {
                let id = (old(self).config.max_collection_id + 1) as u32;
                &&& r == Ok::<u32, ContractError>(id)
                &&& final(self).config == (Config { max_collection_id: id, ..old(self).config })
                &&& final(self)@ == old(self)@.push(
                    CollectionEntry { id, collection_addr: collection_addr@, cw721_addr: cw721_addr.unwrap()@ },
                )
            },
    {
        if reply_id != COLLECTION_REPLY_ID {
            return Err(ContractError::InvalidTokenReplyId {});
        }
        let cw721 = match cw721_addr {
            None => { return Err(ContractError::Uninitialized {}); },
            Some(a) => a,
        };
        let id = self.config.max_collection_id + 1;
        self.config.max_collection_id = id;
        let ghost pre = self.collections@;
        self.collections.push(CollectionInfo { id, collection_addr, cw721_addr: cw721 });
        assert(self@ =~= pre.map_values(|c: CollectionInfo| c@).push(self.collections@.last()@));
        Ok(id)
    }

    /// Removes every collection registered under `id` (owner only).
    pub fn remove_collection(&mut self, sender: &String, id: u32) -> (r: Result<(), ContractError>)
        ensures
            final(self).config == old(self).config,
            sender@ != old(self).config.owner@ ==> r == Err::<(), ContractError>(ContractError::Unauthorized {})
                && final(self)@ == old(self)@,
            sender@ == old(self).config.owner@ ==> r is Ok && final(self)@ == without_id(old(self)@, id),
    {
        self.check_owner(sender)?;
        let ghost all = self@;
        let n = self.collections.len();
        let mut kept: Vec<CollectionInfo> = Vec::new();
        let mut i: usize = 0;
        while i < n
            invariant
                n == self.collections@.len(),
                all == self@,
                i <= n,
                kept@.map_values(|c: CollectionInfo| c@) == without_id(all.take(i as int), id),
            decreases n - i,
        {
            let ghost before = kept@;
            proof {
                reveal(Seq::filter);
                assert(all.take(i + 1).drop_last() =~= all.take(i as int));
                assert(all.take(i + 1).last() == self.collections@[i as int]@);
            }
            if self.collections[i].id != id {
                kept.push(self.collections[i].duplicate());
                assert(kept@.map_values(|c: CollectionInfo| c@) =~= before.map_values(|c: CollectionInfo| c@).push(
                    self.collections@[i as int]@,
                ));
            }
            i = i + 1;
        }
        assert(all.take(n as int) =~= all);
        self.collections = kept;
        Ok(())
    }

    /// Removes every collection (owner only).
    pub fn remove_all_collection(&mut self, sender: &String) -> (r: Result<(), ContractError>)
        ensures
            final(self).config == old(self).config,
            sender@ != old(self).config.owner@ ==> r == Err::<(), ContractError>(ContractError::Unauthorized {})
                && final(self)@ == old(self)@,
            sender@ == old(self).config.owner@ ==> r is Ok && final(self)@ == Seq::<CollectionEntry>::empty(),
    {
        self.check_owner(sender)?;
        self.collections = Vec::new();
        assert(self@ =~= Seq::<CollectionEntry>::empty());
        Ok(())
    }

    /// The collection registered under `id`; for an unknown id, an entry
    /// that names the owner as both addresses.
    pub fn query_collection(&self, id: u32) -> (r: CollectionInfo)
        ensures
            match first_with_id(self@, id) {
                Some(i) => r@ == self@[i],
                None => r@ == (CollectionEntry {
                    id,
                    collection_addr: self.config.owner@,
                    cw721_addr: self.config.owner@,
                }),
            },
    {
        let n = self.collections.len();
        let mut i: usize = 0;
        while i < n
            invariant
                n == self.collections@.len(),
                i <= n,
                forall|j: int| 0 <= j < i ==> (#[trigger] self@[j]).id != id,
            decreases n - i,
        {
            if self.collections[i].id == id {
                proof {
                    assert(self@[i as int].id == id);
                    let k = choose|k: int| 0 <= k < self@.len() && (#[trigger] self@[k]).id == id
                        && forall|j: int| 0 <= j < k ==> (#[trigger] self@[j]).id != id;
                    assert(k == i) by {
                        if k < i {
                            assert(self@[k].id != id);
                        } else if k > i {
                            assert(self@[i as int].id != id);
                        }
                    }
                }
                return self.collections[i].duplicate();
            }
            i = i + 1;
        }
        CollectionInfo { id, collection_addr: self.config.owner.clone(), cw721_addr: self.config.owner.clone() }
    }

    /// Every registered collection, in registration order.
    pub fn query_list_collections(&self) -> (r: Vec<CollectionInfo>)
        ensures
            r@.map_values(|c: CollectionInfo| c@) == self@,
    {
        let n = self.collections.len();
        let mut out: Vec<CollectionInfo> = Vec::new();
        let mut i: usize = 0;
        while i < n
            invariant
                n == self.collections@.len(),
                i <= n,
                out@.len() == i,
                forall|j: int| 0 <= j < i ==> (#[trigger] out@[j])@ == self.collections@[j]@,
            decreases n - i,
        {
            out.push(self.collections[i].duplicate());
            i = i + 1;
        }
        assert(out@.map_values(|c: CollectionInfo| c@) =~= self@);
        out
    }

}

} // verus!
