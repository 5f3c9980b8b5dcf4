use vstd::prelude::*;

use crate::types::{bytes_equal, VerificationData, WalletAddress};

verus! {

/// An association list from wallet address to record, each address at most
/// once, whose contents are the map `view()`.
pub struct AddressTable {
    entries: Vec<(WalletAddress, VerificationData)>,
    records: Ghost<Map<WalletAddress, VerificationData>>,
}

impl View for AddressTable {
    type V = Map<WalletAddress, VerificationData>;

    closed spec fn view(&self) -> Self::V {
        self.records@
    }
}

impl AddressTable {
    /// Each address occurs once in the list, and the list and the map agree.
    pub closed spec fn wf(&self) -> bool {
        &&& forall|i: int, j: int|
            0 <= i < self.entries@.len() && 0 <= j < self.entries@.len() && i != j
                ==> #[trigger] self.entries@[i].0 != #[trigger] self.entries@[j].0
        &&& forall|i: int|
            0 <= i < self.entries@.len() ==> {
                &&& self.records@.contains_key(#[trigger] self.entries@[i].0)
                &&& self.records@[self.entries@[i].0] == self.entries@[i].1
            }
        &&& forall|k: WalletAddress| #[trigger]
            self.records@.contains_key(k) ==> exists|i: int|
                0 <= i < self.entries@.len() && #[trigger] self.entries@[i].0 == k
    }

    pub fn new() -> (r: Self)
        ensures
            r.wf(),
            r@ == Map::<WalletAddress, VerificationData>::empty(),
    {
        AddressTable { entries: Vec::new(), records: Ghost(Map::empty()) }
    }

    /// The index of `address` in the list, if it is stored.
    fn position_of(&self, address: &WalletAddress) -> (r: Option<usize>)
        requires
            self.wf(),
        ensures
            match r {
                Some(i) => i < self.entries@.len() && self.entries@[i as int].0 == *address,
                None => !self@.contains_key(*address),
            },
    {
        let mut i: usize = 0;
        while i < self.entries.len()
            invariant
                self.wf(),
                i <= self.entries@.len(),
                forall|j: int| 0 <= j < i ==> self.entries@[j].0 != *address,
            decreases self.entries@.len() - i,
        {
            if bytes_equal(&self.entries[i].0, address) {
                return Some(i);
            }
            i = i + 1;
        }
        None
    }

    /// The record stored under `address`, if any.
    pub fn get(&self, address: &WalletAddress) -> (r: Option<VerificationData>)
        requires
            self.wf(),
        ensures
            r == (if self@.contains_key(*address) {
                Some(self@[*address])
            } else {
                None::<VerificationData>
            }),
    {
        match self.position_of(address) {
            Some(i) => Some(self.entries[i].1),
            None => None,
        }
    }

    /// Whether a record is stored under `address`.
    pub fn contains(&self, address: &WalletAddress) -> (r: bool)
        requires
            self.wf(),
        ensures
            r == self@.contains_key(*address),
    {
        self.position_of(address).is_some()
    }

    /// Stores `data` under `address`, replacing any earlier record.
    pub fn insert(&mut self, address: WalletAddress, data: VerificationData)
        requires
            old(self).wf(),
        ensures
            final(self).wf(),
            final(self)@ == old(self)@.insert(address, data),
    {
        let ghost old_entries = self.entries@;
        let ghost old_records = self.records@;
        match self.position_of(&address) {
            Some(i) => {
                self.entries.set(i, (address, data));
                self.records = Ghost(self.records@.insert(address, data));
                proof {
                    assert forall|k: WalletAddress| #[trigger]
                        self.records@.contains_key(k) implies exists|j: int|
                            0 <= j < self.entries@.len() && #[trigger] self.entries@[j].0 == k by {
                        if k == address {
                            assert(self.entries@[i as int].0 == k);
                        } else {
                            assert(old_records.contains_key(k));
                            let j = choose|j: int|
                                0 <= j < old_entries.len() && #[trigger] old_entries[j].0 == k;
                            assert(self.entries@[j].0 == k);
                        }
                    }
                }
            },
            None => {
                self.entries.push((address, data));
                self.records = Ghost(self.records@.insert(address, data));
                proof {
                    assert forall|k: WalletAddress| #[trigger]
                        self.records@.contains_key(k) implies exists|j: int|
                            0 <= j < self.entries@.len() && #[trigger] self.entries@[j].0 == k by {
                        if k == address {
                            assert(self.entries@[old_entries.len() as int].0 == k);
                        } else {
                            assert(old_records.contains_key(k));
                            let j = choose|j: int|
                                0 <= j < old_entries.len() && #[trigger] old_entries[j].0 == k;
                            assert(self.entries@[j].0 == k);
                        }
                    }
                }
            },
        }
    }
}

} // verus!
