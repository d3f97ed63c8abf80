//! The set of delegation records that subscribers asked for.

use vstd::prelude::*;

use crate::consts::PUBKEY_LEN;
use crate::types::{pubkey_equals, pubkeys_view, Pubkey};

verus! {

/// A set of record pubkeys. No pubkey is stored twice.
pub struct SubscriptionSet {
    records: Vec<Pubkey>,
}

impl View for SubscriptionSet {
    type V = Set<Seq<u8>>;

    closed spec fn view(&self) -> Set<Seq<u8>> {
        pubkeys_view(self.records@).to_set()
    }
}

/// A sequence after `swap_remove(i)`: the last element takes the place of
/// the one at `i`.
spec fn swap_removed(keys: Seq<Seq<u8>>, i: int) -> Seq<Seq<u8>> {
    keys.update(i, keys.last()).drop_last()
}

/// Taking one element out of a sequence without duplicates by `swap_remove`
/// leaves no duplicates and takes exactly that element out of the set.
proof fn lemma_swap_remove_takes_one_out(keys: Seq<Seq<u8>>, i: int)
    requires
        keys.no_duplicates(),
        0 <= i < keys.len(),
    ensures
        swap_removed(keys, i).no_duplicates(),
        swap_removed(keys, i).to_set() == keys.to_set().remove(keys[i]),
{
    let kept = swap_removed(keys, i);
    let last = keys.len() - 1;
    assert forall|k: Seq<u8>| kept.contains(k) <==> (keys.contains(k) && k != keys[i]) by {
        if kept.contains(k) {
            let j = choose|j: int| 0 <= j < kept.len() && kept[j] == k;
            if j == i {
                assert(keys[last] == k);
            } else {
                assert(keys[j] == k);
            }
        }
        if keys.contains(k) && k != keys[i] {
            let j = choose|j: int| 0 <= j < keys.len() && keys[j] == k;
            if j == last {
                assert(kept[i] == k);
            } else {
                assert(kept[j] == k);
            }
        }
    }
    assert(kept.to_set() =~= keys.to_set().remove(keys[i]));
}

impl SubscriptionSet {
    #[verifier::type_invariant]
    spec fn stores_each_once(self) -> bool {
        pubkeys_view(self.records@).no_duplicates()
    }

    /// The position of `bytes` among the stored records, if it is stored.
    fn position(&self, bytes: &[u8]) -> (found: Option<usize>)
        ensures
            match found {
                Some(i) => i < self.records@.len() && pubkeys_view(self.records@)[i as int]
                    == bytes@,
                None => !self@.contains(bytes@),
            },
    {
        let ghost keys = pubkeys_view(self.records@);
        let mut i: usize = 0;
        while i < self.records.len()
            invariant
                0 <= i <= self.records.len(),
                keys == pubkeys_view(self.records@),
                forall|j: int| 0 <= j < i ==> keys[j] != bytes@,
            decreases self.records.len() - i,
        {
            if pubkey_equals(&self.records[i], bytes) {
                return Some(i);
            }
            i += 1;
        }
        None
    }

    /// Every member has the width of a pubkey.
    pub proof fn lemma_members_have_pubkey_width(&self)
        ensures
            forall|record: Seq<u8>| self@.contains(record) ==> record.len() == PUBKEY_LEN,
    {
        let keys = pubkeys_view(self.records@);
        assert forall|record: Seq<u8>| self@.contains(record) implies record.len()
            == PUBKEY_LEN by {
            let i = choose|i: int| 0 <= i < keys.len() && keys[i] == record;
            assert(keys[i] == self.records@[i]@);
        }
    }

    /// The empty set.
    pub fn new() -> (set: Self)
        ensures
            set@ == Set::<Seq<u8>>::empty(),
    {
        let set = SubscriptionSet { records: Vec::new() };
        assert(set@ =~= Set::<Seq<u8>>::empty());
        set
    }

    /// Whether `bytes` is a member. Only byte sequences of pubkey width can be.
    pub fn contains(&self, bytes: &[u8]) -> (member: bool)
        ensures
            member == self@.contains(bytes@),
    {
        self.position(bytes).is_some()
    }

    /// Adds `record`; returns whether it was absent before.
    pub fn insert(&mut self, record: Pubkey) -> (added: bool)
        ensures
            final(self)@ == old(self)@.insert(record@),
            added == !old(self)@.contains(record@),
    {
        proof {
            use_type_invariant(&*self);
        }
        if self.position(record.as_slice()).is_some() {
            assert(self@ =~= self@.insert(record@));
            return false;
        }
        let ghost keys = pubkeys_view(self.records@);
        let mut records: Vec<Pubkey> = Vec::new();
        std::mem::swap(&mut records, &mut self.records);
        records.push(record);
        proof {
            assert(pubkeys_view(records@) =~= keys.push(record@));
            keys.lemma_push_to_set_commute(record@);
        }
        self.records = records;
        true
    }

    /// Removes `record`; returns whether it was a member.
    pub fn remove(&mut self, record: &Pubkey) -> (removed: bool)
        ensures
            final(self)@ == old(self)@.remove(record@),
            removed == old(self)@.contains(record@),
    {
        proof {
            use_type_invariant(&*self);
        }
        let i = match self.position(record.as_slice()) {
            Some(i) => i,
            None => {
                assert(self@ =~= self@.remove(record@));
                return false;
            },
        };
        let ghost keys = pubkeys_view(self.records@);
        let mut records: Vec<Pubkey> = Vec::new();
        std::mem::swap(&mut records, &mut self.records);
        records.swap_remove(i);
        proof {
            assert(pubkeys_view(records@) =~= swap_removed(keys, i as int));
            lemma_swap_remove_takes_one_out(keys, i as int);
        }
        self.records = records;
        true
    }

    /// The number of members.
    pub fn len(&self) -> (count: usize)
        ensures
            self@.finite(),
            count == self@.len(),
    {
        proof {
            use_type_invariant(self);
            pubkeys_view(self.records@).unique_seq_to_set();
        }
        self.records.len()
    }

    /// Whether the set has no member.
    pub fn is_empty(&self) -> (empty: bool)
        ensures
            empty == (self@ == Set::<Seq<u8>>::empty()),
    {
        proof {
            if self.records@.len() == 0 {
                assert(self@ =~= Set::<Seq<u8>>::empty());
            } else {
                assert(self@.contains(pubkeys_view(self.records@)[0]));
            }
        }
        self.records.len() == 0
    }
}

} // verus!
