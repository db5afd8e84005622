//! In-memory model of the host's persistent storage.
//!
//! Every record lives at a derived 32-byte address, and an address holds at
//! most one record. Creation is allocate-once: writing to an occupied
//! address fails, which is what makes the ledger's duplicate detection work.

use vstd::prelude::*;

use crate::encoding::bytes_eq;
use crate::error::BridgeError;
use crate::state::{Address, Record};

verus! {

/// The map denoted by a sequence of address/record entries; a later entry
/// for the same address shadows an earlier one.
pub open spec fn entries_map(s: Seq<(Address, Record)>) -> Map<Seq<u8>, Record>
    decreases s.len(),
{
    if s.len() == 0 {
        Map::empty()
    } else {
        entries_map(s.drop_last()).insert(s.last().0@, s.last().1)
    }
}

/// Addressed storage with allocate-once semantics.
pub struct AccountStore {
    entries: Vec<(Address, Record)>,
}

impl View for AccountStore {
    type V = Map<Seq<u8>, Record>;

    closed spec fn view(&self) -> Map<Seq<u8>, Record> {
        entries_map(self.entries@)
    }
}

proof fn lemma_entries_map_keys(s: Seq<(Address, Record)>, k: Seq<u8>)
    ensures
        entries_map(s).contains_key(k) <==> exists|i: int| 0 <= i < s.len() && s[i].0@ == k,
    decreases s.len(),
{
    if s.len() > 0 {
        lemma_entries_map_keys(s.drop_last(), k);
        if entries_map(s).contains_key(k) {
            if s.last().0@ == k {
                assert(s[s.len() - 1].0@ == k);
            } else {
                let i = choose|i: int| 0 <= i < s.drop_last().len() && s.drop_last()[i].0@ == k;
                assert(s[i].0@ == k);
            }
        }
        if exists|i: int| 0 <= i < s.len() && s[i].0@ == k {
            let i = choose|i: int| 0 <= i < s.len() && s[i].0@ == k;
            if i < s.len() - 1 {
                assert(s.drop_last()[i].0@ == k);
            }
        }
    }
}

proof fn lemma_entries_map_get(s: Seq<(Address, Record)>, i: int)
    requires
        forall|p: int, q: int|
            0 <= p < q < s.len() ==> s[p].0@ != s[q].0@,
        0 <= i < s.len(),
    ensures
        entries_map(s).contains_key(s[i].0@),
        entries_map(s)[s[i].0@] == s[i].1,
    decreases s.len(),
{
    if i == s.len() - 1 {
    } else {
        assert(forall|p: int, q: int|
            0 <= p < q < s.drop_last().len() ==> s.drop_last()[p].0@ != s.drop_last()[q].0@);
        lemma_entries_map_get(s.drop_last(), i);
        assert(s[i].0@ != s.last().0@);
    }
}

proof fn lemma_entries_map_update(s: Seq<(Address, Record)>, i: int, r: Record)
    requires
        forall|p: int, q: int|
            0 <= p < q < s.len() ==> s[p].0@ != s[q].0@,
        0 <= i < s.len(),
    ensures
        entries_map(s.update(i, (s[i].0, r))) =~= entries_map(s).insert(s[i].0@, r),
    decreases s.len(),
{
    let s2 = s.update(i, (s[i].0, r));
    if i == s.len() - 1 {
        assert(s2.drop_last() =~= s.drop_last());
    } else {
        assert(forall|p: int, q: int|
            0 <= p < q < s.drop_last().len() ==> s.drop_last()[p].0@ != s.drop_last()[q].0@);
        lemma_entries_map_update(s.drop_last(), i, r);
        assert(s2.drop_last() =~= s.drop_last().update(i, (s[i].0, r)));
        assert(s2.last() == s.last());
        assert(s[i].0@ != s.last().0@);
    }
}

impl AccountStore {
    /// Each address occurs in at most one entry.
    pub closed spec fn wf(&self) -> bool {
        forall|p: int, q: int|
            0 <= p < q < self.entries@.len() ==> self.entries@[p].0@ != self.entries@[q].0@
    }

    /// Creates an empty store.
    pub fn new() -> (s: AccountStore)
        ensures
            s.wf(),
            s@ == Map::<Seq<u8>, Record>::empty(),
    {
        AccountStore { entries: Vec::new() }
    }

    /// Reads the record at an address, if any.
    pub fn get(&self, addr: &Address) -> (r: Option<Record>)
        requires
            self.wf(),
        ensures
            match r {
                Some(rec) => self@.contains_key(addr@) && self@[addr@] == rec,
                None => !self@.contains_key(addr@),
            },
    {
        let n = self.entries.len();
        let mut i: usize = 0;
        while i < n
            invariant
                self.wf(),
                0 <= i <= n,
                n == self.entries@.len(),
                forall|j: int| 0 <= j < i ==> self.entries@[j].0@ != addr@,
            decreases n - i,
        {
            if bytes_eq(self.entries[i].0.as_slice(), addr.as_slice()) {
                proof {
                    lemma_entries_map_get(self.entries@, i as int);
                }
                return Some(self.entries[i].1);
            }
            i = i + 1;
        }
        proof {
            lemma_entries_map_keys(self.entries@, addr@);
        }
        None
    }

    /// Allocates a record at a fresh address; an occupied address is refused.
    pub fn insert_new(&mut self, addr: &Address, rec: Record) -> (r: Result<(), BridgeError>)
        requires
            old(self).wf(),
        ensures
            final(self).wf(),
            r is Ok <==> !old(self)@.contains_key(addr@),
            r is Ok ==> final(self)@ == old(self)@.insert(addr@, rec),
            r is Err ==> final(self)@ == old(self)@ && r == Err::<(), BridgeError>(
                BridgeError::AlreadyInitialized,
            ),
    {
        if self.contains(addr) {
            return Err(BridgeError::AlreadyInitialized);
        }
        proof {
            lemma_entries_map_keys(self.entries@, addr@);
        }
        let ghost s0 = self.entries@;
        self.entries.push((*addr, rec));
        proof {
            assert(self.entries@.drop_last() =~= s0);
            assert forall|p: int, q: int|
                0 <= p < q < self.entries@.len() implies self.entries@[p].0@
                != self.entries@[q].0@ by {
                if q == self.entries@.len() - 1 {
                    assert(self.entries@[p] == s0[p]);
                }
            }
        }
        Ok(())
    }

    /// Overwrites the record at an already-occupied address.
    pub fn update(&mut self, addr: &Address, rec: Record)
        requires
            old(self).wf(),
            old(self)@.contains_key(addr@),
        ensures
            final(self).wf(),
            final(self)@ == old(self)@.insert(addr@, rec),
    {
        let n = self.entries.len();
        let mut i: usize = 0;
        proof {
            lemma_entries_map_keys(self.entries@, addr@);
        }
        while i < n
            invariant
                self.entries@ == old(self).entries@,
                self.wf(),
                self@.contains_key(addr@),
                0 <= i <= n,
                n == self.entries@.len(),
                exists|j: int| 0 <= j < n && self.entries@[j].0@ == addr@,
                forall|j: int| 0 <= j < i ==> self.entries@[j].0@ != addr@,
            decreases n - i,
        {
            if bytes_eq(self.entries[i].0.as_slice(), addr.as_slice()) {
                let ghost s0 = self.entries@;
                let key = self.entries[i].0;
                self.entries[i] = (key, rec);
                proof {
                    assert(self.entries@ =~= s0.update(i as int, (s0[i as int].0, rec)));
                    lemma_entries_map_update(s0, i as int, rec);
                    assert(s0[i as int].0@ == addr@);
                    assert(entries_map(self.entries@) =~= entries_map(s0).insert(addr@, rec));
                    assert forall|p: int, q: int|
                        0 <= p < q < self.entries@.len() implies self.entries@[p].0@
                        != self.entries@[q].0@ by {
                        assert(self.entries@[p].0 == s0[p].0);
                        assert(self.entries@[q].0 == s0[q].0);
                    }
                }
                return ;
            }
            i = i + 1;
        }
        proof {
            let j = choose|j: int| 0 <= j < n && self.entries@[j].0@ == addr@;
            assert(false);
        }
    }

    /// Copies the store, so that an operation can stage its writes and
    /// commit them only once every check has passed.
    pub fn snapshot(&self) -> (s: AccountStore)
        ensures
            s@ == self@,
            self.wf() ==> s.wf(),
    {
        let n = self.entries.len();
        let mut v: Vec<(Address, Record)> = Vec::new();
        let mut i: usize = 0;
        while i < n
            invariant
                0 <= i <= n,
                n == self.entries@.len(),
                v@ == self.entries@.take(i as int),
            decreases n - i,
        {
            let e = self.entries[i];
            v.push(e);
            proof {
                assert(v@ =~= self.entries@.take(i as int + 1));
            }
            i = i + 1;
        }
        proof {
            assert(v@ =~= self.entries@);
        }
        AccountStore { entries: v }
    }

    /// True when the address already holds a record.
    pub fn contains(&self, addr: &Address) -> (r: bool)
        requires
            self.wf(),
        ensures
            r == self@.contains_key(addr@),
    {
        match self.get(addr) {
            Some(_) => true,
            None => false,
        }
    }
}

} // verus!
