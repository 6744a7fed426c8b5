//! The map from claims (byte strings) to their owner and the block they were stored in.
use vstd::prelude::*;
use crate::dispatch::{AccountId, BlockNumber};

verus! {

/// What is stored for a claim: its owner and the block in which it was stored.
pub type ClaimRecord = (AccountId, BlockNumber);

/// One entry of a `ClaimStore`.
struct Entry {
    claim: Vec<u8>,
    owner: AccountId,
    block: BlockNumber,
}

impl View for Entry {
    type V = (Seq<u8>, AccountId, BlockNumber);

    closed spec fn view(&self) -> (Seq<u8>, AccountId, BlockNumber) {
        (self.claim@, self.owner, self.block)
    }
}

/// No claim occurs twice among the entries.
spec fn claims_unique(s: Seq<(Seq<u8>, AccountId, BlockNumber)>) -> bool {
    forall|i: int, j: int| 0 <= i < s.len() && 0 <= j < s.len() && i != j ==> s[i].0 != s[j].0
}

/// The entries, read as a map from claim to record.
spec fn entries_map(s: Seq<(Seq<u8>, AccountId, BlockNumber)>) -> Map<Seq<u8>, ClaimRecord> {
    Map::new(
        |c: Seq<u8>| exists|i: int| 0 <= i < s.len() && s[i].0 == c,
        |c: Seq<u8>|
            {
                let i = choose|i: int| 0 <= i < s.len() && s[i].0 == c;
                (s[i].1, s[i].2)
            },
    )
}

proof fn lemma_entries_map_at(s: Seq<(Seq<u8>, AccountId, BlockNumber)>, i: int)
    requires
        claims_unique(s),
        0 <= i < s.len(),
    ensures
        entries_map(s).contains_key(s[i].0),
        entries_map(s)[s[i].0] == (s[i].1, s[i].2),
{
    let c = s[i].0;
    assert(exists|j: int| 0 <= j < s.len() && s[j].0 == c);
    let j = choose|j: int| 0 <= j < s.len() && s[j].0 == c;
    assert(j == i);
}

proof fn lemma_entries_map_push(
    s: Seq<(Seq<u8>, AccountId, BlockNumber)>,
    e: (Seq<u8>, AccountId, BlockNumber),
)
    requires
        claims_unique(s),
        !entries_map(s).contains_key(e.0),
    ensures
        claims_unique(s.push(e)),
        entries_map(s.push(e)) == entries_map(s).insert(e.0, (e.1, e.2)),
{
    let t = s.push(e);
    assert forall|i: int| 0 <= i < s.len() implies s[i].0 != e.0 by {
        if s[i].0 == e.0 {
            assert(entries_map(s).contains_key(e.0));
        }
    }
    assert(claims_unique(t));
    let m = entries_map(s).insert(e.0, (e.1, e.2));
    assert forall|c: Seq<u8>| #[trigger] entries_map(t).contains_key(c) <==> m.contains_key(c) by {
        if m.contains_key(c) && c != e.0 {
            let i = choose|i: int| 0 <= i < s.len() && s[i].0 == c;
            assert(t[i].0 == c);
        }
        if c == e.0 {
            assert(t[s.len() as int].0 == c);
        }
    }
    assert forall|c: Seq<u8>| #[trigger] entries_map(t).contains_key(c) implies entries_map(t)[c]
        == m[c] by {
        let i = choose|i: int| 0 <= i < t.len() && t[i].0 == c;
        lemma_entries_map_at(t, i);
        if i < s.len() {
            lemma_entries_map_at(s, i);
        }
    }
    assert(entries_map(t) =~= m);
}

proof fn lemma_entries_map_update(
    s: Seq<(Seq<u8>, AccountId, BlockNumber)>,
    k: int,
    e: (Seq<u8>, AccountId, BlockNumber),
)
    requires
        claims_unique(s),
        0 <= k < s.len(),
        s[k].0 == e.0,
    ensures
        claims_unique(s.update(k, e)),
        entries_map(s.update(k, e)) == entries_map(s).insert(e.0, (e.1, e.2)),
{
    let t = s.update(k, e);
    assert(claims_unique(t));
    let m = entries_map(s).insert(e.0, (e.1, e.2));
    lemma_entries_map_at(s, k);
    assert forall|c: Seq<u8>| #[trigger] entries_map(t).contains_key(c) <==> m.contains_key(c) by {
        if m.contains_key(c) {
            let i = choose|i: int| 0 <= i < s.len() && s[i].0 == c;
            assert(t[i].0 == c);
        }
        if entries_map(t).contains_key(c) {
            let i = choose|i: int| 0 <= i < t.len() && t[i].0 == c;
            assert(s[i].0 == c);
        }
    }
    assert forall|c: Seq<u8>| #[trigger] entries_map(t).contains_key(c) implies entries_map(t)[c]
        == m[c] by {
        let i = choose|i: int| 0 <= i < t.len() && t[i].0 == c;
        lemma_entries_map_at(t, i);
        lemma_entries_map_at(s, i);
    }
    assert(entries_map(t) =~= m);
}

proof fn lemma_entries_map_remove(s: Seq<(Seq<u8>, AccountId, BlockNumber)>, k: int)
    requires
        claims_unique(s),
        0 <= k < s.len(),
    ensures
        claims_unique(s.remove(k)),
        entries_map(s.remove(k)) == entries_map(s).remove(s[k].0),
{
    let t = s.remove(k);
    assert forall|i: int, j: int| 0 <= i < t.len() && 0 <= j < t.len() && i != j implies t[i].0
        != t[j].0 by {
        let i2 = if i < k { i } else { i + 1 };
        let j2 = if j < k { j } else { j + 1 };
        assert(t[i] == s[i2] && t[j] == s[j2]);
    }
    let m = entries_map(s).remove(s[k].0);
    assert forall|c: Seq<u8>| #[trigger] entries_map(t).contains_key(c) <==> m.contains_key(c) by {
        if m.contains_key(c) {
            let i = choose|i: int| 0 <= i < s.len() && s[i].0 == c;
            assert(i != k);
            let i2 = if i < k { i } else { i - 1 };
            assert(t[i2].0 == c);
        }
        if entries_map(t).contains_key(c) {
            let i = choose|i: int| 0 <= i < t.len() && t[i].0 == c;
            let i2 = if i < k { i } else { i + 1 };
            assert(s[i2].0 == c);
        }
    }
    assert forall|c: Seq<u8>| #[trigger] entries_map(t).contains_key(c) implies entries_map(t)[c]
        == m[c] by {
        let i = choose|i: int| 0 <= i < t.len() && t[i].0 == c;
        let i2 = if i < k { i } else { i + 1 };
        lemma_entries_map_at(t, i);
        lemma_entries_map_at(s, i2);
    }
    assert(entries_map(t) =~= m);
}

/// Compares two byte strings.
fn bytes_eq(a: &Vec<u8>, b: &Vec<u8>) -> (r: bool)
    ensures
        r == (a@ == b@),
{
    if a.len() != b.len() {
        return false;
    }
    let mut i: usize = 0;
    while i < a.len()
        invariant
            a.len() == b.len(),
            i <= a.len(),
            forall|j: int| 0 <= j < i ==> a@[j] == b@[j],
        decreases a.len() - i,
    {
        if a[i] != b[i] {
            return false;
        }
        i = i + 1;
    }
    assert(a@ =~= b@);
    true
}

/// A map from claims to records, each claim stored at most once.
pub struct ClaimStore {
    entries: Vec<Entry>,
}

impl ClaimStore {
    spec fn entry_views(&self) -> Seq<(Seq<u8>, AccountId, BlockNumber)> {
        self.entries@.map_values(|e: Entry| e@)
    }

    #[verifier::type_invariant]
    spec fn inv(&self) -> bool {
        claims_unique(self.entry_views())
    }
}

impl View for ClaimStore {
    type V = Map<Seq<u8>, ClaimRecord>;

    closed spec fn view(&self) -> Map<Seq<u8>, ClaimRecord> {
        entries_map(self.entry_views())
    }
}

impl ClaimStore {
    /// An empty store.
    pub fn new() -> (r: Self)
        ensures
            r@ == Map::<Seq<u8>, ClaimRecord>::empty(),
    {
        let r = ClaimStore { entries: Vec::new() };
        assert(r@ =~= Map::<Seq<u8>, ClaimRecord>::empty());
        r
    }

    /// The position of `claim`, if stored.
    fn find(&self, claim: &Vec<u8>) -> (r: Option<usize>)
        ensures
            match r {
                Some(i) => i < self.entries.len() && self.entry_views()[i as int].0 == claim@,
                None => !self@.contains_key(claim@),
            },
    {
        let mut i: usize = 0;
        while i < self.entries.len()
            invariant
                i <= self.entries.len(),
                forall|j: int| 0 <= j < i ==> self.entry_views()[j].0 != claim@,
            decreases self.entries.len() - i,
        {
            if bytes_eq(&self.entries[i].claim, claim) {
                return Some(i);
            }
            i = i + 1;
        }
        proof {
            if self@.contains_key(claim@) {
                let j = choose|j: int| 0 <= j < self.entry_views().len() && self.entry_views()[j].0 == claim@;
                assert(self.entry_views()[j].0 != claim@);
            }
        }
        None
    }

    /// The record stored for `claim`.
    pub fn get(&self, claim: &Vec<u8>) -> (r: Option<ClaimRecord>)
        ensures
            r == (if self@.contains_key(claim@) {
                Some(self@[claim@])
            } else {
                None
            }),
    {
        proof {
            use_type_invariant(self);
        }
        match self.find(claim) {
            Some(i) => {
                proof {
                    lemma_entries_map_at(self.entry_views(), i as int);
                }
                Some((self.entries[i].owner, self.entries[i].block))
            },
            None => None,
        }
    }

    /// Whether `claim` is stored.
    pub fn contains_key(&self, claim: &Vec<u8>) -> (r: bool)
        ensures
            r == self@.contains_key(claim@),
    {
        self.get(claim).is_some()
    }

    /// Stores `record` for `claim`, replacing what was stored for it.
    pub fn insert(&mut self, claim: &Vec<u8>, record: ClaimRecord)
        ensures
            final(self)@ == old(self)@.insert(claim@, record),
    {
        proof {
            use_type_invariant(&*self);
        }
        let e = Entry { claim: claim.clone(), owner: record.0, block: record.1 };
        match self.find(claim) {
            Some(i) => {
                proof {
                    lemma_entries_map_update(self.entry_views(), i as int, e@);
                    assert(self.entries@.update(i as int, e).map_values(|e: Entry| e@)
                        =~= self.entry_views().update(i as int, e@));
                }
                let mut entries = Vec::new();
                std::mem::swap(&mut entries, &mut self.entries);
                entries.set(i, e);
                self.entries = entries;
            },
            None => {
                proof {
                    lemma_entries_map_push(self.entry_views(), e@);
                    assert(self.entries@.push(e).map_values(|e: Entry| e@)
                        =~= self.entry_views().push(e@));
                }
                let mut entries = Vec::new();
                std::mem::swap(&mut entries, &mut self.entries);
                entries.push(e);
                self.entries = entries;
            },
        }
    }

    /// Removes what is stored for `claim`.
    pub fn remove(&mut self, claim: &Vec<u8>)
        ensures
            final(self)@ == old(self)@.remove(claim@),
    {
        proof {
            use_type_invariant(&*self);
        }
        match self.find(claim) {
            Some(i) => {
                proof {
                    lemma_entries_map_remove(self.entry_views(), i as int);
                    assert(self.entries@.remove(i as int).map_values(|e: Entry| e@)
                        =~= self.entry_views().remove(i as int));
                }
                let mut entries = Vec::new();
                std::mem::swap(&mut entries, &mut self.entries);
                entries.remove(i);
                self.entries = entries;
            },
            None => {
                assert(old(self)@.remove(claim@) =~= old(self)@);
            },
        }
    }
}

} // verus!
