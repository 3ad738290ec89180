//! Shared mutable state of the agent: the nonce ledger (last accepted
//! sequence number per subject entity and sender address) and the dedup
//! ledger (transport message ids already handled).
//!
//! Both are string-keyed maps backed by a vector of entries with pairwise
//! distinct keys; their mathematical views are `Map` and `Set` values over
//! character sequences.

use vstd::prelude::*;

use crate::errors::MessageError;

verus! {

/// The view of an entry sequence: later entries win, as in repeated
/// insertion.
pub open spec fn entries_map<V>(entries: Seq<(String, V)>) -> Map<Seq<char>, V>
    decreases entries.len(),
{
    if entries.len() == 0 {
        Map::empty()
    } else {
        entries_map(entries.drop_last()).insert(entries.last().0@, entries.last().1)
    }
}

/// Pairwise distinct keys.
pub open spec fn entries_unique<V>(entries: Seq<(String, V)>) -> bool {
    forall|i: int, j: int|
        0 <= i < j < entries.len() ==> entries[i].0@ != entries[j].0@
}

proof fn lemma_entries_map_contains<V>(entries: Seq<(String, V)>, k: Seq<char>)
    ensures
        entries_map(entries).contains_key(k) <==> exists|i: int|
            0 <= i < entries.len() && entries[i].0@ == k,
    decreases entries.len(),
{
    if entries.len() > 0 {
        lemma_entries_map_contains(entries.drop_last(), k);
        if entries.last().0@ == k {
            assert(entries[entries.len() - 1].0@ == k);
        } else {
            if entries_map(entries).contains_key(k) {
                let i = choose|i: int| 0 <= i < entries.drop_last().len()
                    && entries.drop_last()[i].0@ == k;
                assert(entries[i].0@ == k);
            }
            if exists|i: int| 0 <= i < entries.len() && entries[i].0@ == k {
                let i = choose|i: int| 0 <= i < entries.len() && entries[i].0@ == k;
                assert(entries.drop_last()[i].0@ == k);
            }
        }
    }
}

proof fn lemma_entries_map_at<V>(entries: Seq<(String, V)>, i: int)
    requires
        entries_unique(entries),
        0 <= i < entries.len(),
    ensures
        entries_map(entries).contains_key(entries[i].0@),
        entries_map(entries)[entries[i].0@] == entries[i].1,
    decreases entries.len(),
{
    if i < entries.len() - 1 {
        assert(entries.drop_last()[i] == entries[i]);
        lemma_entries_map_at(entries.drop_last(), i);
    }
}

/// A map from strings to values, with the `Map` over character sequences as
/// its mathematical content. Backing store: entries with distinct keys, so
/// the entry count equals the map's cardinality.
pub struct StringMap<V> {
    entries: Vec<(String, V)>,
}

impl<V> StringMap<V> {
    /// Well-formed: no key occurs twice.
    pub closed spec fn wf(&self) -> bool {
        entries_unique(self.entries@)
    }

    pub closed spec fn view(&self) -> Map<Seq<char>, V> {
        entries_map(self.entries@)
    }

    /// The empty map.
    pub fn new() -> (r: StringMap<V>)
        ensures
            r.wf(),
            r@ == Map::<Seq<char>, V>::empty(),
            r@.dom().finite(),
    {
        StringMap { entries: Vec::new() }
    }

    /// Look the key up; `None` exactly when the key is absent.
    pub fn get(&self, key: &String) -> (r: Option<&V>)
        requires
            self.wf(),
        ensures
            match r {
                Option::Some(v) => self@.contains_key(key@) && *v == self@[key@],
                Option::None => !self@.contains_key(key@),
            },
    {
        let n = self.entries.len();
        let mut i: usize = 0;
        while i < n
            invariant
                n == self.entries.len(),
                0 <= i <= n,
                self.wf(),
                forall|j: int| 0 <= j < i ==> self.entries@[j].0@ != key@,
            decreases n - i,
        {
            if self.entries[i].0 == *key {
                proof {
                    lemma_entries_map_at(self.entries@, i as int);
                }
                return Option::Some(&self.entries[i].1);
            }
            i += 1;
        }
        proof {
            lemma_entries_map_contains::<V>(self.entries@, key@);
        }
        Option::None
    }

    /// Whether the key is present.
    pub fn contains(&self, key: &String) -> (r: bool)
        requires
            self.wf(),
        ensures
            r == self@.contains_key(key@),
    {
        match self.get(key) {
            Option::Some(_) => true,
            Option::None => false,
        }
    }

    /// Bind the key to the value, replacing any previous binding.
    pub fn insert(&mut self, key: String, value: V)
        requires
            old(self).wf(),
        ensures
            final(self).wf(),
            final(self)@ == old(self)@.insert(key@, value),
            final(self)@.dom().finite(),
    {
        let ghost orig = self.entries@;
        let n = self.entries.len();
        let mut i: usize = 0;
        while i < n
            invariant
                n == self.entries.len(),
                0 <= i <= n,
                self.entries@ == orig,
                orig == old(self).entries@,
                entries_unique(orig),
                forall|j: int| 0 <= j < i ==> self.entries@[j].0@ != key@,
            decreases n - i,
        {
            if self.entries[i].0 == key {
                self.entries.set(i, (key, value));
                proof {
                    lemma_entries_map_replace(orig, i as int, self.entries@[i as int]);
                    lemma_entries_map_len(self.entries@);
                }
                return;
            }
            i += 1;
        }
        self.entries.push((key, value));
        proof {
            assert(self.entries@.drop_last() == orig);
            lemma_entries_map_len(self.entries@);
        }
    }

    /// How many keys are bound.
    pub fn len(&self) -> (r: usize)
        requires
            self.wf(),
        ensures
            r == self@.len(),
    {
        proof {
            lemma_entries_map_len(self.entries@);
        }
        self.entries.len()
    }
}

proof fn lemma_entries_map_len<V>(entries: Seq<(String, V)>)
    requires
        entries_unique(entries),
    ensures
        entries_map(entries).dom().finite(),
        entries_map(entries).len() == entries.len(),
    decreases entries.len(),
{
    if entries.len() > 0 {
        lemma_entries_map_len(entries.drop_last());
        lemma_entries_map_contains::<V>(entries.drop_last(), entries.last().0@);
    }
}

proof fn lemma_entries_map_replace<V>(entries: Seq<(String, V)>, i: int, e: (String, V))
    requires
        entries_unique(entries),
        0 <= i < entries.len(),
        entries[i].0@ == e.0@,
    ensures
        entries_unique(entries.update(i, e)),
        entries_map(entries.update(i, e)) == entries_map(entries).insert(e.0@, e.1),
    decreases entries.len(),
{
    let updated = entries.update(i, e);
    assert forall|a: int, b: int| 0 <= a < b < updated.len() implies updated[a].0@
        != updated[b].0@ by {
        assert(updated[a].0@ == entries[a].0@);
        assert(updated[b].0@ == entries[b].0@);
    }
    if i == entries.len() - 1 {
        assert(updated.drop_last() == entries.drop_last());
        assert(entries_map(updated) =~= entries_map(entries).insert(e.0@, e.1));
    } else {
        assert(entries_unique(entries.drop_last())) by {
            assert forall|a: int, b: int|
                0 <= a < b < entries.drop_last().len() implies entries.drop_last()[a].0@
                != entries.drop_last()[b].0@ by {
                assert(entries.drop_last()[a] == entries[a]);
                assert(entries.drop_last()[b] == entries[b]);
            }
        }
        lemma_entries_map_replace(entries.drop_last(), i, e);
        assert(updated.drop_last() =~= entries.drop_last().update(i, e));
        assert(updated.last() == entries.last());
        assert(entries[i].0@ != entries.last().0@);
        assert(entries_map(updated) =~= entries_map(entries).insert(e.0@, e.1));
    }
}

impl<V: Copy> StringMap<V> {
    /// An independent copy with the same content.
    pub fn duplicate(&self) -> (r: StringMap<V>)
        requires
            self.wf(),
        ensures
            r.wf(),
            r@ == self@,
            r@.dom().finite(),
    {
        let n = self.entries.len();
        let mut entries: Vec<(String, V)> = Vec::new();
        let mut i: usize = 0;
        while i < n
            invariant
                n == self.entries.len(),
                0 <= i <= n,
                self.wf(),
                entries@.len() == i,
                forall|j: int|
                    0 <= j < i ==> entries@[j].0@ == self.entries@[j].0@ && entries@[j].1
                        == self.entries@[j].1,
                entries_unique(entries@),
                entries_map(entries@) == entries_map(self.entries@.take(i as int)),
            decreases n - i,
        {
            let key = self.entries[i].0.clone();
            let value = self.entries[i].1;
            let ghost prev = entries@;
            entries.push((key, value));
            proof {
                let t1 = self.entries@.take(i as int + 1);
                assert(t1.drop_last() =~= self.entries@.take(i as int));
                assert(t1.last() == self.entries@[i as int]);
                assert(entries@.drop_last() =~= prev);
                assert(entries_map(entries@) == entries_map(prev).insert(
                    entries@.last().0@,
                    entries@.last().1,
                ));
                assert(entries_map(entries@) == entries_map(t1));
            }
            i += 1;
        }
        proof {
            assert(self.entries@.take(n as int) =~= self.entries@);
            lemma_entries_map_len(entries@);
        }
        let r = StringMap { entries };
        r
    }
}

/// The nonce ledger: for each subject identifier, for each sender address,
/// the nonce last recorded for that pair.
pub type NoncesMap = StringMap<StringMap<i64>>;

/// Well-formed ledger: the outer map and every inner map keep their keys
/// distinct.
pub open spec fn nonces_wf(nonces: &NoncesMap) -> bool {
    &&& nonces.wf()
    &&& forall|k: Seq<char>| nonces@.contains_key(k) ==> (#[trigger] nonces@[k]).wf()
}

/// The mathematical content of a nonce ledger.
pub open spec fn nonces_view(nonces: &NoncesMap) -> Map<Seq<char>, Map<Seq<char>, i64>> {
    nonces@.map_values(|m: StringMap<i64>| m@)
}

/// What the nonce-ordering step decides on a ledger: the first message from
/// a new (identifier, address) pair is rejected after being registered as a
/// baseline; a nonce below the recorded one is rejected as stale; an equal
/// or greater nonce is accepted.
pub open spec fn nonce_outcome(
    ledger: Map<Seq<char>, Map<Seq<char>, i64>>,
    identifier: Seq<char>,
    address: Seq<char>,
    nonce: i64,
) -> Result<(), MessageError> {
    if !ledger.contains_key(identifier) || !ledger[identifier].contains_key(address) {
        Result::Err(MessageError::FirstObservationFromSender)
    } else if ledger[identifier][address] > nonce {
        Result::Err(MessageError::StaleNonce)
    } else {
        Result::Ok(())
    }
}

/// The ledger after the nonce-ordering step: unchanged on a stale nonce,
/// updated to the message's nonce otherwise (registration on first
/// observation included).
pub open spec fn nonce_next(
    ledger: Map<Seq<char>, Map<Seq<char>, i64>>,
    identifier: Seq<char>,
    address: Seq<char>,
    nonce: i64,
) -> Map<Seq<char>, Map<Seq<char>, i64>> {
    if !ledger.contains_key(identifier) {
        ledger.insert(identifier, Map::empty().insert(address, nonce))
    } else if ledger[identifier].contains_key(address) && ledger[identifier][address] > nonce {
        ledger
    } else {
        ledger.insert(identifier, ledger[identifier].insert(address, nonce))
    }
}

/// Prepare the sender-to-nonce map with one binding updated.
pub fn prepare_nonces(nonces_per_subgraph: &StringMap<i64>, address: String, nonce: i64) -> (r:
    StringMap<i64>)
    requires
        nonces_per_subgraph.wf(),
    ensures
        r.wf(),
        r@ == nonces_per_subgraph@.insert(address@, nonce),
        r@.dom().finite(),
        nonces_per_subgraph@.contains_key(address@) ==> r@.len() == nonces_per_subgraph@.len(),
        !nonces_per_subgraph@.contains_key(address@) ==> r@.len() == nonces_per_subgraph@.len()
            + 1,
{
    let mut updated_nonces = nonces_per_subgraph.duplicate();
    updated_nonces.insert(address, nonce);
    proof {
        assert(updated_nonces@.dom() =~= nonces_per_subgraph@.dom().insert(address@));
    }
    updated_nonces
}

/// The read-decide-write of the nonce-ordering step, indivisible with
/// respect to the ledger value it is given: callers that share a ledger
/// serialize calls to it.
pub fn check_and_update(
    nonces: &mut NoncesMap,
    identifier: &String,
    address: &String,
    nonce: i64,
) -> (r: Result<(), MessageError>)
    requires
        nonces_wf(old(nonces)),
    ensures
        nonces_wf(final(nonces)),
        r == nonce_outcome(nonces_view(old(nonces)), identifier@, address@, nonce),
        nonces_view(final(nonces)) == nonce_next(
            nonces_view(old(nonces)),
            identifier@,
            address@,
            nonce,
        ),
{
    let ghost v0 = nonces_view(old(nonces));
    proof {
        assert(v0.dom() == old(nonces)@.dom());
    }
    match nonces.get(identifier) {
        Option::Some(nonces_per_subgraph) => {
            proof {
                assert(v0[identifier@] == nonces_per_subgraph@);
            }
            match nonces_per_subgraph.get(address) {
                Option::Some(recorded) => {
                    if *recorded > nonce {
                        Result::Err(MessageError::StaleNonce)
                    } else {
                        let updated = prepare_nonces(nonces_per_subgraph, address.clone(), nonce);
                        nonces.insert(identifier.clone(), updated);
                        proof {
                            assert(nonces_view(nonces) =~= nonce_next(
                                v0,
                                identifier@,
                                address@,
                                nonce,
                            ));
                        }
                        Result::Ok(())
                    }
                },
                Option::None => {
                    let updated = prepare_nonces(nonces_per_subgraph, address.clone(), nonce);
                    nonces.insert(identifier.clone(), updated);
                    proof {
                        assert(nonces_view(nonces) =~= nonce_next(v0, identifier@, address@, nonce));
                    }
                    Result::Err(MessageError::FirstObservationFromSender)
                },
            }
        },
        Option::None => {
            let empty: StringMap<i64> = StringMap::new();
            let updated = prepare_nonces(&empty, address.clone(), nonce);
            nonces.insert(identifier.clone(), updated);
            proof {
                assert(updated@ =~= Map::empty().insert(address@, nonce));
                assert(nonces_view(nonces) =~= nonce_next(v0, identifier@, address@, nonce));
            }
            Result::Err(MessageError::FirstObservationFromSender)
        },
    }
}

/// The set of transport message ids already handled. Insertion happens when
/// a message is first seen, whatever later validation decides, and nothing
/// is ever removed for the life of the process.
pub struct DedupLedger {
    ids: Vec<String>,
}

impl DedupLedger {
    pub closed spec fn view(&self) -> Set<Seq<char>> {
        self.ids@.map_values(|s: String| s@).to_set()
    }

    /// The empty ledger.
    pub fn new() -> (r: DedupLedger)
        ensures
            r@ == Set::<Seq<char>>::empty(),
    {
        let r = DedupLedger { ids: Vec::new() };
        proof {
            assert(r@ =~= Set::<Seq<char>>::empty());
        }
        r
    }

    /// Whether this transport message id was already handled.
    pub fn seen(&self, message_id: &String) -> (r: bool)
        ensures
            r == self@.contains(message_id@),
    {
        let n = self.ids.len();
        let mut i: usize = 0;
        while i < n
            invariant
                n == self.ids.len(),
                0 <= i <= n,
                forall|j: int| 0 <= j < i ==> self.ids@[j]@ != message_id@,
            decreases n - i,
        {
            if self.ids[i] == *message_id {
                proof {
                    let m = self.ids@.map_values(|s: String| s@);
                    assert(m[i as int] == message_id@);
                }
                return true;
            }
            i += 1;
        }
        proof {
            let m = self.ids@.map_values(|s: String| s@);
            if self@.contains(message_id@) {
                let j = choose|j: int| 0 <= j < m.len() && m[j] == message_id@;
                assert(self.ids@[j]@ == message_id@);
            }
        }
        false
    }

    /// Record the id as handled.
    pub fn mark_seen(&mut self, message_id: String)
        ensures
            final(self)@ == old(self)@.insert(message_id@),
    {
        self.ids.push(message_id);
        proof {
            let m0 = old(self).ids@.map_values(|s: String| s@);
            let m1 = self.ids@.map_values(|s: String| s@);
            assert(m1 == m0.push(m1.last()));
            assert(m1.drop_last() == m0);
            assert(final(self)@ =~= old(self)@.insert(m1.last()));
        }
    }
}

} // verus!
