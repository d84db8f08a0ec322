//! Two small collections keyed by strings and kept in the order of strings:
//! a set of identifiers and a map from identifiers to texts. Each holds
//! its keys in a vector that is strictly increasing, so that the same
//! contents are always held, and walked, in the same way.

use crate::text::{lemma_text_order, rank, text_before, texts, Rank};
use vstd::prelude::*;

verus! {

/// Whether each key stands before all that follow it.
pub open spec fn strictly_increasing(keys: Seq<Seq<char>>) -> bool {
    forall|i: int, j: int|
        0 <= i < j < keys.len() ==> text_before(#[trigger] keys[i], #[trigger] keys[j])
}

/// The map that holds `values[i]` under `keys[i]`.
pub open spec fn entries_map(keys: Seq<Seq<char>>, values: Seq<Seq<char>>) -> Map<
    Seq<char>,
    Seq<char>,
> {
    Map::new(|k: Seq<char>| keys.contains(k), |k: Seq<char>| values[keys.index_of(k)])
}

/// In a strictly increasing row no key occurs twice.
pub proof fn lemma_increasing_distinct(keys: Seq<Seq<char>>, i: int, j: int)
    requires
        strictly_increasing(keys),
        0 <= i < keys.len(),
        0 <= j < keys.len(),
        keys[i] == keys[j],
    ensures
        i == j,
{
    lemma_text_order(keys[i], keys[j], keys[j]);
}

/// A strictly increasing row has as many keys as the set of its keys.
pub proof fn lemma_increasing_len(keys: Seq<Seq<char>>)
    requires
        strictly_increasing(keys),
    ensures
        keys.no_duplicates(),
        keys.to_set().finite(),
        keys.to_set().len() == keys.len(),
{
    assert forall|i: int, j: int| 0 <= i < keys.len() && 0 <= j < keys.len() && i != j implies keys[i]
        != keys[j] by {
        if keys[i] == keys[j] {
            lemma_increasing_distinct(keys, i, j);
        }
    }
    keys.unique_seq_to_set();
}

/// Two strictly increasing rows with the same keys are the same row.
pub proof fn lemma_increasing_unique(a: Seq<Seq<char>>, b: Seq<Seq<char>>)
    requires
        strictly_increasing(a),
        strictly_increasing(b),
        a.to_set() == b.to_set(),
    ensures
        a == b,
    decreases a.len(),
{
    if a.len() == 0 {
        if b.len() > 0 {
            assert(b.to_set().contains(b[0]));
        }
    } else {
        assert(a.to_set().contains(a[0]));
        assert(b.to_set().contains(b[0]));
        lemma_text_order(b[0], a[0], b[0]);
        let ta = a.drop_first();
        let tb = b.drop_first();
        assert(strictly_increasing(ta)) by {
            assert forall|i: int, j: int| 0 <= i < j < ta.len() implies text_before(
                #[trigger] ta[i],
                #[trigger] ta[j],
            ) by {}
        }
        assert(strictly_increasing(tb)) by {
            assert forall|i: int, j: int| 0 <= i < j < tb.len() implies text_before(
                #[trigger] tb[i],
                #[trigger] tb[j],
            ) by {}
        }
        assert forall|x: Seq<char>| ta.contains(x) <==> tb.contains(x) by {
            if ta.contains(x) {
                let i = choose|i: int| 0 <= i < ta.len() && ta[i] == x;
                assert(a.to_set().contains(x));
                let j = choose|j: int| 0 <= j < b.len() && b[j] == x;
                if j == 0 {
                    lemma_increasing_distinct(a, 0, i + 1);
                }
                assert(tb[j - 1] == x);
            }
            if tb.contains(x) {
                let i = choose|i: int| 0 <= i < tb.len() && tb[i] == x;
                assert(b.to_set().contains(x));
                let j = choose|j: int| 0 <= j < a.len() && a[j] == x;
                if j == 0 {
                    lemma_increasing_distinct(b, 0, i + 1);
                }
                assert(ta[j - 1] == x);
            }
        }
        assert(ta.to_set() =~= tb.to_set());
        lemma_increasing_unique(ta, tb);
        assert(a =~= seq![a[0]] + ta);
    }
}

/// A key put between the keys before it and the keys after it keeps the
/// row increasing, and adds that key alone.
pub proof fn lemma_insert_keeps_order(keys: Seq<Seq<char>>, pos: int, key: Seq<char>)
    requires
        strictly_increasing(keys),
        0 <= pos <= keys.len(),
        forall|i: int| 0 <= i < pos ==> text_before(#[trigger] keys[i], key),
        forall|i: int| pos <= i < keys.len() ==> text_before(key, #[trigger] keys[i]),
    ensures
        strictly_increasing(keys.insert(pos, key)),
        keys.insert(pos, key).to_set() == keys.to_set().insert(key),
        !keys.contains(key),
{
    let put = keys.insert(pos, key);
    assert forall|i: int, j: int| 0 <= i < j < put.len() implies text_before(
        #[trigger] put[i],
        #[trigger] put[j],
    ) by {}
    assert forall|x: Seq<char>| put.contains(x) <==> (keys.contains(x) || x == key) by {
        if keys.contains(x) {
            let i = choose|i: int| 0 <= i < keys.len() && keys[i] == x;
            if i < pos {
                assert(put[i] == x);
            } else {
                assert(put[i + 1] == x);
            }
        }
        if x == key {
            assert(put[pos] == x);
        }
    }
    if keys.contains(key) {
        lemma_text_order(key, key, key);
    }
}

/// A row without one of its keys is still increasing, and lacks that key
/// alone.
pub proof fn lemma_remove_keeps_order(keys: Seq<Seq<char>>, pos: int)
    requires
        strictly_increasing(keys),
        0 <= pos < keys.len(),
    ensures
        strictly_increasing(keys.remove(pos)),
        keys.remove(pos).to_set() == keys.to_set().remove(keys[pos]),
{
    let cut = keys.remove(pos);
    assert forall|i: int, j: int| 0 <= i < j < cut.len() implies text_before(
        #[trigger] cut[i],
        #[trigger] cut[j],
    ) by {}
    assert forall|x: Seq<char>| cut.contains(x) <==> (keys.contains(x) && x != keys[pos]) by {
        if cut.contains(x) {
            let i = choose|i: int| 0 <= i < cut.len() && cut[i] == x;
            if i < pos {
                if x == keys[pos] {
                    lemma_increasing_distinct(keys, i, pos);
                }
            } else {
                if x == keys[pos] {
                    lemma_increasing_distinct(keys, i + 1, pos);
                }
            }
        }
        if keys.contains(x) && x != keys[pos] {
            let i = choose|i: int| 0 <= i < keys.len() && keys[i] == x;
            if i < pos {
                assert(cut[i] == x);
            } else {
                assert(cut[i - 1] == x);
            }
        }
    }
}

/// In the map of an increasing row, the value under `keys[i]` is
/// `values[i]`.
pub proof fn lemma_entries_at(keys: Seq<Seq<char>>, values: Seq<Seq<char>>, i: int)
    requires
        strictly_increasing(keys),
        0 <= i < keys.len(),
    ensures
        entries_map(keys, values).dom().contains(keys[i]),
        entries_map(keys, values)[keys[i]] == values[i],
{
    let j = keys.index_of(keys[i]);
    lemma_increasing_distinct(keys, i, j);
}

/// Finds where `key` is, or where it belongs, in an increasing row.
pub(crate) fn locate(keys: &Vec<String>, key: &str) -> (found: (usize, bool))
    requires
        strictly_increasing(texts(keys@)),
    ensures
        found.0 <= keys.len(),
        forall|i: int| 0 <= i < found.0 ==> text_before(#[trigger] texts(keys@)[i], key@),
        found.1 ==> found.0 < keys.len() && texts(keys@)[found.0 as int] == key@,
        !found.1 ==> forall|i: int|
            found.0 <= i < keys.len() ==> text_before(key@, #[trigger] texts(keys@)[i]),
        found.1 == texts(keys@).contains(key@),
{
    let ghost row = texts(keys@);
    let mut i: usize = 0;
    while i < keys.len()
        invariant
            i <= keys.len(),
            row == texts(keys@),
            strictly_increasing(row),
            forall|k: int| 0 <= k < i ==> text_before(#[trigger] row[k], key@),
        decreases keys.len() - i,
    {
        match rank(keys[i].as_str(), key) {
            Rank::Before => {},
            Rank::Same => {
                return (i, true);
            },
            Rank::After => {
                proof {
                    lemma_text_order(key@, row[i as int], row[i as int]);
                    assert forall|k: int| i <= k < keys.len() implies text_before(
                        key@,
                        #[trigger] row[k],
                    ) by {
                        lemma_text_order(key@, row[i as int], row[k]);
                    }
                    lemma_absent(row, i as int, key@);
                }
                return (i, false);
            },
        }
        i += 1;
    }
    proof {
        lemma_absent(row, i as int, key@);
    }
    (i, false)
}

proof fn lemma_absent(row: Seq<Seq<char>>, pos: int, key: Seq<char>)
    requires
        0 <= pos <= row.len(),
        forall|i: int| 0 <= i < pos ==> text_before(#[trigger] row[i], key),
        forall|i: int| pos <= i < row.len() ==> text_before(key, #[trigger] row[i]),
    ensures
        !row.contains(key),
{
    if row.contains(key) {
        lemma_text_order(key, key, key);
    }
}

/// A copy of a row of strings.
fn copy_strings(strings: &Vec<String>) -> (copy: Vec<String>)
    ensures
        texts(copy@) == texts(strings@),
{
    let mut copy: Vec<String> = Vec::new();
    let mut i: usize = 0;
    while i < strings.len()
        invariant
            i <= strings.len(),
            copy.len() == i,
            forall|k: int| 0 <= k < i ==> (#[trigger] copy@[k])@ == strings@[k]@,
        decreases strings.len() - i,
    {
        copy.push(strings[i].clone());
        i += 1;
    }
    copy
}

/// Whether two rows of strings hold the same texts.
fn same_strings(a: &Vec<String>, b: &Vec<String>) -> (same: bool)
    ensures
        same == (texts(a@) == texts(b@)),
{
    if a.len() != b.len() {
        return false;
    }
    let mut i: usize = 0;
    while i < a.len()
        invariant
            i <= a.len(),
            a.len() == b.len(),
            forall|k: int| 0 <= k < i ==> (#[trigger] a@[k])@ == b@[k]@,
        decreases a.len() - i,
    {
        if a[i] != b[i] {
            assert(texts(a@)[i as int] != texts(b@)[i as int]);
            return false;
        }
        i += 1;
    }
    assert(texts(a@) =~= texts(b@));
    true
}

/// A set of identifiers, held in the order of strings.
#[derive(Debug)]
pub struct IdSet {
    ids: Vec<String>,
}

impl View for IdSet {
    type V = Seq<Seq<char>>;

    /// The members, in the order of strings.
    closed spec fn view(&self) -> Seq<Seq<char>> {
        texts(self.ids@)
    }
}

impl IdSet {
    /// The members are held in increasing order, each once.
    pub open spec fn wf(&self) -> bool {
        strictly_increasing(self@)
    }

    /// The empty set.
    pub fn new() -> (set: IdSet)
        ensures
            set.wf(),
            set@.len() == 0,
    {
        IdSet { ids: Vec::new() }
    }

    /// The number of members.
    pub fn len(&self) -> (n: usize)
        ensures
            n == self@.len(),
    {
        self.ids.len()
    }

    /// Whether `id` is a member.
    pub fn contains(&self, id: &str) -> (present: bool)
        requires
            self.wf(),
        ensures
            present == self@.contains(id@),
    {
        locate(&self.ids, id).1
    }

    /// The member at place `index` in the order of strings.
    pub fn get(&self, index: usize) -> (id: &String)
        requires
            index < self@.len(),
        ensures
            id@ == self@[index as int],
    {
        &self.ids[index]
    }

    /// Adds `id`. Says whether it was new.
    pub fn insert(&mut self, id: &str) -> (added: bool)
        requires
            old(self).wf(),
        ensures
            final(self).wf(),
            final(self)@.to_set() == old(self)@.to_set().insert(id@),
            added == !old(self)@.contains(id@),
            final(self)@.len() == old(self)@.len() + if added {
                1int
            } else {
                0int
            },
    {
        let (pos, found) = locate(&self.ids, id);
        if found {
            return false;
        }
        proof {
            lemma_insert_keeps_order(self@, pos as int, id@);
        }
        let ghost before = self@;
        self.ids.insert(pos, String::from_str(id));
        assert(self@ =~= before.insert(pos as int, id@));
        true
    }

    /// Takes `id` out. Says whether it was a member.
    pub fn remove(&mut self, id: &str) -> (removed: bool)
        requires
            old(self).wf(),
        ensures
            final(self).wf(),
            final(self)@.to_set() == old(self)@.to_set().remove(id@),
            removed == old(self)@.contains(id@),
            final(self)@.len() == old(self)@.len() - if removed {
                1int
            } else {
                0int
            },
    {
        let (pos, found) = locate(&self.ids, id);
        if !found {
            return false;
        }
        proof {
            lemma_remove_keeps_order(self@, pos as int);
        }
        let ghost before = self@;
        self.ids.remove(pos);
        assert(self@ =~= before.remove(pos as int));
        true
    }

    /// Whether the two sets have the same members.
    pub fn same_as(&self, other: &IdSet) -> (same: bool)
        ensures
            same == (self@ == other@),
    {
        same_strings(&self.ids, &other.ids)
    }

    /// A copy of the set.
    pub fn duplicate(&self) -> (copy: IdSet)
        ensures
            copy@ == self@,
    {
        IdSet { ids: copy_strings(&self.ids) }
    }
}

/// A map from identifiers to texts, held in the order of its keys.
#[derive(Debug)]
pub struct BlobMap {
    keys: Vec<String>,
    values: Vec<String>,
}

impl View for BlobMap {
    type V = Map<Seq<char>, Seq<char>>;

    /// The text held under each key.
    open spec fn view(&self) -> Map<Seq<char>, Seq<char>> {
        entries_map(self.keys(), self.values())
    }
}

impl BlobMap {
    /// The keys, in the order of strings.
    pub closed spec fn keys(&self) -> Seq<Seq<char>> {
        texts(self.keys@)
    }

    /// The texts, each at the place of its key.
    pub closed spec fn values(&self) -> Seq<Seq<char>> {
        texts(self.values@)
    }

    /// The keys are held in increasing order, each once and with one text.
    pub open spec fn wf(&self) -> bool {
        &&& strictly_increasing(self.keys())
        &&& self.keys().len() == self.values().len()
    }

    /// The empty map.
    pub fn new() -> (map: BlobMap)
        ensures
            map.wf(),
            map.keys().len() == 0,
            map@ == Map::<Seq<char>, Seq<char>>::empty(),
    {
        BlobMap { keys: Vec::new(), values: Vec::new() }
    }

    /// The number of entries.
    pub fn len(&self) -> (n: usize)
        ensures
            n == self.keys().len(),
    {
        self.keys.len()
    }

    /// The key at place `index` in the order of strings.
    pub fn key_at(&self, index: usize) -> (key: &String)
        requires
            index < self.keys().len(),
        ensures
            key@ == self.keys()[index as int],
    {
        &self.keys[index]
    }

    /// The text at place `index` in the order of the keys.
    pub fn value_at(&self, index: usize) -> (value: &String)
        requires
            self.wf(),
            index < self.keys().len(),
        ensures
            value@ == self.values()[index as int],
            value@ == self@[self.keys()[index as int]],
    {
        proof {
            lemma_entries_at(self.keys(), self.values(), index as int);
        }
        &self.values[index]
    }

    /// The text held under `key`, if there is one.
    pub fn get(&self, key: &str) -> (value: Option<&String>)
        requires
            self.wf(),
        ensures
            match value {
                Some(v) => self@.dom().contains(key@) && v@ == self@[key@],
                None => !self@.dom().contains(key@),
            },
    {
        let (pos, found) = locate(&self.keys, key);
        if found {
            proof {
                lemma_entries_at(self.keys(), self.values(), pos as int);
            }
            Some(&self.values[pos])
        } else {
            None
        }
    }

    /// Puts `value` under `key`. Returns the text that was there before.
    pub fn insert(&mut self, key: &str, value: String) -> (previous: Option<String>)
        requires
            old(self).wf(),
        ensures
            final(self).wf(),
            final(self)@ == old(self)@.insert(key@, value@),
            match previous {
                Some(v) => old(self)@.dom().contains(key@) && v@ == old(self)@[key@],
                None => !old(self)@.dom().contains(key@),
            },
    {
        let (pos, found) = locate(&self.keys, key);
        let ghost keys0 = self.keys();
        let ghost values0 = self.values();
        let ghost before = self@;
        if found {
            proof {
                lemma_entries_at(keys0, values0, pos as int);
            }
            let mut slot = value;
            let ghost put = slot@;
            self.values.push(slot);
            let taken = self.values.swap_remove(pos);
            assert(self@ =~= before.insert(key@, put)) by {
                let values1 = self.values();
                assert forall|k: Seq<char>| keys0.contains(k) implies #[trigger] entries_map(
                    keys0,
                    values1,
                )[k] == before.insert(key@, put)[k] by {
                    let i = keys0.index_of(k);
                    if k == key@ {
                        lemma_increasing_distinct(keys0, i, pos as int);
                    }
                }
            }
            Some(taken)
        } else {
            proof {
                lemma_insert_keeps_order(keys0, pos as int, key@);
            }
            self.keys.insert(pos, String::from_str(key));
            self.values.insert(pos, value);
            assert(self.keys() =~= keys0.insert(pos as int, key@));
            assert(self@ =~= before.insert(key@, value@)) by {
                let keys1 = self.keys();
                let values1 = self.values();
                assert forall|k: Seq<char>| keys1.contains(k) implies #[trigger] entries_map(
                    keys1,
                    values1,
                )[k] == before.insert(key@, value@)[k] by {
                    let i = keys1.index_of(k);
                    lemma_entries_at(keys1, values1, i);
                    if i < pos {
                        lemma_entries_at(keys0, values0, i);
                    } else if i > pos {
                        lemma_entries_at(keys0, values0, i - 1);
                    }
                }
                assert forall|k: Seq<char>|
                    entries_map(keys1, values1).dom().contains(k) <==> before.insert(
                        key@,
                        value@,
                    ).dom().contains(k) by {}
            }
            None
        }
    }

    /// Whether the two maps hold the same texts under the same keys.
    pub fn same_as(&self, other: &BlobMap) -> (same: bool)
        requires
            self.wf(),
            other.wf(),
        ensures
            same == (self@ == other@),
    {
        let same = same_strings(&self.keys, &other.keys) && same_strings(
            &self.values,
            &other.values,
        );
        proof {
            if self@ == other@ {
                lemma_same_map(self.keys(), self.values(), other.keys(), other.values());
            }
        }
        same
    }

    /// A copy of the map.
    pub fn duplicate(&self) -> (copy: BlobMap)
        ensures
            copy.keys() == self.keys(),
            copy.values() == self.values(),
            copy@ == self@,
    {
        BlobMap { keys: copy_strings(&self.keys), values: copy_strings(&self.values) }
    }
}

/// Two increasing rows of keys with their values that make the same map are
/// the same rows.
pub proof fn lemma_same_map(
    keys_a: Seq<Seq<char>>,
    values_a: Seq<Seq<char>>,
    keys_b: Seq<Seq<char>>,
    values_b: Seq<Seq<char>>,
)
    requires
        strictly_increasing(keys_a),
        strictly_increasing(keys_b),
        keys_a.len() == values_a.len(),
        keys_b.len() == values_b.len(),
        entries_map(keys_a, values_a) == entries_map(keys_b, values_b),
    ensures
        keys_a == keys_b,
        values_a == values_b,
{
    let ma = entries_map(keys_a, values_a);
    assert forall|k: Seq<char>| keys_a.contains(k) <==> keys_b.contains(k) by {
        assert(ma.dom().contains(k) <==> keys_a.contains(k));
    }
    assert(keys_a.to_set() =~= keys_b.to_set());
    lemma_increasing_unique(keys_a, keys_b);
    assert forall|i: int| 0 <= i < values_a.len() implies values_a[i] == values_b[i] by {
        lemma_entries_at(keys_a, values_a, i);
        lemma_entries_at(keys_b, values_b, i);
    }
}

} // verus!
