use vstd::prelude::*;
use vstd::string::*;

verus! {

/// The keys of a list of entries, in order.
pub open spec fn keys_of(entries: Seq<(Seq<char>, Seq<char>)>) -> Seq<Seq<char>> {
    entries.map_values(|e: (Seq<char>, Seq<char>)| e.0)
}

/// The mapping that a list of entries with distinct keys stands for.
pub open spec fn entries_map(entries: Seq<(Seq<char>, Seq<char>)>) -> Map<Seq<char>, Seq<char>> {
    Map::new(
        |k: Seq<char>| keys_of(entries).contains(k),
        |k: Seq<char>| entries[keys_of(entries).index_of(k)].1,
    )
}

/// A list of entries after one is set: the value takes the place of the
/// old one where the key is present, else the entry goes to the end.
pub open spec fn entries_with(
    entries: Seq<(Seq<char>, Seq<char>)>,
    key: Seq<char>,
    value: Seq<char>,
) -> Seq<(Seq<char>, Seq<char>)> {
    if keys_of(entries).contains(key) {
        entries.update(keys_of(entries).index_of(key), (key, value))
    } else {
        entries.push((key, value))
    }
}

/// In a list with distinct keys, each entry's key maps to that entry's value.
pub proof fn lemma_entries_map_at(entries: Seq<(Seq<char>, Seq<char>)>, i: int)
    requires
        keys_of(entries).no_duplicates(),
        0 <= i < entries.len(),
    ensures
        entries_map(entries).contains_key(entries[i].0),
        entries_map(entries)[entries[i].0] == entries[i].1,
{
    let keys = keys_of(entries);
    assert(keys[i] == entries[i].0);
    let j = keys.index_of(entries[i].0);
    assert(keys[j] == keys[i]);
}

/// The mapping of a list of entries has finitely many keys.
pub proof fn lemma_entries_map_finite(entries: Seq<(Seq<char>, Seq<char>)>)
    ensures
        entries_map(entries).dom().finite(),
        entries_map(entries).dom() == keys_of(entries).to_set(),
{
    let keys = keys_of(entries);
    vstd::seq_lib::seq_to_set_is_finite(keys);
    assert(entries_map(entries).dom() =~= keys.to_set());
}

/// Entry lists that hold the same entries in another order stand for the
/// same mapping.
pub proof fn lemma_reordering_keeps_map(
    first: Seq<(Seq<char>, Seq<char>)>,
    second: Seq<(Seq<char>, Seq<char>)>,
)
    requires
        keys_of(first).no_duplicates(),
        keys_of(second).no_duplicates(),
        first.to_multiset() == second.to_multiset(),
    ensures
        entries_map(first) == entries_map(second),
{
    first.to_multiset_ensures();
    second.to_multiset_ensures();
    assert forall|k: Seq<char>| #[trigger]
        entries_map(first).contains_key(k) implies entries_map(second).contains_key(k)
        && entries_map(second)[k] == entries_map(first)[k] by {
        let i = keys_of(first).index_of(k);
        assert(keys_of(first)[i] == k);
        assert(first.contains(first[i]));
        assert(first.to_multiset().count(first[i]) > 0);
        assert(second.to_multiset().count(first[i]) > 0);
        assert(second.contains(first[i]));
        let j = second.index_of(first[i]);
        lemma_entries_map_at(first, i);
        lemma_entries_map_at(second, j);
    }
    assert forall|k: Seq<char>| #[trigger]
        entries_map(second).contains_key(k) implies entries_map(first).contains_key(k) by {
        let j = keys_of(second).index_of(k);
        assert(keys_of(second)[j] == k);
        assert(second.contains(second[j]));
        assert(second.to_multiset().count(second[j]) > 0);
        assert(first.to_multiset().count(second[j]) > 0);
        assert(first.contains(second[j]));
        let i = first.index_of(second[j]);
        lemma_entries_map_at(first, i);
    }
    assert(entries_map(first) =~= entries_map(second));
}

/// The fields of a form-encoded request: a mapping from field name to
/// value. No name occurs twice.
#[derive(Debug, Clone)]
pub struct FormParams {
    entries: Vec<(String, String)>,
}

impl View for FormParams {
    type V = Map<Seq<char>, Seq<char>>;

    open spec fn view(&self) -> Map<Seq<char>, Seq<char>> {
        entries_map(self.entries())
    }
}

impl FormParams {
    /// The fields in the order in which they are stored.
    pub closed spec fn entries(&self) -> Seq<(Seq<char>, Seq<char>)> {
        self.entries.deep_view()
    }

    /// Whether no field name occurs twice.
    pub open spec fn wf(&self) -> bool {
        keys_of(self.entries()).no_duplicates()
    }

    /// A form without fields.
    pub fn new() -> (form: Self)
        ensures
            form.wf(),
            form.entries() == Seq::<(Seq<char>, Seq<char>)>::empty(),
            form@ == Map::<Seq<char>, Seq<char>>::empty(),
    {
        let form = FormParams { entries: Vec::new() };
        assert(form.entries() =~= Seq::<(Seq<char>, Seq<char>)>::empty());
        assert(form@ =~= Map::<Seq<char>, Seq<char>>::empty());
        form
    }

    /// The number of fields.
    pub fn len(&self) -> (n: usize)
        requires
            self.wf(),
        ensures
            n == self.entries().len(),
            n == self@.dom().len(),
    {
        proof {
            lemma_entries_map_finite(self.entries());
            keys_of(self.entries()).unique_seq_to_set();
        }
        self.entries.len()
    }

    /// The name of the field stored at `index`.
    pub fn key_at(&self, index: usize) -> (key: &String)
        requires
            index < self.entries().len(),
        ensures
            key@ == self.entries()[index as int].0,
    {
        &self.entries[index].0
    }

    /// The value of the field stored at `index`.
    pub fn value_at(&self, index: usize) -> (value: &String)
        requires
            index < self.entries().len(),
        ensures
            value@ == self.entries()[index as int].1,
    {
        &self.entries[index].1
    }

    fn position(&self, key: &String) -> (found: Option<usize>)
        ensures
            match found {
                Some(i) => i < self.entries().len() && self.entries()[i as int].0 == key@,
                None => !keys_of(self.entries()).contains(key@),
            },
    {
        let n = self.entries.len();
        let mut i: usize = 0;
        while i < n
            invariant
                n == self.entries.len(),
                i <= n,
                forall|k: int| 0 <= k < i ==> (#[trigger] self.entries()[k]).0 != key@,
            decreases n - i,
        {
            if self.entries[i].0 == *key {
                return Some(i);
            }
            i += 1;
        }
        assert forall|k: int| 0 <= k < keys_of(self.entries()).len() implies keys_of(
            self.entries(),
        )[k] != key@ by {
            assert(self.entries()[k].0 != key@);
        }
        None
    }

    /// The value of the field named `key`, if there is one.
    pub fn get(&self, key: &str) -> (value: Option<&String>)
        requires
            self.wf(),
        ensures
            match value {
                Some(v) => self@.contains_key(key@) && v@ == self@[key@],
                None => !self@.contains_key(key@),
            },
    {
        let owned = String::from_str(key);
        match self.position(&owned) {
            Some(i) => {
                proof {
                    lemma_entries_map_at(self.entries(), i as int);
                }
                Some(&self.entries[i].1)
            },
            None => None,
        }
    }

    /// Whether a field named `key` is present.
    pub fn contains_key(&self, key: &str) -> (present: bool)
        requires
            self.wf(),
        ensures
            present == self@.contains_key(key@),
    {
        self.get(key).is_some()
    }

    /// Sets the field named `key` to `value`, replacing the value of a
    /// field of that name if there is one.
    pub fn insert(&mut self, key: String, value: String)
        requires
            old(self).wf(),
        ensures
            final(self).wf(),
            final(self)@ == old(self)@.insert(key@, value@),
            final(self).entries() == entries_with(old(self).entries(), key@, value@),
    {
        let ghost before = self.entries();
        match self.position(&key) {
            Some(i) => {
                self.entries.set(i, (key, value));
                let ghost after = self.entries();
                assert(after =~= before.update(i as int, (key@, value@)));
                assert(keys_of(after) =~= keys_of(before));
                assert(keys_of(before)[i as int] == key@);
                assert(keys_of(before).index_of(key@) == i);
                assert forall|k: Seq<char>| #[trigger]
                    entries_map(before).insert(key@, value@).contains_key(k) implies entries_map(
                    after,
                ).contains_key(k) && entries_map(after)[k] == entries_map(before).insert(
                    key@,
                    value@,
                )[k] by {
                    if k == key@ {
                        lemma_entries_map_at(after, i as int);
                    } else {
                        let j = keys_of(before).index_of(k);
                        assert(keys_of(before)[j] == k);
                        lemma_entries_map_at(after, j);
                        lemma_entries_map_at(before, j);
                    }
                }
                assert forall|k: Seq<char>| #[trigger]
                    entries_map(after).contains_key(k) implies entries_map(before).insert(
                    key@,
                    value@,
                ).contains_key(k) by {
                    assert(keys_of(before).contains(k));
                }
                assert(entries_map(after) =~= entries_map(before).insert(key@, value@));
            },
            None => {
                self.entries.push((key, value));
                let ghost after = self.entries();
                assert(after =~= before.push((key@, value@)));
                assert(keys_of(after) =~= keys_of(before).push(key@));
                assert(keys_of(after).no_duplicates()) by {
                    assert forall|a: int, b: int|
                        0 <= a < keys_of(after).len() && 0 <= b < keys_of(after).len() && a
                            != b implies keys_of(after)[a] != keys_of(after)[b] by {
                        if a < keys_of(before).len() && b < keys_of(before).len() {
                            assert(keys_of(before)[a] != keys_of(before)[b]);
                        } else if a < keys_of(before).len() {
                            assert(keys_of(before).contains(keys_of(before)[a]));
                        } else {
                            assert(keys_of(before).contains(keys_of(before)[b]));
                        }
                    }
                }
                assert forall|k: Seq<char>| #[trigger]
                    entries_map(before).insert(key@, value@).contains_key(k) implies entries_map(
                    after,
                ).contains_key(k) && entries_map(after)[k] == entries_map(before).insert(
                    key@,
                    value@,
                )[k] by {
                    if k == key@ {
                        lemma_entries_map_at(after, before.len() as int);
                    } else {
                        let j = keys_of(before).index_of(k);
                        assert(keys_of(before)[j] == k);
                        lemma_entries_map_at(after, j);
                        lemma_entries_map_at(before, j);
                    }
                }
                assert forall|k: Seq<char>| #[trigger]
                    entries_map(after).contains_key(k) implies entries_map(before).insert(
                    key@,
                    value@,
                ).contains_key(k) by {
                    let j = keys_of(after).index_of(k);
                    assert(keys_of(after)[j] == k);
                    if j < keys_of(before).len() {
                        assert(keys_of(before)[j] == k);
                    }
                }
                assert(entries_map(after) =~= entries_map(before).insert(key@, value@));
            },
        }
    }
}

} // verus!
