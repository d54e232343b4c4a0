use vstd::prelude::*;

verus! {

/// A stored entry that knows the key it is filed under.
pub trait Keyed: View + Sized {
    /// The executable key used to look an entry up.
    type Key;

    /// The mathematical key.
    type K;

    /// The mathematical key that an executable key stands for.
    spec fn key_model(key: &Self::Key) -> Self::K;

    /// The key under which an entry is filed.
    spec fn key_of(entry: Self::V) -> Self::K;

    /// Whether this entry is filed under `key`.
    fn has_key(&self, key: &Self::Key) -> (r: bool)
        ensures
            r == (Self::key_of(self@) == Self::key_model(key)),
    ;

    /// Whether this entry and `other` are filed under the same key.
    fn same_key(&self, other: &Self) -> (r: bool)
        ensures
            r == (Self::key_of(self@) == Self::key_of(other@)),
    ;
}

/// The map that a sequence of entries with distinct keys stands for.
spec fn table_map<E: Keyed>(entries: Seq<E>) -> Map<E::K, E::V> {
    Map::new(
        |k: E::K| exists|i: int| 0 <= i < entries.len() && E::key_of(#[trigger] entries[i]@) == k,
        |k: E::K|
            entries[choose|i: int|
                0 <= i < entries.len() && E::key_of(#[trigger] entries[i]@) == k]@,
    )
}

/// No two entries of the sequence are filed under the same key.
pub open spec fn distinct_keys<E: Keyed>(entries: Seq<E>) -> bool {
    forall|i: int, j: int|
        0 <= i < j < entries.len() ==> E::key_of(#[trigger] entries[i]@) != E::key_of(
            #[trigger] entries[j]@,
        )
}

/// Each entry of a sequence with distinct keys is what the map holds under
/// that entry's key.
proof fn lemma_table_map<E: Keyed>(entries: Seq<E>)
    requires
        distinct_keys(entries),
    ensures
        forall|i: int|
            0 <= i < entries.len() ==> {
                &&& table_map(entries).contains_key(E::key_of(#[trigger] entries[i]@))
                &&& table_map(entries)[E::key_of(entries[i]@)] == entries[i]@
            },
{
    assert forall|i: int| 0 <= i < entries.len() implies {
        &&& table_map(entries).contains_key(E::key_of(#[trigger] entries[i]@))
        &&& table_map(entries)[E::key_of(entries[i]@)] == entries[i]@
    } by {
        let k = E::key_of(entries[i]@);
        let j = choose|j: int| 0 <= j < entries.len() && E::key_of(#[trigger] entries[j]@) == k;
        if j < i {
            assert(E::key_of(entries[j]@) != E::key_of(entries[i]@));
        } else if i < j {
            assert(E::key_of(entries[i]@) != E::key_of(entries[j]@));
        }
    }
}

/// The map obtained by filing the entries one after the other, a later entry
/// replacing an earlier one with the same key.
pub open spec fn filed<E: Keyed>(entries: Seq<E>) -> Map<E::K, E::V>
    decreases entries.len(),
{
    if entries.len() == 0 {
        Map::empty()
    } else {
        filed(entries.drop_last()).insert(E::key_of(entries.last()@), entries.last()@)
    }
}

/// Filing entries with distinct keys one after the other gives the map that
/// the sequence stands for.
proof fn lemma_filed_distinct<E: Keyed>(entries: Seq<E>)
    requires
        distinct_keys(entries),
    ensures
        filed(entries) == table_map(entries),
    decreases entries.len(),
{
    if entries.len() == 0 {
        assert(table_map(entries) =~= Map::<E::K, E::V>::empty());
    } else {
        let front = entries.drop_last();
        let last = entries.last();
        let n = front.len() as int;
        assert(distinct_keys(front)) by {
            assert forall|i: int, j: int| 0 <= i < j < front.len() implies E::key_of(
                #[trigger] front[i]@,
            ) != E::key_of(#[trigger] front[j]@) by {
                assert(front[i] == entries[i]);
                assert(front[j] == entries[j]);
            }
        }
        lemma_filed_distinct(front);
        lemma_table_map(entries);
        lemma_table_map(front);
        let target = table_map(front).insert(E::key_of(last@), last@);
        assert forall|key: E::K| table_map(entries).contains_key(key) implies target.contains_key(
            key,
        ) by {
            let i = choose|i: int|
                0 <= i < entries.len() && E::key_of(#[trigger] entries[i]@) == key;
            if i != n {
                assert(front[i] == entries[i]);
                assert(E::key_of(front[i]@) == key);
            }
        }
        assert forall|key: E::K| target.contains_key(key) implies table_map(entries).contains_key(
            key,
        ) && table_map(entries)[key] == target[key] by {
            if key == E::key_of(last@) {
                assert(E::key_of(entries[n]@) == key);
            } else {
                let i = choose|i: int|
                    0 <= i < front.len() && E::key_of(#[trigger] front[i]@) == key;
                assert(front[i] == entries[i]);
                assert(E::key_of(entries[i]@) == key);
            }
        }
        assert(table_map(entries) =~= target);
    }
}

/// Filing depends on the entries' models only.
pub proof fn lemma_filed_by_model<E: Keyed>(a: Seq<E>, b: Seq<E>)
    requires
        a.len() == b.len(),
        forall|i: int| 0 <= i < a.len() ==> a[i]@ == b[i]@,
    ensures
        filed(a) == filed(b),
        distinct_keys(a) == distinct_keys(b),
    decreases a.len(),
{
    if a.len() > 0 {
        lemma_filed_by_model(a.drop_last(), b.drop_last());
    }
    if distinct_keys(a) {
        assert forall|i: int, j: int| 0 <= i < j < b.len() implies E::key_of(#[trigger] b[i]@)
            != E::key_of(#[trigger] b[j]@) by {
            assert(E::key_of(a[i]@) != E::key_of(a[j]@));
        }
    }
    if distinct_keys(b) {
        assert forall|i: int, j: int| 0 <= i < j < a.len() implies E::key_of(#[trigger] a[i]@)
            != E::key_of(#[trigger] a[j]@) by {
            assert(E::key_of(b[i]@) != E::key_of(b[j]@));
        }
    }
}

/// A key-value namespace: at most one entry per key.
pub struct Table<E: Keyed> {
    entries: Vec<E>,
}

impl<E: Keyed> View for Table<E> {
    type V = Map<E::K, E::V>;

    closed spec fn view(&self) -> Map<E::K, E::V> {
        table_map(self.entries@)
    }
}

impl<E: Keyed> Table<E> {
    #[verifier::type_invariant]
    spec fn wf(self) -> bool {
        distinct_keys(self.entries@)
    }

    /// Every entry is found under the key that it names itself.
    pub proof fn lemma_filed_under_own_key(&self)
        ensures
            forall|k: E::K| #[trigger] self@.contains_key(k) ==> E::key_of(self@[k]) == k,
    {
    }

    /// A table with no entries.
    pub fn new() -> (r: Self)
        ensures
            r@ == Map::<E::K, E::V>::empty(),
    {
        Table { entries: Vec::new() }
    }

    /// A table in which the given entries have been filed one after the
    /// other.
    pub fn from_entries(entries: Vec<E>) -> (r: Self)
        ensures
            r@ == filed(entries@),
    {
        let mut table = Self::new();
        let ghost all = entries@;
        for entry in it: entries
            invariant
                it.seq() == all,
                table@ == filed(all.take(it.index())),
        {
            assert(all.take(it.index() + 1).drop_last() == all.take(it.index()));
            table.put(entry);
        }
        assert(all.take(all.len() as int) == all);
        table
    }

    /// The entries of the table, each under a key of its own.
    pub fn entries(&self) -> (r: &Vec<E>)
        ensures
            distinct_keys(r@),
            filed(r@) == self@,
    {
        proof {
            use_type_invariant(self);
            lemma_filed_distinct(self.entries@);
        }
        &self.entries
    }

    /// The position of the entry filed under `key`, if there is one.
    fn find(&self, key: &E::Key) -> (r: Option<usize>)
        ensures
            match r {
                Some(i) => i < self.entries.len() && E::key_of(self.entries[i as int]@)
                    == E::key_model(key),
                None => forall|i: int|
                    0 <= i < self.entries.len() ==> E::key_of(#[trigger] self.entries[i]@)
                        != E::key_model(key),
            },
    {
        let mut i: usize = 0;
        while i < self.entries.len()
            invariant
                i <= self.entries.len(),
                forall|j: int|
                    0 <= j < i ==> E::key_of(#[trigger] self.entries[j]@) != E::key_model(key),
            decreases self.entries.len() - i,
        {
            if self.entries[i].has_key(key) {
                return Some(i);
            }
            i += 1;
        }
        None
    }

    /// The position in `entries` of the entry with the key of `probe`.
    fn position(entries: &Vec<E>, probe: &E) -> (r: Option<usize>)
        ensures
            match r {
                Some(i) => i < entries.len() && E::key_of(entries[i as int]@) == E::key_of(probe@),
                None => forall|i: int|
                    0 <= i < entries.len() ==> E::key_of(#[trigger] entries[i]@) != E::key_of(
                        probe@,
                    ),
            },
    {
        let mut i: usize = 0;
        while i < entries.len()
            invariant
                i <= entries.len(),
                forall|j: int| 0 <= j < i ==> E::key_of(#[trigger] entries[j]@) != E::key_of(probe@),
            decreases entries.len() - i,
        {
            if entries[i].same_key(probe) {
                return Some(i);
            }
            i += 1;
        }
        None
    }

    /// Whether an entry is filed under `key`.
    pub fn contains(&self, key: &E::Key) -> (r: bool)
        ensures
            r == self@.contains_key(E::key_model(key)),
    {
        self.find(key).is_some()
    }

    /// The entry filed under `key`, if there is one.
    pub fn get(&self, key: &E::Key) -> (r: Option<&E>)
        ensures
            match r {
                Some(e) => self@.contains_key(E::key_model(key)) && e@ == self@[E::key_model(key)],
                None => !self@.contains_key(E::key_model(key)),
            },
    {
        proof {
            use_type_invariant(self);
            lemma_table_map(self.entries@);
        }
        match self.find(key) {
            Some(i) => Some(&self.entries[i]),
            None => None,
        }
    }

    /// Files `entry` under its own key, replacing whatever was there.
    pub fn put(&mut self, entry: E)
        ensures
            final(self)@ == old(self)@.insert(E::key_of(entry@), entry@),
    {
        proof {
            use_type_invariant(&*self);
        }
        let mut entries: Vec<E> = Vec::new();
        std::mem::swap(&mut entries, &mut self.entries);
        let ghost before = entries@;
        let ghost k = E::key_of(entry@);
        let ghost e = entry@;
        let found = Self::position(&entries, &entry);
        match found {
            Some(p) => {
                entries[p] = entry;
            },
            None => {
                entries.push(entry);
            },
        }
        proof {
            let after = entries@;
            let here: int = match found {
                Some(p) => p as int,
                None => before.len() as int,
            };
            assert(after[here]@ == e);
            assert forall|i: int| 0 <= i < after.len() && i != here implies after[i]
                == before[i] by {}
            assert(distinct_keys(after)) by {
                assert forall|i: int, j: int| 0 <= i < j < after.len() implies E::key_of(
                    #[trigger] after[i]@,
                ) != E::key_of(#[trigger] after[j]@) by {
                    if i != here && j != here {
                        assert(E::key_of(before[i]@) != E::key_of(before[j]@));
                    } else if i == here {
                        assert(E::key_of(before[j]@) != k);
                    } else {
                        assert(E::key_of(before[i]@) != k);
                    }
                }
            }
            lemma_table_map(before);
            lemma_table_map(after);
            let target = table_map(before).insert(k, e);
            assert forall|key: E::K| table_map(after).contains_key(key) implies target.contains_key(
                key,
            ) by {
                let i = choose|i: int|
                    0 <= i < after.len() && E::key_of(#[trigger] after[i]@) == key;
                if i != here {
                    assert(E::key_of(before[i]@) == key);
                }
            }
            assert forall|key: E::K| target.contains_key(key) implies table_map(after).contains_key(
                key,
            ) && table_map(after)[key] == target[key] by {
                if key == k {
                    assert(E::key_of(after[here]@) == key);
                } else {
                    let i = choose|i: int|
                        0 <= i < before.len() && E::key_of(#[trigger] before[i]@) == key;
                    assert(i != here);
                    assert(E::key_of(after[i]@) == key);
                }
            }
            assert(table_map(after) =~= target);
        }
        self.entries = entries;
    }
}

} // verus!
