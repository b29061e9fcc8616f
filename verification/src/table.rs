//! A table keyed by text, in which no key occurs twice.

use vstd::prelude::*;

use crate::text::same_text;

verus! {

/// Values by key. The table views as the map from each key's text to its value.
pub struct Table<V> {
    entries: Vec<(String, V)>,
}

/// The map that a sequence of entries with distinct keys stands for.
pub closed spec fn entries_map<V>(entries: Seq<(String, V)>) -> Map<Seq<char>, V>
    decreases entries.len(),
{
    if entries.len() == 0 {
        Map::empty()
    } else {
        entries_map(entries.drop_last()).insert(entries.last().0@, entries.last().1)
    }
}

/// No two entries have the same key.
pub closed spec fn distinct_keys<V>(entries: Seq<(String, V)>) -> bool {
    forall|i: int, j: int|
        #![trigger entries[i], entries[j]]
        0 <= i < j < entries.len() ==> entries[i].0@ != entries[j].0@
}

/// What the map holds, entry by entry.
proof fn lemma_entries_map<V>(entries: Seq<(String, V)>)
    requires
        distinct_keys(entries),
    ensures
        forall|i: int|
            0 <= i < entries.len() ==> entries_map(entries).contains_key(
                #[trigger] entries[i].0@,
            ) && entries_map(entries)[entries[i].0@] == entries[i].1,
        forall|k: Seq<char>|
            entries_map(entries).contains_key(k) ==> exists|i: int|
                0 <= i < entries.len() && #[trigger] entries[i].0@ == k,
        entries_map(entries).dom().finite(),
        entries_map(entries).dom().len() == entries.len(),
    decreases entries.len(),
{
    if entries.len() > 0 {
        let rest = entries.drop_last();
        lemma_entries_map(rest);
        assert forall|i: int| 0 <= i < entries.len() implies entries_map(entries).contains_key(
            #[trigger] entries[i].0@,
        ) && entries_map(entries)[entries[i].0@] == entries[i].1 by {
            if i < rest.len() {
                assert(rest[i] == entries[i]);
                assert(entries[i].0@ != entries[entries.len() - 1].0@);
            }
        }
        assert forall|k: Seq<char>| entries_map(entries).contains_key(k) implies exists|i: int|
            0 <= i < entries.len() && #[trigger] entries[i].0@ == k by {
            if k == entries.last().0@ {
                assert(entries[entries.len() - 1].0@ == k);
            } else {
                assert(entries_map(rest).contains_key(k));
                let i = choose|i: int| 0 <= i < rest.len() && #[trigger] rest[i].0@ == k;
                assert(entries[i].0@ == k);
            }
        }
        assert(!entries_map(rest).contains_key(entries.last().0@)) by {
            if entries_map(rest).contains_key(entries.last().0@) {
                let i = choose|i: int|
                    0 <= i < rest.len() && #[trigger] rest[i].0@ == entries.last().0@;
                assert(entries[i].0@ != entries[entries.len() - 1].0@);
            }
        }
        assert(entries_map(entries).dom() =~= entries_map(rest).dom().insert(entries.last().0@));
    }
}

/// Without the entry at `i` the map lacks exactly that key.
proof fn lemma_without<V>(entries: Seq<(String, V)>, i: int)
    requires
        distinct_keys(entries),
        0 <= i < entries.len(),
    ensures
        distinct_keys(entries.remove(i)),
        entries_map(entries.remove(i)) == entries_map(entries).remove(entries[i].0@),
{
    let less = entries.remove(i);
    assert forall|a: int, b: int| 0 <= a < b < less.len() implies #[trigger] less[a].0@
        != #[trigger] less[b].0@ by {
        let a2 = if a < i { a } else { a + 1 };
        let b2 = if b < i { b } else { b + 1 };
        assert(less[a] == entries[a2]);
        assert(less[b] == entries[b2]);
    }
    lemma_entries_map(entries);
    lemma_entries_map(less);
    let m = entries_map(entries).remove(entries[i].0@);
    assert forall|k: Seq<char>| #[trigger] entries_map(less).contains_key(k) implies m.contains_key(
        k,
    ) && m[k] == entries_map(less)[k] by {
        let j = choose|j: int| 0 <= j < less.len() && #[trigger] less[j].0@ == k;
        let j2 = if j < i { j } else { j + 1 };
        assert(less[j] == entries[j2]);
        assert(entries[j2].0@ == k);
        assert(entries[i].0@ != entries[j2].0@);
    }
    assert forall|k: Seq<char>| #[trigger] m.contains_key(k) implies entries_map(less).contains_key(
        k,
    ) by {
        let j = choose|j: int| 0 <= j < entries.len() && #[trigger] entries[j].0@ == k;
        let j2 = if j < i { j } else { j - 1 };
        assert(less[j2] == entries[j]);
        assert(less[j2].0@ == k);
    }
    assert(entries_map(less) =~= m);
}

/// With a fresh key added at the end the map has exactly that key more.
proof fn lemma_with<V>(entries: Seq<(String, V)>, entry: (String, V))
    requires
        distinct_keys(entries),
        !entries_map(entries).contains_key(entry.0@),
    ensures
        distinct_keys(entries.push(entry)),
        entries_map(entries.push(entry)) == entries_map(entries).insert(entry.0@, entry.1),
{
    let more = entries.push(entry);
    lemma_entries_map(entries);
    assert forall|a: int, b: int| 0 <= a < b < more.len() implies #[trigger] more[a].0@
        != #[trigger] more[b].0@ by {
        assert(more[a] == entries[a]);
        assert(entries_map(entries).contains_key(entries[a].0@));
        if b < entries.len() {
            assert(more[b] == entries[b]);
        }
    }
    assert(more.drop_last() =~= entries);
}

impl<V> View for Table<V> {
    type V = Map<Seq<char>, V>;

    closed spec fn view(&self) -> Map<Seq<char>, V> {
        entries_map(self.entries@)
    }
}

impl<V> Table<V> {
    #[verifier::type_invariant]
    spec fn wf(self) -> bool {
        distinct_keys(self.entries@)
    }

    /// A table without entries.
    pub fn new() -> (r: Self)
        ensures
            r@ == Map::<Seq<char>, V>::empty(),
    {
        Table { entries: Vec::new() }
    }

    /// How many keys the table has.
    pub fn len(&self) -> (r: usize)
        ensures
            self@.dom().finite(),
            r == self@.dom().len(),
    {
        proof {
            use_type_invariant(self);
            lemma_entries_map(self.entries@);
        }
        self.entries.len()
    }

    /// The position of `key` among the entries.
    fn position(&self, key: &str) -> (r: Option<usize>)
        ensures
            match r {
                Some(i) => i < self.entries@.len() && self.entries@[i as int].0@ == key@
                    && self@.contains_key(key@) && self@[key@] == self.entries@[i as int].1,
                None => !self@.contains_key(key@),
            },
    {
        proof {
            use_type_invariant(self);
            lemma_entries_map(self.entries@);
        }
        let mut i: usize = 0;
        while i < self.entries.len()
            invariant
                i <= self.entries@.len(),
                forall|j: int| 0 <= j < i ==> (#[trigger] self.entries@[j]).0@ != key@,
            decreases self.entries@.len() - i,
        {
            if same_text(self.entries[i].0.as_str(), key) {
                proof {
                    use_type_invariant(self);
                    lemma_entries_map(self.entries@);
                }
                return Some(i);
            }
            i = i + 1;
        }
        None
    }

    /// Whether the table has `key`.
    pub fn contains(&self, key: &str) -> (r: bool)
        ensures
            r == self@.contains_key(key@),
    {
        self.position(key).is_some()
    }

    /// The value of `key`.
    pub fn get(&self, key: &str) -> (r: Option<&V>)
        ensures
            match r {
                Some(v) => self@.contains_key(key@) && *v == self@[key@],
                None => !self@.contains_key(key@),
            },
    {
        match self.position(key) {
            Some(i) => Some(&self.entries[i].1),
            None => None,
        }
    }

    /// Takes `key` out and hands back its value.
    pub fn remove(&mut self, key: &str) -> (r: Option<V>)
        ensures
            final(self)@ == old(self)@.remove(key@),
            r == (if old(self)@.contains_key(key@) {
                Some(old(self)@[key@])
            } else {
                None
            }),
    {
        match self.position(key) {
            Some(i) => {
                proof {
                    use_type_invariant(&*self);
                    lemma_without(self.entries@, i as int);
                }
                let mut entries: Vec<(String, V)> = Vec::new();
                std::mem::swap(&mut entries, &mut self.entries);
                let (_, v) = entries.remove(i);
                self.entries = entries;
                Some(v)
            },
            None => {
                assert(self@ =~= self@.remove(key@));
                None
            },
        }
    }

    /// Gives `key` the value `value` and hands back the one it had.
    pub fn insert(&mut self, key: String, value: V) -> (r: Option<V>)
        ensures
            final(self)@ == old(self)@.insert(key@, value),
            r == (if old(self)@.contains_key(key@) {
                Some(old(self)@[key@])
            } else {
                None
            }),
    {
        let previous = self.remove(key.as_str());
        proof {
            use_type_invariant(&*self);
            lemma_with(self.entries@, (key, value));
        }
        let ghost key_text = key@;
        let mut entries: Vec<(String, V)> = Vec::new();
        std::mem::swap(&mut entries, &mut self.entries);
        entries.push((key, value));
        self.entries = entries;
        assert(self@ =~= old(self)@.insert(key_text, value));
        previous
    }

    /// The keys, each once.
    pub fn keys(&self) -> (r: Vec<String>)
        ensures
            lists_keys(r@, self@),
    {
        proof {
            use_type_invariant(self);
            lemma_entries_map(self.entries@);
        }
        let mut out: Vec<String> = Vec::new();
        let mut i: usize = 0;
        while i < self.entries.len()
            invariant
                i <= self.entries@.len(),
                out@.len() == i,
                forall|j: int| 0 <= j < i ==> out@[j] == (#[trigger] self.entries@[j]).0,
            decreases self.entries@.len() - i,
        {
            out.push(self.entries[i].0.clone());
            i = i + 1;
        }
        assert forall|a: int, b: int| 0 <= a < b < out@.len() implies (#[trigger] out@[a])@ != (
        #[trigger] out@[b])@ by {
            assert(self.entries@[a].0@ != self.entries@[b].0@);
        }
        assert forall|k: Seq<char>| #[trigger] self@.contains_key(k) implies exists|i: int|
            0 <= i < out@.len() && (#[trigger] out@[i])@ == k by {
            let j = choose|j: int|
                0 <= j < self.entries@.len() && #[trigger] self.entries@[j].0@ == k;
            assert(out@[j]@ == k);
        }
        assert forall|i: int| 0 <= i < out@.len() implies self@.contains_key(
            (#[trigger] out@[i])@,
        ) by {
            assert(self.entries@[i].0@ == out@[i]@);
        }
        out
    }

    /// Drops every key that is not among `keep`.
    pub fn retain(&mut self, keep: &Vec<String>)
        ensures
            final(self)@ == old(self)@.restrict(texts(keep@).to_set()),
    {
        let keys = self.keys();
        let ghost before = self@;
        let ghost kept = texts(keep@).to_set();
        let mut i: usize = 0;
        while i < keys.len()
            invariant
                i <= keys@.len(),
                lists_keys(keys@, before),
                kept == texts(keep@).to_set(),
                forall|k: Seq<char>| #[trigger]
                    self@.contains_key(k) ==> before.contains_key(k) && self@[k] == before[k],
                forall|k: Seq<char>| #[trigger]
                    before.contains_key(k) && kept.contains(k) ==> self@.contains_key(k),
                forall|j: int|
                    0 <= j < i && !kept.contains((#[trigger] keys@[j])@) ==> !self@.contains_key(
                        keys@[j]@,
                    ),
            decreases keys@.len() - i,
        {
            if !lists_text(keep, keys[i].as_str()) {
                self.remove(keys[i].as_str());
            }
            i = i + 1;
        }
        assert(self@ =~= before.restrict(kept));
    }
}

/// The texts of a list of strings.
pub open spec fn texts(list: Seq<String>) -> Seq<Seq<char>> {
    list.map_values(|s: String| s@)
}

/// `list` names every key of `m`, each once.
pub open spec fn lists_keys<V>(list: Seq<String>, m: Map<Seq<char>, V>) -> bool {
    &&& forall|i: int, j: int|
        #![trigger list[i], list[j]]
        0 <= i < j < list.len() ==> list[i]@ != list[j]@
    &&& forall|i: int| 0 <= i < list.len() ==> m.contains_key((#[trigger] list[i])@)
    &&& forall|k: Seq<char>| #[trigger]
        m.contains_key(k) ==> exists|i: int| 0 <= i < list.len() && (#[trigger] list[i])@ == k
}

/// Whether `text` is one of `list`.
pub fn lists_text(list: &Vec<String>, text: &str) -> (r: bool)
    ensures
        r == texts(list@).contains(text@),
{
    let mut i: usize = 0;
    while i < list.len()
        invariant
            i <= list@.len(),
            forall|j: int| 0 <= j < i ==> (#[trigger] list@[j])@ != text@,
        decreases list@.len() - i,
    {
        if same_text(list[i].as_str(), text) {
            assert(texts(list@)[i as int] == text@);
            return true;
        }
        i = i + 1;
    }
    assert forall|j: int| 0 <= j < texts(list@).len() implies texts(list@)[j] != text@ by {
        assert(texts(list@)[j] == list@[j]@);
    }
    false
}

} // verus!
