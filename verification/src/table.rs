//! A keyed table: a vector of records, no two with the same key, seen as a
//! map from each key to its record.
use vstd::prelude::*;

verus! {

/// A record that carries its own string key.
pub trait Keyed: Sized {
    spec fn key_view(&self) -> Seq<char>;

    fn key(&self) -> (k: &String)
        ensures
            k@ == self.key_view(),
    ;

    fn duplicate(&self) -> (r: Self)
        ensures
            r == *self,
    ;
}

/// Some record of `s` has key `k`.
pub open spec fn has_key<T: Keyed>(s: Seq<T>, k: Seq<char>) -> bool {
    exists|i: int| 0 <= i < s.len() && #[trigger] s[i].key_view() == k
}

/// No two records of `s` share a key.
pub open spec fn keys_unique<T: Keyed>(s: Seq<T>) -> bool {
    forall|i: int, j: int|
        0 <= i < s.len() && 0 <= j < s.len() && i != j ==> #[trigger] s[i].key_view()
            != #[trigger] s[j].key_view()
}

/// The map from each key of `s` to the record that carries it.
pub open spec fn seq_to_map<T: Keyed>(s: Seq<T>) -> Map<Seq<char>, T> {
    Map::new(
        |k: Seq<char>| has_key(s, k),
        |k: Seq<char>| s[choose|i: int| 0 <= i < s.len() && #[trigger] s[i].key_view() == k],
    )
}

/// In a sequence with unique keys, the record at `i` is the one the map holds.
pub proof fn lemma_map_at_index<T: Keyed>(s: Seq<T>, i: int)
    requires
        keys_unique(s),
        0 <= i < s.len(),
    ensures
        seq_to_map(s).contains_key(s[i].key_view()),
        seq_to_map(s)[s[i].key_view()] == s[i],
{
    let k = s[i].key_view();
    assert(has_key(s, k));
    let j = choose|j: int| 0 <= j < s.len() && #[trigger] s[j].key_view() == k;
    assert(s[j].key_view() == k);
    assert(j == i);
}

/// The map of `s` with a record pushed at the end, when its key is new.
pub proof fn lemma_map_push<T: Keyed>(s: Seq<T>, x: T)
    requires
        keys_unique(s),
        !has_key(s, x.key_view()),
    ensures
        keys_unique(s.push(x)),
        seq_to_map(s.push(x)) =~= seq_to_map(s).insert(x.key_view(), x),
{
    let t = s.push(x);
    assert forall|i: int, j: int|
        0 <= i < t.len() && 0 <= j < t.len() && i != j implies #[trigger] t[i].key_view()
        != #[trigger] t[j].key_view() by {
        if i < s.len() && j < s.len() {
            assert(t[i] == s[i] && t[j] == s[j]);
        } else if i < s.len() {
            assert(t[i] == s[i]);
            assert(s[i].key_view() != x.key_view());
        } else if j < s.len() {
            assert(t[j] == s[j]);
            assert(s[j].key_view() != x.key_view());
        }
    }
    let m = seq_to_map(s).insert(x.key_view(), x);
    assert forall|k: Seq<char>| #[trigger] seq_to_map(t).contains_key(k) == m.contains_key(k) by {
        if has_key(t, k) {
            let i = choose|i: int| 0 <= i < t.len() && #[trigger] t[i].key_view() == k;
            if i < s.len() {
                assert(t[i] == s[i]);
                assert(has_key(s, k));
            }
        }
        if has_key(s, k) {
            let i = choose|i: int| 0 <= i < s.len() && #[trigger] s[i].key_view() == k;
            assert(t[i] == s[i]);
            assert(has_key(t, k));
        }
        if k == x.key_view() {
            assert(t[s.len() as int] == x);
            assert(has_key(t, k));
        }
    }
    assert forall|k: Seq<char>| #[trigger] seq_to_map(t).contains_key(k) implies seq_to_map(t)[k]
        == m[k] by {
        let i = choose|i: int| 0 <= i < t.len() && #[trigger] t[i].key_view() == k;
        lemma_map_at_index(t, i);
        if i < s.len() {
            assert(t[i] == s[i]);
            lemma_map_at_index(s, i);
        } else {
            assert(t[i] == x);
        }
    }
}

/// The map of `s` with the record at `i` replaced by one with the same key.
pub proof fn lemma_map_update<T: Keyed>(s: Seq<T>, i: int, x: T)
    requires
        keys_unique(s),
        0 <= i < s.len(),
        s[i].key_view() == x.key_view(),
    ensures
        keys_unique(s.update(i, x)),
        seq_to_map(s.update(i, x)) =~= seq_to_map(s).insert(x.key_view(), x),
{
    let t = s.update(i, x);
    assert forall|a: int, b: int|
        0 <= a < t.len() && 0 <= b < t.len() && a != b implies #[trigger] t[a].key_view()
        != #[trigger] t[b].key_view() by {
        assert(s[a].key_view() != s[b].key_view());
    }
    let m = seq_to_map(s).insert(x.key_view(), x);
    assert forall|k: Seq<char>| #[trigger] seq_to_map(t).contains_key(k) == m.contains_key(k) by {
        if has_key(t, k) {
            let j = choose|j: int| 0 <= j < t.len() && #[trigger] t[j].key_view() == k;
            assert(s[j].key_view() == k);
            assert(has_key(s, k));
        }
        if has_key(s, k) {
            let j = choose|j: int| 0 <= j < s.len() && #[trigger] s[j].key_view() == k;
            assert(t[j].key_view() == k);
            assert(has_key(t, k));
        }
        if k == x.key_view() {
            assert(t[i] == x);
            assert(has_key(t, k));
        }
    }
    assert forall|k: Seq<char>| #[trigger] seq_to_map(t).contains_key(k) implies seq_to_map(t)[k]
        == m[k] by {
        let j = choose|j: int| 0 <= j < t.len() && #[trigger] t[j].key_view() == k;
        lemma_map_at_index(t, j);
        if j != i {
            lemma_map_at_index(s, j);
        }
    }
}

/// The map of `s` with the record at `i` removed.
pub proof fn lemma_map_remove<T: Keyed>(s: Seq<T>, i: int)
    requires
        keys_unique(s),
        0 <= i < s.len(),
    ensures
        keys_unique(s.remove(i)),
        seq_to_map(s.remove(i)) =~= seq_to_map(s).remove(s[i].key_view()),
{
    let t = s.remove(i);
    let key = s[i].key_view();
    assert forall|a: int, b: int|
        0 <= a < t.len() && 0 <= b < t.len() && a != b implies #[trigger] t[a].key_view()
        != #[trigger] t[b].key_view() by {
        let a2 = if a < i { a } else { a + 1 };
        let b2 = if b < i { b } else { b + 1 };
        assert(t[a] == s[a2] && t[b] == s[b2]);
        assert(s[a2].key_view() != s[b2].key_view());
    }
    let m = seq_to_map(s).remove(key);
    assert forall|k: Seq<char>| #[trigger] seq_to_map(t).contains_key(k) == m.contains_key(k) by {
        if has_key(t, k) {
            let j = choose|j: int| 0 <= j < t.len() && #[trigger] t[j].key_view() == k;
            let j2 = if j < i { j } else { j + 1 };
            assert(t[j] == s[j2]);
            assert(s[j2].key_view() != key);
            assert(has_key(s, k));
        }
        if has_key(s, k) && k != key {
            let j = choose|j: int| 0 <= j < s.len() && #[trigger] s[j].key_view() == k;
            assert(j != i);
            let j2 = if j < i { j } else { j - 1 };
            assert(t[j2] == s[j]);
            assert(has_key(t, k));
        }
    }
    assert forall|k: Seq<char>| #[trigger] seq_to_map(t).contains_key(k) implies seq_to_map(t)[k]
        == m[k] by {
        let j = choose|j: int| 0 <= j < t.len() && #[trigger] t[j].key_view() == k;
        let j2 = if j < i { j } else { j + 1 };
        assert(t[j] == s[j2]);
        lemma_map_at_index(t, j);
        lemma_map_at_index(s, j2);
    }
}

/// The position in `entries` of the record with key `key`, if any.
fn find_key<T: Keyed>(entries: &Vec<T>, key: &str) -> (r: Option<usize>)
    ensures
        match r {
            Some(i) => i < entries@.len() && entries@[i as int].key_view() == key@,
            None => !has_key(entries@, key@),
        },
{
    let wanted: String = key.to_owned();
    let n = entries.len();
    let mut i: usize = 0;
    while i < n
        invariant
            n == entries@.len(),
            i <= n,
            wanted@ == key@,
            forall|j: int| 0 <= j < i ==> #[trigger] entries@[j].key_view() != key@,
        decreases n - i,
    {
        if *entries[i].key() == wanted {
            return Some(i);
        }
        i = i + 1;
    }
    None
}

/// Records kept in a vector, no two with the same key.
pub struct Table<T: Keyed> {
    entries: Vec<T>,
}

impl<T: Keyed> View for Table<T> {
    type V = Map<Seq<char>, T>;

    /// The table as a map from key to record.
    closed spec fn view(&self) -> Map<Seq<char>, T> {
        seq_to_map(self.entries@)
    }
}

impl<T: Keyed> Table<T> {
    #[verifier::type_invariant]
    spec fn unique(self) -> bool {
        keys_unique(self.entries@)
    }


    /// An empty table.
    pub fn new() -> (t: Self)
        ensures
            t.view() == Map::<Seq<char>, T>::empty(),
    {
        let t = Table { entries: Vec::new() };
        assert(t.view() =~= Map::<Seq<char>, T>::empty());
        t
    }

    /// The position of the record with key `key`, if any.
    fn position(&self, key: &str) -> (r: Option<usize>)
        ensures
            match r {
                Some(i) => i < self.entries@.len() && self.entries@[i as int].key_view() == key@,
                None => !has_key(self.entries@, key@),
            },
    {
        find_key(&self.entries, key)
    }

    /// Whether a record with key `key` is in the table.
    pub fn contains(&self, key: &str) -> (b: bool)
        ensures
            b == self.view().contains_key(key@),
    {
        match self.position(key) {
            Some(_) => true,
            None => false,
        }
    }

    /// The record with key `key`, if any.
    pub fn get(&self, key: &str) -> (r: Option<&T>)
        ensures
            match r {
                Some(x) => self.view().contains_key(key@) && *x == self.view()[key@] && x.key_view()
                    == key@,
                None => !self.view().contains_key(key@),
            },
    {
        proof {
            use_type_invariant(self);
        }
        match self.position(key) {
            Some(i) => {
                proof {
                    lemma_map_at_index(self.entries@, i as int);
                }
                Some(&self.entries[i])
            },
            None => None,
        }
    }

    /// Puts `item` under its key, replacing the record that had that key.
    pub fn insert(&mut self, item: T)
        ensures
            final(self).view() == old(self).view().insert(item.key_view(), item),
    {
        proof {
            use_type_invariant(&*self);
        }
        let mut entries: Vec<T> = Vec::new();
        std::mem::swap(&mut entries, &mut self.entries);
        let ghost old_entries = entries@;
        match find_key(&entries, item.key().as_str()) {
            Some(i) => {
                proof {
                    lemma_map_update(old_entries, i as int, item);
                }
                entries[i] = item;
            },
            None => {
                proof {
                    lemma_map_push(old_entries, item);
                }
                entries.push(item);
            },
        }
        self.entries = entries;
    }

    /// Removes the record with key `key`, if there is one.
    pub fn remove(&mut self, key: &str)
        ensures
            final(self).view() == old(self).view().remove(key@),
    {
        proof {
            use_type_invariant(&*self);
        }
        match self.position(key) {
            Some(i) => {
                let mut entries: Vec<T> = Vec::new();
                std::mem::swap(&mut entries, &mut self.entries);
                proof {
                    lemma_map_remove(entries@, i as int);
                }
                entries.remove(i);
                self.entries = entries;
            },
            None => {
                assert(old(self).view().remove(key@) =~= old(self).view());
            },
        }
    }

    /// The records themselves, in storage order.
    pub fn records(&self) -> (r: &Vec<T>)
        ensures
            keys_unique(r@),
            seq_to_map(r@) == self.view(),
    {
        proof {
            use_type_invariant(self);
        }
        &self.entries
    }

    /// A copy of every record, each once.
    pub fn values(&self) -> (r: Vec<T>)
        ensures
            keys_unique(r@),
            seq_to_map(r@) == self.view(),
    {
        proof {
            use_type_invariant(self);
        }
        let n = self.entries.len();
        let mut out: Vec<T> = Vec::new();
        let mut i: usize = 0;
        while i < n
            invariant
                n == self.entries@.len(),
                i <= n,
                out@ == self.entries@.subrange(0, i as int),
            decreases n - i,
        {
            out.push(self.entries[i].duplicate());
            i = i + 1;
        }
        assert(out@ =~= self.entries@);
        out
    }
}

} // verus!
