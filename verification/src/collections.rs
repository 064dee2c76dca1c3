//! Maps and sets with text keys.
use crate::text::same;
use vstd::prelude::*;

verus! {

/// The map that a list of entries stands for: where a key occurs twice, the earlier entry counts.
pub open spec fn map_of<V: DeepView>(entries: Seq<(String, V)>) -> Map<Seq<char>, V::V>
    decreases entries.len(),
{
    if entries.len() == 0 {
        Map::empty()
    } else {
        map_of(entries.drop_first()).insert(entries[0].0@, entries[0].1.deep_view())
    }
}

/// A map from text to values.
#[derive(Debug)]
pub struct StringMap<V> {
    pub entries: Vec<(String, V)>,
}

impl<V: DeepView> DeepView for StringMap<V> {
    type V = Map<Seq<char>, V::V>;

    open spec fn deep_view(&self) -> Map<Seq<char>, V::V> {
        map_of(self.entries@)
    }
}

proof fn lemma_other_key<V: DeepView>(entries: Seq<(String, V)>, i: int, key: Seq<char>)
    requires
        0 <= i < entries.len(),
        entries[i].0@ != key,
    ensures
        map_of(entries.skip(i)).contains_key(key) == map_of(entries.skip(i + 1)).contains_key(key),
        map_of(entries.skip(i)).contains_key(key) ==> map_of(entries.skip(i))[key] == map_of(
            entries.skip(i + 1),
        )[key],
{
    assert(entries.skip(i).drop_first() =~= entries.skip(i + 1));
}

proof fn lemma_remove_entry<V: DeepView>(entries: Seq<(String, V)>, i: int, key: Seq<char>)
    requires
        0 <= i < entries.len(),
        entries[i].0@ == key,
    ensures
        map_of(entries.remove(i)).remove(key) == map_of(entries).remove(key),
    decreases entries.len(),
{
    if i == 0 {
        assert(entries.remove(0) =~= entries.drop_first());
        assert(map_of(entries.remove(0)).remove(key) =~= map_of(entries).remove(key));
    } else {
        lemma_remove_entry(entries.drop_first(), i - 1, key);
        assert(entries.remove(i).drop_first() =~= entries.drop_first().remove(i - 1));
        assert(map_of(entries.remove(i)).remove(key) =~= map_of(entries).remove(key)) by {
            let first = entries[0].0@;
            let value = entries[0].1.deep_view();
            let left = map_of(entries.drop_first().remove(i - 1));
            let right = map_of(entries.drop_first());
            assert(entries.remove(i)[0] == entries[0]);
            assert(map_of(entries.remove(i)) == left.insert(first, value));
            assert(map_of(entries) == right.insert(first, value));
            assert(left.remove(key) == right.remove(key));
            let one = left.insert(first, value).remove(key);
            let two = right.insert(first, value).remove(key);
            assert forall|k: Seq<char>|
                #![trigger one.dom().contains(k)]
                one.dom().contains(k) == two.dom().contains(k) && (one.dom().contains(k) ==> one[k]
                    == two[k]) by {
                if k != key && k != first {
                    assert(left.remove(key).dom().contains(k) == left.dom().contains(k));
                    assert(right.remove(key).dom().contains(k) == right.dom().contains(k));
                    assert(left.dom().contains(k) ==> left.remove(key)[k] == left[k]);
                    assert(right.dom().contains(k) ==> right.remove(key)[k] == right[k]);
                }
            }
            assert(one =~= two);
        }
    }
}

proof fn lemma_absent<V: DeepView>(entries: Seq<(String, V)>, key: Seq<char>)
    requires
        forall|i: int| 0 <= i < entries.len() ==> entries[i].0@ != key,
    ensures
        !map_of(entries).contains_key(key),
    decreases entries.len(),
{
    if entries.len() > 0 {
        lemma_absent(entries.drop_first(), key);
    }
}

/// A key of the map occurs among the entries.
pub proof fn lemma_present<V: DeepView>(entries: Seq<(String, V)>, key: Seq<char>) -> (i: int)
    requires
        map_of(entries).contains_key(key),
    ensures
        0 <= i < entries.len(),
        entries[i].0@ == key,
        entries[i].1.deep_view() == map_of(entries)[key],
    decreases entries.len(),
{
    if entries[0].0@ == key {
        0
    } else {
        lemma_present(entries.drop_first(), key) + 1
    }
}

/// The key of an entry is a key of the map.
pub proof fn lemma_listed<V: DeepView>(entries: Seq<(String, V)>, i: int)
    requires
        0 <= i < entries.len(),
    ensures
        map_of(entries).contains_key(entries[i].0@),
    decreases entries.len(),
{
    if i > 0 {
        lemma_listed(entries.drop_first(), i - 1);
    }
}

impl<V: DeepView> StringMap<V> {
    pub fn new() -> (map: Self)
        ensures
            map.deep_view() == Map::<Seq<char>, V::V>::empty(),
    {
        StringMap { entries: Vec::new() }
    }

    pub fn is_empty(&self) -> (empty: bool)
        ensures
            empty == (self.deep_view() == Map::<Seq<char>, V::V>::empty()),
    {
        proof {
            if self.entries@.len() > 0 {
                assert(self.deep_view().contains_key(self.entries@[0].0@));
            }
        }
        self.entries.len() == 0
    }

    pub fn get(&self, key: &str) -> (value: Option<&V>)
        ensures
            match value {
                Some(value) => self.deep_view().contains_key(key@) && value.deep_view()
                    == self.deep_view()[key@],
                None => !self.deep_view().contains_key(key@),
            },
    {
        let mut i: usize = 0;
        assert(self.entries@.skip(0) =~= self.entries@);
        while i < self.entries.len()
            invariant
                i <= self.entries@.len(),
                self.deep_view().contains_key(key@) == map_of(
                    self.entries@.skip(i as int),
                ).contains_key(key@),
                self.deep_view().contains_key(key@) ==> self.deep_view()[key@] == map_of(
                    self.entries@.skip(i as int),
                )[key@],
            decreases self.entries@.len() - i,
        {
            if same(self.entries[i].0.as_str(), key) {
                return Some(&self.entries[i].1);
            }
            proof {
                lemma_other_key(self.entries@, i as int, key@);
            }
            i += 1;
        }
        None
    }

    pub fn contains_key(&self, key: &str) -> (found: bool)
        ensures
            found == self.deep_view().contains_key(key@),
    {
        self.get(key).is_some()
    }

    pub fn remove(&mut self, key: &str) -> (value: Option<V>)
        ensures
            final(self).deep_view() == old(self).deep_view().remove(key@),
            match value {
                Some(value) => old(self).deep_view().contains_key(key@) && value.deep_view()
                    == old(self).deep_view()[key@],
                None => !old(self).deep_view().contains_key(key@),
            },
            final(self).entries@.len() <= old(self).entries@.len(),
            value is Some ==> final(self).entries@.len() < old(self).entries@.len(),
    {
        let mut value: Option<V> = None;
        let mut i: usize = 0;
        assert(self.entries@.skip(0) =~= self.entries@);
        while i < self.entries.len()
            invariant
                i <= self.entries@.len(),
                forall|j: int| 0 <= j < i ==> self.entries@[j].0@ != key@,
                map_of(self.entries@).remove(key@) == old(self).deep_view().remove(key@),
                self.entries@.len() <= old(self).entries@.len(),
                value is Some ==> self.entries@.len() < old(self).entries@.len(),
                match value {
                    Some(value) => old(self).deep_view().contains_key(key@) && value.deep_view()
                        == old(self).deep_view()[key@],
                    None => {
                        &&& self.entries@ == old(self).entries@
                        &&& old(self).deep_view().contains_key(key@) == map_of(
                            self.entries@.skip(i as int),
                        ).contains_key(key@)
                        &&& old(self).deep_view().contains_key(key@) ==> old(
                            self,
                        ).deep_view()[key@] == map_of(self.entries@.skip(i as int))[key@]
                    },
                },
            decreases self.entries@.len() - i,
        {
            if same(self.entries[i].0.as_str(), key) {
                proof {
                    lemma_remove_entry(self.entries@, i as int, key@);
                }
                let entry = self.entries.remove(i);
                if value.is_none() {
                    value = Some(entry.1);
                }
            } else {
                proof {
                    lemma_other_key(self.entries@, i as int, key@);
                }
                i += 1;
            }
        }
        proof {
            lemma_absent(self.entries@, key@);
            assert(map_of(self.entries@).remove(key@) =~= map_of(self.entries@));
        }
        value
    }

    pub fn insert(&mut self, key: String, value: V)
        ensures
            final(self).deep_view() == old(self).deep_view().insert(key@, value.deep_view()),
    {
        let _replaced = self.remove(key.as_str());
        let ghost rest = self.entries@;
        self.entries.insert(0, (key, value));
        proof {
            assert(self.entries@.drop_first() =~= rest);
            assert(map_of(rest).insert(key@, value.deep_view()) =~= old(self).deep_view().insert(
                key@,
                value.deep_view(),
            ));
        }
    }

    /// Takes some key out of the map, with its value.
    pub fn take_first(&mut self) -> (entry: Option<(String, V)>)
        ensures
            match entry {
                Some((key, value)) => {
                    &&& old(self).deep_view().contains_key(key@)
                    &&& value.deep_view() == old(self).deep_view()[key@]
                    &&& final(self).deep_view() == old(self).deep_view().remove(key@)
                    &&& final(self).entries@.len() < old(self).entries@.len()
                },
                None => {
                    &&& old(self).deep_view() == Map::<Seq<char>, V::V>::empty()
                    &&& *final(self) == *old(self)
                },
            },
    {
        if self.entries.len() == 0 {
            return None;
        }
        let key = self.entries[0].0.clone();
        proof {
            lemma_listed(self.entries@, 0);
        }
        match self.remove(key.as_str()) {
            Some(value) => Some((key, value)),
            None => None,
        }
    }

    pub fn clear(&mut self)
        ensures
            final(self).deep_view() == Map::<Seq<char>, V::V>::empty(),
    {
        self.entries = Vec::new();
    }
}

/// A result, seen through the views of what it may hold.
pub open spec fn result_view<T: DeepView, E: DeepView>(result: Result<T, E>) -> Result<T::V, E::V> {
    match result {
        Ok(value) => Ok(value.deep_view()),
        Err(error) => Err(error.deep_view()),
    }
}

/// Appends an item to a list.
pub fn add_item<T: DeepView>(list: &mut Vec<T>, item: T)
    ensures
        final(list).deep_view() == old(list).deep_view().push(item.deep_view()),
        final(list)@.len() == old(list)@.len() + 1,
{
    list.push(item);
    assert(list.deep_view() =~= old(list).deep_view().push(item.deep_view()));
}

/// An empty list.
pub fn empty<T: DeepView>() -> (list: Vec<T>)
    ensures
        list.deep_view() == Seq::<T::V>::empty(),
        list@.len() == 0,
{
    let list: Vec<T> = Vec::new();
    assert(list.deep_view() =~= Seq::<T::V>::empty());
    list
}

/// A list of one item.
pub fn one<T: DeepView>(item: T) -> (list: Vec<T>)
    ensures
        list.deep_view() == seq![item.deep_view()],
{
    let list: Vec<T> = vec![item];
    assert(list.deep_view() =~= seq![item.deep_view()]);
    list
}

/// A list of two items.
pub fn two<T: DeepView>(first: T, second: T) -> (list: Vec<T>)
    ensures
        list.deep_view() == seq![first.deep_view(), second.deep_view()],
{
    let list: Vec<T> = vec![first, second];
    assert(list.deep_view() =~= seq![first.deep_view(), second.deep_view()]);
    list
}

/// A list of three items.
pub fn three<T: DeepView>(first: T, second: T, third: T) -> (list: Vec<T>)
    ensures
        list.deep_view() == seq![first.deep_view(), second.deep_view(), third.deep_view()],
{
    let list: Vec<T> = vec![first, second, third];
    assert(list.deep_view() =~= seq![
        first.deep_view(),
        second.deep_view(),
        third.deep_view(),
    ]);
    list
}

/// A set of texts.
#[derive(Debug)]
pub struct StringSet {
    pub items: Vec<String>,
}

impl DeepView for StringSet {
    type V = Set<Seq<char>>;

    open spec fn deep_view(&self) -> Set<Seq<char>> {
        self.items.deep_view().to_set()
    }
}

impl StringSet {
    pub fn new() -> (set: Self)
        ensures
            set.deep_view() == Set::<Seq<char>>::empty(),
    {
        let set = StringSet { items: Vec::new() };
        assert(set.deep_view() =~= Set::<Seq<char>>::empty());
        set
    }

    pub fn contains(&self, item: &str) -> (found: bool)
        ensures
            found == self.deep_view().contains(item@),
    {
        for i in 0..self.items.len()
            invariant
                forall|j: int| 0 <= j < i ==> self.items.deep_view()[j] != item@,
        {
            if same(self.items[i].as_str(), item) {
                assert(self.items.deep_view()[i as int] == item@);
                return true;
            }
        }
        false
    }

    /// Adds `item`; tells whether it was missing before.
    pub fn insert(&mut self, item: String) -> (added: bool)
        ensures
            added == !old(self).deep_view().contains(item@),
            final(self).deep_view() == old(self).deep_view().insert(item@),
    {
        if self.contains(item.as_str()) {
            assert(self.deep_view().insert(item@) =~= self.deep_view());
            return false;
        }
        let ghost before = self.items.deep_view();
        self.items.push(item);
        proof {
            let after = self.items.deep_view();
            assert(after =~= before.push(item@));
            assert forall|x: Seq<char>| after.contains(x) == (before.contains(x) || x == item@) by {
                assert(after[after.len() - 1] == item@);
                if before.contains(x) {
                    let i = choose|i: int| 0 <= i < before.len() && before[i] == x;
                    assert(after[i] == x);
                }
            }
            assert(self.deep_view() =~= before.to_set().insert(item@));
        }
        true
    }

    /// Takes `item` out; tells whether it was there.
    pub fn remove(&mut self, item: &str) -> (removed: bool)
        ensures
            removed == old(self).deep_view().contains(item@),
            final(self).deep_view() == old(self).deep_view().remove(item@),
    {
        let removed = self.contains(item);
        let mut i: usize = 0;
        while i < self.items.len()
            invariant
                i <= self.items@.len(),
                forall|j: int| 0 <= j < i ==> self.items.deep_view()[j] != item@,
                forall|x: Seq<char>|
                    x != item@ ==> #[trigger] self.items.deep_view().contains(x) == old(
                        self,
                    ).items.deep_view().contains(x),
            decreases self.items@.len() - i,
        {
            if same(self.items[i].as_str(), item) {
                let ghost before = self.items.deep_view();
                let _item = self.items.remove(i);
                proof {
                    let after = self.items.deep_view();
                    assert(after =~= before.remove(i as int));
                    assert forall|x: Seq<char>| x != item@ implies #[trigger] after.contains(x)
                        == before.contains(x) by {
                        if before.contains(x) {
                            let k = choose|k: int| 0 <= k < before.len() && before[k] == x;
                            if k < i {
                                assert(after[k] == x);
                            } else {
                                assert(after[k - 1] == x);
                            }
                        }
                        if after.contains(x) {
                            let k = choose|k: int| 0 <= k < after.len() && after[k] == x;
                            if k < i {
                                assert(before[k] == x);
                            } else {
                                assert(before[k + 1] == x);
                            }
                        }
                    }
                }
            } else {
                i += 1;
            }
        }
        proof {
            assert(!self.items.deep_view().contains(item@));
            assert(self.deep_view() =~= old(self).deep_view().remove(item@));
        }
        removed
    }
}

} // verus!
