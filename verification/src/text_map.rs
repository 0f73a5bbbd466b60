//! A map from text.
use vstd::prelude::*;
use vstd::string::*;

use crate::text::same_text;

verus! {

/// A map from text. What was added last under a key counts.
#[derive(Debug)]
pub struct TextMap<V> {
    entries: Vec<(String, V)>,
}

/// The map that entries make up, added one after the other.
pub open spec fn map_of<V>(entries: Seq<(String, V)>) -> Map<Seq<char>, V>
    decreases entries.len(),
{
    if entries.len() == 0 {
        Map::empty()
    } else {
        map_of(entries.drop_last()).insert(entries.last().0@, entries.last().1)
    }
}

impl<V> View for TextMap<V> {
    type V = Map<Seq<char>, V>;

    closed spec fn view(&self) -> Map<Seq<char>, V> {
        map_of(self.entries@)
    }
}

impl<V> TextMap<V> {
    pub fn new() -> (r: Self)
        ensures
            r@ == Map::<Seq<char>, V>::empty(),
    {
        TextMap { entries: Vec::new() }
    }

    /// Sets the value of a key.
    pub fn insert(&mut self, key: String, value: V)
        ensures
            final(self)@ == old(self)@.insert(key@, value),
    {
        let ghost before = self.entries@;
        self.entries.push((key, value));
        assert(self.entries@.drop_last() =~= before);
    }

    /// The value of a key.
    pub fn get(&self, key: &str) -> (r: Option<&V>)
        ensures
            match r {
                Some(v) => self@.contains_key(key@) && self@[key@] == *v,
                None => !self@.contains_key(key@),
            },
    {
        let mut i: usize = self.entries.len();
        assert(self.entries@.take(self.entries@.len() as int) =~= self.entries@);
        while i > 0
            invariant
                i <= self.entries@.len(),
                self@.contains_key(key@) == map_of(self.entries@.take(i as int)).contains_key(
                    key@,
                ),
                self@.contains_key(key@) ==> self@[key@] == map_of(
                    self.entries@.take(i as int),
                )[key@],
            decreases i,
        {
            let ghost upto = self.entries@.take(i as int);
            proof {
                assert(upto.drop_last() =~= self.entries@.take(i - 1));
                assert(upto.last() == self.entries@[i - 1]);
            }
            if same_text(self.entries[i - 1].0.as_str(), key) {
                return Some(&self.entries[i - 1].1);
            }
            i = i - 1;
        }
        assert(self.entries@.take(0) =~= Seq::<(String, V)>::empty());
        None
    }
}

/// What was set under a key is what is found under it, and nothing else is
/// changed; an empty map holds nothing.
pub proof fn law_map_holds_what_was_set(
    map: &mut TextMap<u64>,
    key: String,
    value: u64,
    done: (),
    fresh: TextMap<u64>,
    other: Seq<char>,
)
    requires
        call_ensures(TextMap::<u64>::insert, (map, key, value), done),
        call_ensures(TextMap::<u64>::new, (), fresh),
    ensures
        final(map)@.contains_key(key@) && final(map)@[key@] == value,
        other != key@ ==> (final(map)@.contains_key(other) <==> old(map)@.contains_key(other)) && (
        old(map)@.contains_key(other) ==> final(map)@[other] == old(map)@[other]),
        !fresh@.contains_key(other),
{
}

/// What was set under a key is what is found under it, and nothing is found
/// under a key that was not set.
pub proof fn law_map_finds_what_was_set(
    map: &mut TextMap<u64>,
    key: String,
    value: u64,
    done: (),
    name: &str,
    before: Option<&u64>,
    after: Option<&u64>,
    fresh: TextMap<u64>,
    none: Option<&u64>,
)
    requires
        call_ensures(TextMap::<u64>::insert, (map, key, value), done),
        call_ensures(TextMap::<u64>::get, (old(map), name), before),
        call_ensures(TextMap::<u64>::get, (final(map), name), after),
        call_ensures(TextMap::<u64>::new, (), fresh),
        call_ensures(TextMap::<u64>::get, (&fresh, name), none),
    ensures
        none is None,
        name@ == key@ ==> after == Some(&value),
        name@ != key@ ==> after == before,
{
}

} // verus!
