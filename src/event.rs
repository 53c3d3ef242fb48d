//! Events, their names, and the string metadata that travels with them.
use vstd::prelude::*;

verus! {

/// The map that a list of entries describes: each key maps to the value of
/// its last entry.
pub open spec fn entries_map(s: Seq<(String, String)>) -> Map<Seq<char>, Seq<char>>
    decreases s.len(),
{
    if s.len() == 0 {
        Map::empty()
    } else {
        entries_map(s.drop_last()).insert(s.last().0@, s.last().1@)
    }
}

proof fn lemma_entries_map_dom(s: Seq<(String, String)>, k: Seq<char>)
    ensures
        entries_map(s).contains_key(k) <==> exists|i: int| 0 <= i < s.len() && s[i].0@ == k,
    decreases s.len(),
{
    if s.len() > 0 {
        lemma_entries_map_dom(s.drop_last(), k);
        if entries_map(s.drop_last()).contains_key(k) {
            let i = choose|i: int| 0 <= i < s.drop_last().len() && s.drop_last()[i].0@ == k;
            assert(s[i].0@ == k);
        }
        if exists|i: int| 0 <= i < s.len() && s[i].0@ == k {
            let i = choose|i: int| 0 <= i < s.len() && s[i].0@ == k;
            if i < s.len() - 1 {
                assert(s.drop_last()[i].0@ == k);
            }
        }
    }
}

proof fn lemma_entries_map_last(s: Seq<(String, String)>, i: int)
    requires
        0 <= i < s.len(),
        forall|j: int| i < j < s.len() ==> s[j].0@ != s[i].0@,
    ensures
        entries_map(s).contains_key(s[i].0@),
        entries_map(s)[s[i].0@] == s[i].1@,
    decreases s.len(),
{
    if i < s.len() - 1 {
        assert(s.drop_last()[i] == s[i]);
        lemma_entries_map_last(s.drop_last(), i);
    }
}

proof fn lemma_entries_map_remove(s: Seq<(String, String)>, i: int, k: Seq<char>)
    requires
        0 <= i < s.len(),
        s[i].0@ == k,
    ensures
        entries_map(s.remove(i)).remove(k) =~= entries_map(s).remove(k),
    decreases s.len(),
{
    if i == s.len() - 1 {
        assert(s.remove(i) =~= s.drop_last());
        assert(entries_map(s).remove(k) =~= entries_map(s.drop_last()).remove(k));
    } else {
        let t = s.remove(i);
        assert(t.drop_last() =~= s.drop_last().remove(i));
        assert(t.last() == s.last());
        lemma_entries_map_remove(s.drop_last(), i, k);
        assert(entries_map(t).remove(k) =~= entries_map(t.drop_last()).remove(k).insert(
            t.last().0@,
            t.last().1@,
        ).remove(k));
        assert(entries_map(s).remove(k) =~= entries_map(s.drop_last()).remove(k).insert(
            s.last().0@,
            s.last().1@,
        ).remove(k));
    }
}

/// Something that can be published: it has a stable name and a version.
/// Dispatch goes by the concrete type of the value, not by its name.
pub trait Event: Send + Sync + 'static {
    fn event_name(&self) -> &'static str;

    fn event_version(&self) -> &'static str {
        "1.0"
    }
}

/// An event that carries metadata of its own.
pub trait EventWithMetadata: Send + Sync + 'static {
    fn add_metadata(&mut self, key: String, value: String);

    fn get_metadata(&self, key: &str) -> Option<&String>;

    fn metadata(&self) -> &EventMetadata;

    /// Moves the metadata out of the event, leaving it empty.
    fn drain_metadata(&mut self) -> EventMetadata;
}

/// An event type whose name is known without a value of it.
pub trait EventName {
    fn static_event_name() -> &'static str;
}

/// An event of the application's domain.
pub trait DomainEvent: Event {}

/// String metadata carried by an event: a map from key to value.
#[derive(Clone, Debug)]
pub struct EventMetadata {
    entries: Vec<(String, String)>,
}

impl View for EventMetadata {
    type V = Map<Seq<char>, Seq<char>>;

    closed spec fn view(&self) -> Map<Seq<char>, Seq<char>> {
        entries_map(self.entries@)
    }
}

impl EventMetadata {
    /// Metadata with no entries.
    pub fn new() -> (r: EventMetadata)
        ensures
            r@ == Map::<Seq<char>, Seq<char>>::empty(),
    {
        EventMetadata { entries: Vec::new() }
    }

    /// Sets `key` to `value`, replacing any earlier value of `key`.
    pub fn add(&mut self, key: String, value: String)
        ensures
            final(self)@ == old(self)@.insert(key@, value@),
    {
        let ghost s = self.entries@;
        let mut i: usize = 0;
        while i < self.entries.len()
            invariant
                i <= self.entries.len(),
                entries_map(self.entries@).remove(key@) == entries_map(s).remove(key@),
                forall|j: int| 0 <= j < i ==> self.entries@[j].0@ != key@,
            decreases self.entries.len() - i,
        {
            if self.entries[i].0 == key {
                proof {
                    lemma_entries_map_remove(self.entries@, i as int, key@);
                }
                self.entries.remove(i);
            } else {
                i = i + 1;
            }
        }
        let ghost kept = self.entries@;
        proof {
            lemma_entries_map_dom(kept, key@);
            assert(entries_map(kept) =~= entries_map(kept).remove(key@));
        }
        self.entries.push((key, value));
        assert(self.entries@.drop_last() =~= kept);
        assert(entries_map(self.entries@) =~= entries_map(s).insert(key@, value@));
    }

    /// The value of `key`, if it has one.
    pub fn get(&self, key: &str) -> (r: Option<&String>)
        ensures
            r matches Some(v) ==> self@.contains_key(key@) && self@[key@] == v@,
            r is None ==> !self@.contains_key(key@),
    {
        let wanted = key.to_owned();
        let mut i: usize = self.entries.len();
        while i > 0
            invariant
                i <= self.entries.len(),
                wanted@ == key@,
                forall|j: int| i <= j < self.entries.len() ==> self.entries@[j].0@ != key@,
            decreases i,
        {
            i = i - 1;
            if self.entries[i].0 == wanted {
                proof {
                    lemma_entries_map_last(self.entries@, i as int);
                }
                return Some(&self.entries[i].1);
            }
        }
        proof {
            lemma_entries_map_dom(self.entries@, key@);
        }
        None
    }

    /// Empties the metadata and returns what it held.
    pub fn drain(&mut self) -> (r: EventMetadata)
        ensures
            r@ == old(self)@,
            final(self)@ == Map::<Seq<char>, Seq<char>>::empty(),
    {
        let mut taken: Vec<(String, String)> = Vec::new();
        taken.append(&mut self.entries);
        assert(taken@ =~= old(self).entries@);
        EventMetadata { entries: taken }
    }

    /// The entries, in the order they were added; a key that occurs twice
    /// has the value of its last entry.
    pub fn entries(&self) -> (r: &Vec<(String, String)>)
        ensures
            entries_map(r@) == self@,
    {
        &self.entries
    }
}

impl Default for EventMetadata {
    fn default() -> (r: EventMetadata)
        ensures
            r@ == Map::<Seq<char>, Seq<char>>::empty(),
    {
        EventMetadata::new()
    }
}

} // verus!
