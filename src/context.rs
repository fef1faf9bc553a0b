use vstd::prelude::*;
use crate::text::same_text;

verus! {

/// The value of the first entry of `entries` under `key`.
pub open spec fn lookup(entries: Seq<(Seq<char>, Seq<char>)>, key: Seq<char>) -> Option<Seq<char>>
    decreases entries.len(),
{
    if entries.len() == 0 {
        None
    } else if entries[0].0 == key {
        Some(entries[0].1)
    } else {
        lookup(entries.skip(1), key)
    }
}

/// The views of a list of key-value pairs.
pub open spec fn pairs_view(entries: Seq<(String, String)>) -> Seq<(Seq<char>, Seq<char>)> {
    entries.map_values(|e: (String, String)| (e.0@, e.1@))
}

/// The value of the first entry of `entries` under `key`.
pub fn find_entry<'a>(entries: &'a Vec<(String, String)>, key: &str) -> (r: Option<&'a String>)
    ensures
        r matches Some(v) ==> lookup(pairs_view(entries@), key@) == Some(v@),
        r is None ==> lookup(pairs_view(entries@), key@) is None,
{
    let ghost all = pairs_view(entries@);
    let mut i: usize = 0;
    assert(all.skip(0) =~= all);
    while i < entries.len()
        invariant
            i <= entries@.len(),
            all == pairs_view(entries@),
            lookup(all, key@) == lookup(all.skip(i as int), key@),
        decreases entries@.len() - i,
    {
        let e = &entries[i];
        assert(all.skip(i as int)[0] == (e.0@, e.1@));
        if same_text(e.0.as_str(), key) {
            return Some(&e.1);
        }
        assert(all.skip(i as int).skip(1) =~= all.skip(i + 1));
        i = i + 1;
    }
    None
}

/// The key-value data attached to a launched command and echoed back with
/// its result.
#[derive(Debug, Clone)]
pub struct PipelineContext {
    pub entries: Vec<(String, String)>,
}

impl View for PipelineContext {
    type V = Seq<(Seq<char>, Seq<char>)>;

    open spec fn view(&self) -> Seq<(Seq<char>, Seq<char>)> {
        pairs_view(self.entries@)
    }
}

impl PipelineContext {
    /// The value under `key`.
    pub open spec fn value_of(&self, key: Seq<char>) -> Option<Seq<char>> {
        lookup(self@, key)
    }

    /// A context with no entry.
    pub fn new() -> (r: PipelineContext)
        ensures
            r@.len() == 0,
    {
        PipelineContext { entries: Vec::new() }
    }

    /// Adds an entry under a key that the context does not hold yet.
    pub fn insert(&mut self, key: String, value: String)
        requires
            old(self).value_of(key@) is None,
        ensures
            final(self)@ == old(self)@.push((key@, value@)),
            final(self).value_of(key@) == Some(value@),
            forall|k: Seq<char>| k != key@ ==> #[trigger] final(self).value_of(k) == old(self).value_of(k),
    {
        let ghost k0 = key@;
        let ghost v0 = value@;
        self.entries.push((key, value));
        assert(self@ =~= old(self)@.push((k0, v0)));
        proof {
            lemma_lookup_push(old(self)@, k0, v0);
        }
    }

    /// The value under `key`.
    pub fn get(&self, key: &str) -> (r: Option<&String>)
        ensures
            r matches Some(v) ==> self.value_of(key@) == Some(v@),
            r is None ==> self.value_of(key@) is None,
    {
        find_entry(&self.entries, key)
    }
}

/// Appending an entry under a new key leaves every other lookup as it was.
proof fn lemma_lookup_push(
    entries: Seq<(Seq<char>, Seq<char>)>,
    key: Seq<char>,
    value: Seq<char>,
)
    requires
        lookup(entries, key) is None,
    ensures
        lookup(entries.push((key, value)), key) == Some(value),
        forall|k: Seq<char>| k != key ==> #[trigger] lookup(entries.push((key, value)), k)
            == lookup(entries, k),
    decreases entries.len(),
{
    if entries.len() > 0 {
        assert(entries.push((key, value)).skip(1) =~= entries.skip(1).push((key, value)));
        lemma_lookup_push(entries.skip(1), key, value);
        assert(entries.push((key, value))[0] == entries[0]);
        assert forall|k: Seq<char>| k != key implies #[trigger] lookup(
            entries.push((key, value)),
            k,
        ) == lookup(entries, k) by {
            assert(lookup(entries.skip(1).push((key, value)), k) == lookup(entries.skip(1), k));
        }
    } else {
        assert(entries.push((key, value)).skip(1) =~= entries);
        assert forall|k: Seq<char>| k != key implies #[trigger] lookup(
            entries.push((key, value)),
            k,
        ) == lookup(entries, k) by {
            assert(lookup(entries.push((key, value)).skip(1), k) == lookup(entries, k));
        }
    }
}

} // verus!
