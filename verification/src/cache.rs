//! The cache of parsed policy documents, one per resource name at most.

use crate::model::PolicyDocument;
use crate::policy::Config;
use crate::text_map::TextMap;
use vstd::prelude::*;

verus! {

/// The documents that a map of cached configurations denotes.
pub open spec fn documents(slots: Map<Seq<char>, Config>) -> Map<Seq<char>, PolicyDocument> {
    Map::new(|name: Seq<char>| slots.contains_key(name), |name: Seq<char>| slots[name]@)
}

/// A cache from resource names to policy documents.
///
/// A fresh cache has not been started: it holds nothing, a lookup in it is a
/// miss and an invalidation leaves it as it is. The first `put` starts it.
/// A cached document is present or absent and carries no other mark of age:
/// it stays until it is overwritten or invalidated.
pub struct ConfigCache {
    slots: Option<TextMap<Config>>,
}

impl View for ConfigCache {
    type V = Map<Seq<char>, PolicyDocument>;

    closed spec fn view(&self) -> Map<Seq<char>, PolicyDocument> {
        match self.slots {
            Some(slots) => documents(slots@),
            None => Map::empty(),
        }
    }
}

impl ConfigCache {
    /// Whether the cache has been started by a first `put`.
    pub closed spec fn started(&self) -> bool {
        self.slots is Some
    }

    /// A cache that has not been started.
    pub fn new() -> (cache: Self)
        ensures
            !cache.started(),
            cache@ == Map::<Seq<char>, PolicyDocument>::empty(),
    {
        ConfigCache { slots: None }
    }

    /// Whether the cache has been started.
    pub fn is_started(&self) -> (yes: bool)
        ensures
            yes == self.started(),
    {
        self.slots.is_some()
    }

    /// The document cached under `name`, as a read-only view. A cache that
    /// has not been started misses.
    pub fn get(&self, name: &str) -> (hit: Option<&Config>)
        ensures
            match hit {
                Some(doc) => self@.contains_key(name@) && doc@ == self@[name@],
                None => !self@.contains_key(name@),
            },
            !self.started() ==> hit is None,
    {
        match &self.slots {
            Some(slots) => slots.get(name),
            None => None,
        }
    }

    /// Caches `doc` under `name`, in place of any document cached there, and
    /// starts the cache if need be.
    pub fn put(&mut self, name: &str, doc: Config)
        ensures
            final(self).started(),
            final(self)@ == old(self)@.insert(name@, doc@),
    {
        let mut slots = match self.slots.take() {
            Some(slots) => slots,
            None => TextMap::new(),
        };
        let ghost before = slots@;
        assert(documents(before) =~= old(self)@);
        slots.insert(name.to_owned(), doc);
        assert(documents(slots@) =~= documents(before).insert(name@, doc@));
        self.slots = Some(slots);
    }

    /// Drops the document cached under `name` and says whether there was
    /// one. Where none is cached, and in a cache that has not been started,
    /// nothing changes.
    pub fn invalidate(&mut self, name: &str) -> (dropped: bool)
        ensures
            final(self)@ == old(self)@.remove(name@),
            final(self).started() == old(self).started(),
            dropped == old(self)@.contains_key(name@),
            !dropped ==> final(self)@ == old(self)@,
    {
        match self.slots.take() {
            Some(slots) => {
                let mut slots = slots;
                let ghost before = slots@;
                let removed = slots.remove(name);
                assert(documents(slots@) =~= documents(before).remove(name@));
                self.slots = Some(slots);
                removed.is_some()
            },
            None => {
                assert(old(self)@.remove(name@) =~= old(self)@);
                false
            },
        }
    }
}

} // verus!
