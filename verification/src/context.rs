//! The persistent storage that a service offers its operations.

use vstd::hash_map::StringHashMap;
use vstd::prelude::*;

verus! {

/// Key/value storage kept for the lifetime of a service.
pub struct Context {
    storage: StringHashMap<String>,
}

impl View for Context {
    type V = Map<Seq<char>, Seq<char>>;

    /// The stored values, by key.
    closed spec fn view(&self) -> Map<Seq<char>, Seq<char>> {
        self.storage@.map_values(|value: String| value@)
    }
}

impl Context {
    /// A context with nothing stored.
    pub fn new() -> (r: Context)
        ensures
            r@ == Map::<Seq<char>, Seq<char>>::empty(),
    {
        let r = Context { storage: StringHashMap::new() };
        assert(r@ =~= Map::<Seq<char>, Seq<char>>::empty());
        r
    }

    /// The value stored under `name`; the empty string where there is none.
    pub fn get(&self, name: &str) -> (r: String)
        ensures
            r@ == if self@.contains_key(name@) {
                self@[name@]
            } else {
                Seq::<char>::empty()
            },
    {
        match self.storage.get(name) {
            Some(value) => value.clone(),
            None => String::new(),
        }
    }

    /// Stores `value` under `key`, in place of what was stored there.
    pub fn set(&mut self, key: &str, value: &str)
        ensures
            final(self)@ == old(self)@.insert(key@, value@),
    {
        self.storage.insert(key.to_owned(), value.to_owned());
        assert(self@ =~= old(self)@.insert(key@, value@));
    }

    /// Removes `name` and its value. Nothing changes where `name` is not
    /// stored.
    pub fn clear(&mut self, name: &str)
        ensures
            final(self)@ == old(self)@.remove(name@),
    {
        self.storage.remove(name);
        assert(self@ =~= old(self)@.remove(name@));
    }

    /// Removes every key and value.
    pub fn clear_all(&mut self)
        ensures
            final(self)@ == Map::<Seq<char>, Seq<char>>::empty(),
    {
        self.storage.clear();
        assert(self@ =~= Map::<Seq<char>, Seq<char>>::empty());
    }
}

} // verus!
