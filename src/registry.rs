//! The registry that maps watch handles back to the paths they watch.
use std::collections::HashMap;
use vstd::prelude::*;

verus! {

broadcast use vstd::std_specs::hash::group_hash_axioms;

/// The identifier that the notification facility issued when a path was
/// registered. It is meaningful only as a key.
pub type WatchHandle = i32;

/// Maps each handle that was issued to the path it was issued for. Entries
/// are never removed: a handle that was replaced by a newer one for the same
/// path is simply never queried again.
pub struct WatchRegistry {
    watch_map: HashMap<WatchHandle, String>,
}

impl View for WatchRegistry {
    type V = Map<WatchHandle, Seq<char>>;

    closed spec fn view(&self) -> Map<WatchHandle, Seq<char>> {
        self.watch_map@.map_values(|p: String| p@)
    }
}

impl WatchRegistry {
    /// A registry with no entries.
    pub fn new() -> (r: Self)
        ensures
            r@ == Map::<WatchHandle, Seq<char>>::empty(),
    {
        let r = WatchRegistry { watch_map: HashMap::new() };
        assert(r@ =~= Map::<WatchHandle, Seq<char>>::empty());
        r
    }

    /// Records the outcome of registering `path` with the notification
    /// facility. On success the new handle maps to `path` and is returned;
    /// on failure the error is handed back and the registry is unchanged.
    pub fn add<E>(&mut self, path: String, outcome: Result<WatchHandle, E>) -> (r: Result<
        WatchHandle,
        E,
    >)
        ensures
            r == outcome,
            outcome is Ok ==> final(self)@ == old(self)@.insert(outcome->Ok_0, path@),
            outcome is Err ==> final(self)@ == old(self)@,
    {
        match outcome {
            Ok(handle) => {
                let ghost p = path@;
                self.watch_map.insert(handle, path);
                proof {
                    assert(self@ =~= old(self)@.insert(handle, p));
                }
                Ok(handle)
            },
            Err(e) => Err(e),
        }
    }

    /// The path that `handle` was last issued for, if any.
    pub fn resolve(&self, handle: WatchHandle) -> (r: Option<String>)
        ensures
            r is Some <==> self@.contains_key(handle),
            r is Some ==> r->Some_0@ == self@[handle],
    {
        match self.watch_map.get(&handle) {
            Some(p) => Some(p.clone()),
            None => None,
        }
    }

    /// The number of handles ever recorded.
    pub fn len(&self) -> (r: usize)
        ensures
            r == self@.len(),
    {
        assert(self@.dom() =~= self.watch_map@.dom());
        self.watch_map.len()
    }
}

} // verus!
