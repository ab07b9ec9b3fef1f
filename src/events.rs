//! Raw notification records and their resolution into the paths they concern.
use vstd::prelude::*;
use crate::registry::{WatchHandle, WatchRegistry};

verus! {

/// One record read from the notification queue: the handle it fired on, and
/// the name of an entry inside a watched directory when the record comes from
/// directory-level monitoring.
#[derive(Debug, Clone, PartialEq, Eq)]
pub struct RawEvent {
    pub handle: WatchHandle,
    pub name: Option<String>,
}

/// The path a record concerns, and whether it came from directory-level
/// monitoring (an entry inside a watched directory) rather than from the
/// watched path itself.
#[derive(Debug, Clone, PartialEq, Eq)]
pub struct ResolvedPath {
    pub path: String,
    pub from_directory: bool,
}

/// A record as plain values: the handle and the embedded name, if any.
pub type RawEventModel = (WatchHandle, Option<Seq<char>>);

/// A resolved path as plain values: the path and the directory flag.
pub type ResolvedModel = (Seq<char>, bool);

impl View for RawEvent {
    type V = RawEventModel;

    open spec fn view(&self) -> RawEventModel {
        (
            self.handle,
            match self.name {
                Some(n) => Some(n@),
                None => None,
            },
        )
    }
}

impl View for ResolvedPath {
    type V = ResolvedModel;

    open spec fn view(&self) -> ResolvedModel {
        (self.path@, self.from_directory)
    }
}

/// The path a record concerns under the registry `m`: an embedded name
/// verbatim, marked as coming from a directory; otherwise the path the handle
/// was issued for, or the empty path for a handle with no entry.
pub open spec fn resolve_event(m: Map<WatchHandle, Seq<char>>, e: RawEventModel) -> ResolvedModel {
    match e.1 {
        Some(n) => (n, true),
        None => (
            if m.contains_key(e.0) {
                m[e.0]
            } else {
                Seq::<char>::empty()
            },
            false,
        ),
    }
}

/// The records of one read, resolved in order, without those that resolve
/// to the empty path.
pub open spec fn resolve_all(m: Map<WatchHandle, Seq<char>>, evs: Seq<RawEventModel>) -> Seq<
    ResolvedModel,
>
    decreases evs.len(),
{
    if evs.len() == 0 {
        Seq::empty()
    } else {
        let rest = resolve_all(m, evs.drop_last());
        let r = resolve_event(m, evs.last());
        if r.0.len() > 0 {
            rest.push(r)
        } else {
            rest
        }
    }
}

/// The views of a sequence of items.
pub open spec fn views<T: View>(s: Seq<T>) -> Seq<T::V> {
    s.map_values(|x: T| x@)
}

/// A record without an embedded name, on a handle that was issued for `p`,
/// resolves to exactly `p`, not marked as coming from a directory.
pub proof fn lemma_registered_path_resolves(
    m: Map<WatchHandle, Seq<char>>,
    h: WatchHandle,
    p: Seq<char>,
)
    ensures
        resolve_event(m.insert(h, p), (h, None)) == (p, false),
{
}

/// A record with an embedded name resolves to that name, marked as coming
/// from a directory, whatever the registry holds.
pub proof fn lemma_embedded_name_from_directory(
    m: Map<WatchHandle, Seq<char>>,
    h: WatchHandle,
    n: Seq<char>,
)
    ensures
        resolve_event(m, (h, Some(n))) == (n, true),
{
}

/// Resolves one record against the registry.
pub fn file_path(registry: &WatchRegistry, event: &RawEvent) -> (r: ResolvedPath)
    ensures
        r@ == resolve_event(registry@, event@),
{
    match &event.name {
        Some(name) => ResolvedPath { path: name.clone(), from_directory: true },
        None => match registry.resolve(event.handle) {
            Some(path) => ResolvedPath { path, from_directory: false },
            None => ResolvedPath { path: String::new(), from_directory: false },
        },
    }
}

/// Resolves all records of one read, in order, and drops those whose path is
/// empty (a handle with no entry and no embedded name).
pub fn resolve_events(registry: &WatchRegistry, events: &Vec<RawEvent>) -> (r: Vec<ResolvedPath>)
    ensures
        views(r@) == resolve_all(registry@, views(events@)),
{
    let mut out: Vec<ResolvedPath> = Vec::new();
    let mut i: usize = 0;
    while i < events.len()
        invariant
            0 <= i <= events@.len(),
            views(out@) == resolve_all(registry@, views(events@.subrange(0, i as int))),
        decreases events@.len() - i,
    {
        let resolved = file_path(registry, &events[i]);
        proof {
            let pre = events@.subrange(0, i as int);
            let next = events@.subrange(0, i + 1);
            assert(views(next).drop_last() =~= views(pre));
            assert(views(next).last() == events@[i as int]@);
        }
        let ghost before = out@;
        if !resolved.path.as_str().is_empty() {
            out.push(resolved);
            proof {
                assert(views(out@) =~= views(before).push(resolved@));
            }
        }
        i = i + 1;
    }
    proof {
        assert(events@.subrange(0, events@.len() as int) =~= events@);
    }
    out
}

} // verus!
