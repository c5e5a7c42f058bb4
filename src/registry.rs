//! The registry of predictors, one per display, created on first use and
//! kept for the registry's lifetime. Callers that share a registry across
//! threads serialise access to it (behind a mutex, say), so the test for an
//! entry and its creation are one step.
use dashmap::mapref::entry::Entry;
use dashmap::DashMap;
use vstd::prelude::*;

use crate::predictor::FramePredictor;
use crate::state::FrameState;
use crate::DisplayID;

verus! {

/// `dashmap::DashMap`, carried as an opaque value whose contents are given
/// by [`links_of`].
#[verifier::external_type_specification]
#[verifier::external_body]
#[verifier::reject_recursive_types(K)]
#[verifier::reject_recursive_types(V)]
#[verifier::reject_recursive_types(S)]
pub struct ExDashMap<K, V, S>(DashMap<K, V, S>);

/// The concurrent map that holds the entries.
pub type LinkMap = DashMap<DisplayID, FramePredictor>;

/// The entries of the map, by display.
pub uninterp spec fn links_of(m: LinkMap) -> Map<DisplayID, FramePredictor>;

/// Relies on `dashmap::DashMap::new`: an empty map.
#[verifier::external_body]
fn new_map() -> (r: LinkMap)
    ensures
        links_of(r).is_empty(),
{
    DashMap::new()
}

/// Relies on `dashmap::DashMap::entry`: a vacant entry stores `fresh` under
/// `display`; an occupied one leaves the map as it was. Returns whether
/// `fresh` was stored.
#[verifier::external_body]
fn insert_if_absent(map: &mut LinkMap, display: DisplayID, fresh: FramePredictor) -> (r: bool)
    ensures
        r == !links_of(*old(map)).contains_key(display),
        r ==> links_of(*final(map)) == links_of(*old(map)).insert(display, fresh),
        !r ==> links_of(*final(map)) == links_of(*old(map)),
{
    match map.entry(display) {
        Entry::Occupied(_) => false,
        Entry::Vacant(entry) => {
            entry.insert(fresh);
            true
        },
    }
}

/// Relies on `dashmap::DashMap::get`: a copy of the predictor stored under
/// `display`, if there is one.
#[verifier::external_body]
fn lookup(map: &LinkMap, display: DisplayID) -> (r: Option<FramePredictor>)
    ensures
        r == (if links_of(*map).contains_key(display) {
            Some(links_of(*map)[display])
        } else {
            None::<FramePredictor>
        }),
{
    map.get(&display).map(|entry| *entry.value())
}

/// Relies on `dashmap::DashMap::insert`: stores `predictor` under `display`,
/// replacing what was there, and leaves the other entries.
#[verifier::external_body]
fn store(map: &mut LinkMap, display: DisplayID, predictor: FramePredictor)
    ensures
        links_of(*final(map)) == links_of(*old(map)).insert(display, predictor),
{
    map.insert(display, predictor);
}

/// Relies on `dashmap::DashMap::remove`: takes out the entry of `display`,
/// if there is one, and leaves the others.
#[verifier::external_body]
fn remove_entry(map: &mut LinkMap, display: DisplayID)
    ensures
        links_of(*final(map)) == links_of(*old(map)).remove(display),
{
    map.remove(&display);
}

/// Map from display to its predictor.
pub struct DisplayRegistry {
    links: LinkMap,
}

impl View for DisplayRegistry {
    type V = Map<DisplayID, FramePredictor>;

    closed spec fn view(&self) -> Map<DisplayID, FramePredictor> {
        links_of(self.links)
    }
}

impl DisplayRegistry {
    /// A registry that holds no display yet.
    pub fn new() -> (r: DisplayRegistry)
        ensures
            r@ == Map::<DisplayID, FramePredictor>::empty(),
    {
        DisplayRegistry { links: new_map() }
    }

    /// The predictor of `display`, and whether this call created it: it is
    /// created, with no callback seen, and stored exactly when the display
    /// has none yet. The caller that creates it, and only that one, is to
    /// start the display's hardware link. Other displays' entries are left
    /// as they were.
    pub fn get_or_create(&mut self, display: DisplayID) -> (r: (FramePredictor, bool))
        ensures
            r.1 == !old(self)@.contains_key(display),
            r.1 ==> final(self)@ == old(self)@.insert(display, r.0),
            r.1 ==> r.0@ == FrameState::spec_empty(),
            !r.1 ==> final(self)@ == old(self)@,
            r.0 == final(self)@[display],
    {
        let fresh = FramePredictor::new();
        let created = insert_if_absent(&mut self.links, display, fresh);
        if created {
            (fresh, true)
        } else {
            match lookup(&self.links, display) {
                Some(p) => (p, false),
                None => {
                    proof {
                        assert(false);
                    }
                    (fresh, false)
                },
            }
        }
    }

    /// Records a refresh callback of `display` that reports `reported` as
    /// the time of its upcoming refresh. Only that display's state changes;
    /// a display without a predictor is left out, and `false` returned.
    pub fn on_refresh(&mut self, display: DisplayID, reported: u128) -> (r: bool)
        ensures
            r == old(self)@.contains_key(display),
            r ==> final(self)@ == old(self)@.insert(display, final(self)@[display]),
            r ==> final(self)@[display]@ == old(self)@[display]@.spec_after_refresh(reported),
            !r ==> final(self)@ == old(self)@,
    {
        match lookup(&self.links, display) {
            Some(p) => {
                let mut p = p;
                p.on_refresh(reported);
                store(&mut self.links, display, p);
                true
            },
            None => false,
        }
    }

    /// Takes out the predictor of `display` after its hardware link could
    /// not be started, so that the next query creates it again.
    pub fn discard_failed(&mut self, display: DisplayID)
        ensures
            final(self)@ == old(self)@.remove(display),
    {
        remove_entry(&mut self.links, display);
    }
}

/// Once a display has been given a predictor, the registry holds it: a
/// later request for that display creates nothing and is handed the same
/// predictor, and no other display's entry has changed.
pub proof fn lemma_created_once(
    before: Map<DisplayID, FramePredictor>,
    display: DisplayID,
    created: FramePredictor,
    other: DisplayID,
)
    requires
        !before.contains_key(display),
        other != display,
    ensures
        before.insert(display, created).contains_key(display),
        before.insert(display, created)[display] == created,
        before.insert(display, created).contains_key(other) == before.contains_key(other),
        before.contains_key(other) ==> before.insert(display, created)[other] == before[other],
        before.insert(display, created).insert(display, created) == before.insert(display, created),
{
    assert(before.insert(display, created).insert(display, created) =~= before.insert(display, created));
}

/// A failed start followed by its discard leaves the registry as it was
/// before the display was asked for, so the next request creates again.
pub proof fn lemma_discard_restores(
    before: Map<DisplayID, FramePredictor>,
    display: DisplayID,
    created: FramePredictor,
)
    requires
        !before.contains_key(display),
    ensures
        before.insert(display, created).remove(display) == before,
        !before.insert(display, created).remove(display).contains_key(display),
{
    assert(before.insert(display, created).remove(display) =~= before);
}

} // verus!
