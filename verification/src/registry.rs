//! The window registry: which service has a native window, and what is known
//! of that window. The registry is bookkeeping only; it never touches a
//! native resource.

use crate::geometry::Bounds;
use crate::naming::{law_window_labels_distinct, spec_window_label, window_label};
use crate::platform::{spec_is_embedded, PlatformProfile, WindowState};
use vstd::prelude::*;

verus! {

/// What the registry knows of one service window.
#[derive(Clone, Copy, Debug, PartialEq, Eq, Structural)]
pub struct WindowInfo {
    /// The logical bounds that were applied last.
    pub bounds: Bounds,
    /// The window's native state.
    pub state: WindowState,
}

/// The record of one service window, as a lookup hands it out.
#[derive(Clone, Debug, PartialEq, Eq)]
pub struct ServiceWindowRecord {
    /// The service the window belongs to.
    pub id: String,
    /// The handle of the native window: the label under which the host
    /// knows it.
    pub label: String,
    /// Whether the window is embedded.
    pub embedded: bool,
    /// The logical bounds that were applied last.
    pub bounds: Bounds,
    /// The window's native state.
    pub state: WindowState,
}

struct Entry {
    id: String,
    info: WindowInfo,
}

/// The registry of the service windows of one application.
pub struct Registry {
    profile: PlatformProfile,
    entries: Vec<Entry>,
}

/// The record that a lookup of `id` hands out when the registry holds `info`
/// for it.
pub open spec fn spec_record_matches(
    record: ServiceWindowRecord,
    profile: PlatformProfile,
    id: Seq<char>,
    info: WindowInfo,
) -> bool {
    &&& record.id@ == id
    &&& record.label@ == spec_window_label(id)
    &&& record.embedded == spec_is_embedded(profile.variant, info.state)
    &&& record.bounds == info.bounds
    &&& record.state == info.state
}

/// In a sequence without duplicates an item is found where it stands.
proof fn lemma_found_where_it_stands(ids: Seq<Seq<char>>, at: int)
    requires
        ids.no_duplicates(),
        0 <= at < ids.len(),
    ensures
        ids.contains(ids[at]),
        ids.index_of(ids[at]) == at,
{
    let chosen = ids.index_of(ids[at]);
    assert(0 <= chosen < ids.len() && ids[chosen] == ids[at]);
}

impl Registry {
    spec fn ids(&self) -> Seq<Seq<char>> {
        self.entries@.map_values(|entry: Entry| entry.id@)
    }

    #[verifier::type_invariant]
    spec fn at_most_one_entry_per_id(&self) -> bool {
        self.ids().no_duplicates()
    }

    /// The registry as a map from service identifiers to what is known of
    /// their windows. A map holds at most one value per key: there is at most
    /// one window per service.
    pub closed spec fn view(&self) -> Map<Seq<char>, WindowInfo> {
        Map::new(
            |id: Seq<char>| self.ids().contains(id),
            |id: Seq<char>| self.entries@[self.ids().index_of(id)].info,
        )
    }

    /// The platform the registry was made for.
    pub closed spec fn spec_profile(&self) -> PlatformProfile {
        self.profile
    }

    /// An empty registry for a platform.
    pub fn new(profile: PlatformProfile) -> (registry: Registry)
        ensures
            registry@ == Map::<Seq<char>, WindowInfo>::empty(),
            registry.spec_profile() == profile,
    {
        let registry = Registry { profile, entries: Vec::new() };
        assert(registry.ids() =~= Seq::<Seq<char>>::empty());
        assert(registry@ =~= Map::<Seq<char>, WindowInfo>::empty());
        registry
    }

    /// The platform the registry was made for.
    pub fn profile(&self) -> (profile: PlatformProfile)
        ensures
            profile == self.spec_profile(),
    {
        self.profile
    }

    /// The number of service windows.
    pub fn len(&self) -> (count: usize)
        ensures
            self@.dom().finite(),
            count == self@.dom().len(),
    {
        proof {
            use_type_invariant(self);
            self.ids().unique_seq_to_set();
            assert(self@.dom() =~= self.ids().to_set());
        }
        self.entries.len()
    }

    fn position(&self, id: &str) -> (found: Option<usize>)
        ensures
            match found {
                Some(index) => index < self.entries@.len() && self.ids()[index as int] == id@
                    && self.ids().index_of(id@) == index,
                None => !self.ids().contains(id@),
            },
    {
        proof {
            use_type_invariant(self);
        }
        let wanted = id.to_owned();
        let mut index: usize = 0;
        while index < self.entries.len()
            invariant
                index <= self.entries@.len(),
                wanted@ == id@,
                self.ids().len() == self.entries@.len(),
                self.ids().no_duplicates(),
                forall|k: int| 0 <= k < index ==> self.ids()[k] != id@,
            decreases self.entries@.len() - index,
        {
            if self.entries[index].id == wanted {
                proof {
                    lemma_found_where_it_stands(self.ids(), index as int);
                }
                return Some(index);
            }
            index = index + 1;
        }
        None
    }

    /// Whether a service has a window.
    pub fn contains(&self, id: &str) -> (present: bool)
        ensures
            present == self@.contains_key(id@),
    {
        self.position(id).is_some()
    }

    /// The record of a service's window, or none.
    pub fn lookup(&self, id: &str) -> (found: Option<ServiceWindowRecord>)
        ensures
            found is Some <==> self@.contains_key(id@),
            found matches Some(record) ==> spec_record_matches(
                record,
                self.spec_profile(),
                id@,
                self@[id@],
            ),
    {
        match self.position(id) {
            Some(index) => {
                let info = self.entries[index].info;
                Some(
                    ServiceWindowRecord {
                        id: id.to_owned(),
                        label: window_label(id),
                        embedded: info.state.is_embedded(self.profile.variant),
                        bounds: info.bounds,
                        state: info.state,
                    },
                )
            },
            None => None,
        }
    }

    /// What is known of a service's window, or none.
    pub fn info(&self, id: &str) -> (found: Option<WindowInfo>)
        ensures
            found == (if self@.contains_key(id@) {
                Some(self@[id@])
            } else {
                None
            }),
    {
        match self.position(id) {
            Some(index) => Some(self.entries[index].info),
            None => None,
        }
    }

    /// Records a window for a service that has none. A service that has a
    /// window keeps its record; the result says whether the record was added.
    pub fn insert(&mut self, id: &str, info: WindowInfo) -> (added: bool)
        ensures
            added == !old(self)@.contains_key(id@),
            final(self)@ == (if old(self)@.contains_key(id@) {
                old(self)@
            } else {
                old(self)@.insert(id@, info)
            }),
            final(self).spec_profile() == old(self).spec_profile(),
    {
        proof {
            use_type_invariant(&*self);
        }
        match self.position(id) {
            Some(_) => false,
            None => {
                let ghost before = *self;
                let entry = Entry { id: id.to_owned(), info };
                proof {
                    let after = before.entries@.push(entry);
                    let after_ids = after.map_values(|entry: Entry| entry.id@);
                    assert(after_ids =~= before.ids().push(id@));
                    assert(after_ids.no_duplicates());
                }
                let mut entries: Vec<Entry> = Vec::new();
                core::mem::swap(&mut self.entries, &mut entries);
                entries.push(entry);
                self.entries = entries;
                proof {
                    assert(self.ids() =~= before.ids().push(id@));
                    assert forall|key: Seq<char>| #[trigger]
                        before.ids().contains(key) implies self.ids().contains(key)
                        && self.ids().index_of(key) == before.ids().index_of(key) by {
                        let at = before.ids().index_of(key);
                        assert(self.ids()[at] == key);
                        lemma_found_where_it_stands(self.ids(), at);
                    }
                    lemma_found_where_it_stands(self.ids(), before.ids().len() as int);
                    assert forall|key: Seq<char>| #[trigger]
                        self.ids().contains(key) implies key == id@ || before.ids().contains(
                        key,
                    ) by {
                        let at = self.ids().index_of(key);
                        if at < before.ids().len() {
                            assert(before.ids()[at] == key);
                        }
                    }
                    assert(self.ids()[before.ids().len() as int] == id@);
                    assert(self@ =~= before@.insert(id@, info));
                }
                true
            },
        }
    }

    /// Replaces what is known of a service's window. A service without a
    /// window gets none; the result says whether there was a record.
    pub fn update(&mut self, id: &str, info: WindowInfo) -> (present: bool)
        ensures
            present == old(self)@.contains_key(id@),
            final(self)@ == (if old(self)@.contains_key(id@) {
                old(self)@.insert(id@, info)
            } else {
                old(self)@
            }),
            final(self).spec_profile() == old(self).spec_profile(),
    {
        proof {
            use_type_invariant(&*self);
        }
        match self.position(id) {
            Some(index) => {
                let ghost before = *self;
                let entry = Entry { id: id.to_owned(), info };
                proof {
                    let after = before.entries@.update(index as int, entry);
                    let after_ids = after.map_values(|entry: Entry| entry.id@);
                    assert(after_ids =~= before.ids());
                }
                let mut entries: Vec<Entry> = Vec::new();
                core::mem::swap(&mut self.entries, &mut entries);
                entries.set(index, entry);
                self.entries = entries;
                proof {
                    assert(self.ids() =~= before.ids());
                    assert(self@ =~= before@.insert(id@, info));
                }
                true
            },
            None => false,
        }
    }

    /// Deletes the record of a service's window, if there is one; the result
    /// says whether there was.
    pub fn remove(&mut self, id: &str) -> (present: bool)
        ensures
            present == old(self)@.contains_key(id@),
            final(self)@ == old(self)@.remove(id@),
            final(self).spec_profile() == old(self).spec_profile(),
    {
        proof {
            use_type_invariant(&*self);
        }
        match self.position(id) {
            Some(index) => {
                let ghost before = *self;
                proof {
                    let after = before.entries@.remove(index as int);
                    let after_ids = after.map_values(|entry: Entry| entry.id@);
                    assert(after_ids =~= before.ids().remove(index as int));
                    assert(after_ids.no_duplicates());
                }
                let mut entries: Vec<Entry> = Vec::new();
                core::mem::swap(&mut self.entries, &mut entries);
                entries.remove(index);
                self.entries = entries;
                proof {
                    let removed = index as int;
                    assert(self.ids() =~= before.ids().remove(removed));
                    assert forall|key: Seq<char>| key != id@ && #[trigger]
                        before.ids().contains(key) implies self.ids().contains(key)
                        && self.entries@[self.ids().index_of(key)].info
                        == before.entries@[before.ids().index_of(key)].info by {
                        let at = before.ids().index_of(key);
                        let moved = if at < removed {
                            at
                        } else {
                            at - 1
                        };
                        assert(self.ids()[moved] == key);
                        lemma_found_where_it_stands(self.ids(), moved);
                    }
                    assert forall|key: Seq<char>| #[trigger]
                        self.ids().contains(key) implies key != id@ && before.ids().contains(
                        key,
                    ) by {
                        let now = self.ids().index_of(key);
                        let was = if now < removed {
                            now
                        } else {
                            now + 1
                        };
                        assert(before.ids()[was] == key);
                    }
                    assert(self@ =~= before@.remove(id@));
                }
                true
            },
            None => {
                assert(self@ =~= self@.remove(id@));
                false
            },
        }
    }
}

/// A native window is never shared: the records of two services carry
/// different handles.
pub proof fn law_handles_never_shared(
    one: ServiceWindowRecord,
    other: ServiceWindowRecord,
    profile: PlatformProfile,
    one_info: WindowInfo,
    other_info: WindowInfo,
)
    requires
        spec_record_matches(one, profile, one.id@, one_info),
        spec_record_matches(other, profile, other.id@, other_info),
        one.id@ != other.id@,
    ensures
        one.label@ != other.label@,
{
    law_window_labels_distinct(one.id@, other.id@);
}

} // verus!
