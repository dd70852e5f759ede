//! The backends that players can choose from.
use crate::backends::{by_name, names_differ, with_entry, without_entry, BackendMap, Listing};
use crate::config::{BackendServer, BackendServerView};
use vstd::prelude::*;

verus! {

/// Registry of backend servers, supporting both static (from settings) and dynamic (from k8s)
/// backends.
#[derive(Debug)]
pub struct BackendRegistry {
    /// Static backends from the settings file (e.g., master, dev)
    static_backends: BackendMap,
    /// Dynamic backends from k8s (e.g., PR instances)
    dynamic_backends: BackendMap,
}

/// The backends in a [`BackendRegistry`].
#[verifier::ext_equal]
pub struct RegistryView {
    /// The backends from the settings file.
    pub fixed: Map<Seq<char>, BackendServerView>,
    /// The backends that came later.
    pub dynamic: Map<Seq<char>, BackendServerView>,
}

impl RegistryView {
    /// Whether a backend has this name.
    pub open spec fn has(self, name: Seq<char>) -> bool {
        self.dynamic.contains_key(name) || self.fixed.contains_key(name)
    }

    /// The backend of this name; a dynamic one goes before a static one.
    pub open spec fn find(self, name: Seq<char>) -> Option<BackendServerView> {
        if self.dynamic.contains_key(name) {
            Some(self.dynamic[name])
        } else if self.fixed.contains_key(name) {
            Some(self.fixed[name])
        } else {
            None
        }
    }

    /// The registry after the dynamic backend was added.
    pub open spec fn with_dynamic(self, name: Seq<char>, b: BackendServerView) -> RegistryView {
        RegistryView { fixed: self.fixed, dynamic: self.dynamic.insert(name, b) }
    }

    /// The registry without the dynamic backend.
    pub open spec fn without_dynamic(self, name: Seq<char>) -> RegistryView {
        RegistryView { fixed: self.fixed, dynamic: self.dynamic.remove(name) }
    }
}

impl View for BackendRegistry {
    type V = RegistryView;

    open spec fn view(&self) -> RegistryView {
        RegistryView {
            fixed: by_name(self.static_listing()),
            dynamic: by_name(self.dynamic_listing()),
        }
    }
}

/// The names and backends in a row of references.
pub open spec fn row_view(row: Seq<(&String, &BackendServer)>) -> Listing {
    row.map_values(|e: (&String, &BackendServer)| (e.0@, e.1@))
}

impl BackendRegistry {
    /// The static backends as they are listed.
    pub closed spec fn static_listing(&self) -> Listing {
        self.static_backends.listing()
    }

    /// The dynamic backends as they are listed.
    pub closed spec fn dynamic_listing(&self) -> Listing {
        self.dynamic_backends.listing()
    }

    /// A registry with these static backends and no dynamic one.
    pub fn new(static_backends: BackendMap) -> (r: Self)
        ensures
            r@ == (RegistryView { fixed: static_backends@, dynamic: Map::empty() }),
            r.static_listing() == static_backends.listing(),
            r.dynamic_listing() == Listing::empty(),
    {
        BackendRegistry { static_backends, dynamic_backends: BackendMap::new() }
    }

    /// Get a backend by name, checking dynamic backends first
    pub fn get(&self, name: &str) -> (r: Option<&BackendServer>)
        ensures
            match r {
                Some(b) => self@.find(name@) == Some(b@),
                None => self@.find(name@) is None,
            },
    {
        match self.dynamic_backends.get(name) {
            Some(b) => Some(b),
            None => self.static_backends.get(name),
        }
    }

    /// Check if a backend exists
    pub fn contains(&self, name: &str) -> (r: bool)
        ensures
            r == self@.has(name@),
    {
        self.dynamic_backends.contains_key(name) || self.static_backends.contains_key(name)
    }

    /// List all backends (static and dynamic)
    pub fn iter(&self) -> (r: Vec<(&String, &BackendServer)>)
        ensures
            row_view(r@) == self.static_listing() + self.dynamic_listing(),
            names_differ(self.static_listing()),
            names_differ(self.dynamic_listing()),
    {
        let mut row: Vec<(&String, &BackendServer)> = Vec::new();
        let n: usize = self.static_backends.len();
        let m: usize = self.dynamic_backends.len();
        let mut i: usize = 0;
        while i < n
            invariant
                i <= n,
                n == self.static_listing().len(),
                row_view(row@) == self.static_listing().take(i as int),
            decreases n - i,
        {
            let e = self.static_backends.entry(i);
            let ghost before = row@;
            row.push(e);
            assert(row_view(row@) =~= row_view(before).push((e.0@, e.1@)));
            assert(row_view(row@) =~= self.static_listing().take(i + 1));
            i = i + 1;
        }
        assert(self.static_listing().take(n as int) =~= self.static_listing());
        let mut j: usize = 0;
        assert(row_view(row@) =~= self.static_listing() + self.dynamic_listing().take(0));
        while j < m
            invariant
                j <= m,
                m == self.dynamic_listing().len(),
                row_view(row@) == self.static_listing() + self.dynamic_listing().take(j as int),
            decreases m - j,
        {
            let e = self.dynamic_backends.entry(j);
            let ghost before = row@;
            row.push(e);
            assert(row_view(row@) =~= row_view(before).push((e.0@, e.1@)));
            assert(row_view(row@) =~= self.static_listing() + self.dynamic_listing().take(j + 1));
            j = j + 1;
        }
        assert(self.dynamic_listing().take(m as int) =~= self.dynamic_listing());
        row
    }

    /// Add a dynamic backend
    pub fn add_dynamic(&mut self, name: String, backend: BackendServer)
        ensures
            final(self)@ == old(self)@.with_dynamic(name@, backend@),
            final(self).static_listing() == old(self).static_listing(),
            final(self).dynamic_listing() == with_entry(
                old(self).dynamic_listing(),
                name@,
                backend@,
            ),
    {
        self.dynamic_backends.insert(name, backend);
    }

    /// Remove a dynamic backend
    pub fn remove_dynamic(&mut self, name: &str) -> (r: Option<BackendServer>)
        ensures
            final(self)@ == old(self)@.without_dynamic(name@),
            final(self).static_listing() == old(self).static_listing(),
            final(self).dynamic_listing() == without_entry(
                old(self).dynamic_listing(),
                name@,
            ),
            match r {
                Some(b) => old(self)@.dynamic.contains_key(name@) && old(self)@.dynamic[name@]
                    == b@,
                None => !old(self)@.dynamic.contains_key(name@),
            },
    {
        self.dynamic_backends.remove(name)
    }
}

/// A backend is there under a name exactly where the name is known.
pub proof fn known_names_are_found(r: RegistryView, name: Seq<char>)
    ensures
        r.has(name) <==> r.find(name) is Some,
{
}

/// A dynamic backend hides a static one of its name; once it is removed, the static one is found
/// again, and no other name is affected on the way.
pub proof fn removal_restores_static(
    r: RegistryView,
    name: Seq<char>,
    b: BackendServerView,
    other: Seq<char>,
)
    ensures
        r.with_dynamic(name, b).find(name) == Some(b),
        !r.dynamic.contains_key(name) ==> r.with_dynamic(name, b).without_dynamic(name) == r,
        r.fixed.contains_key(name) ==> r.without_dynamic(name).find(name) == Some(r.fixed[name]),
        other != name ==> r.with_dynamic(name, b).find(other) == r.find(other),
        other != name ==> r.without_dynamic(name).find(other) == r.find(other),
{
    if !r.dynamic.contains_key(name) {
        assert(r.with_dynamic(name, b).without_dynamic(name).dynamic =~= r.dynamic);
    }
}

} // verus!
