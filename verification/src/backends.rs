//! Backend servers by name.
use crate::config::{BackendServer, BackendServerView};
use crate::text::same_text;
use vstd::prelude::*;

verus! {

/// A row of backends with their names.
pub type Listing = Seq<(Seq<char>, BackendServerView)>;

/// Whether `name` stands in the row.
pub open spec fn listed(row: Listing, name: Seq<char>) -> bool {
    exists|i: int| 0 <= i < row.len() && (#[trigger] row[i]).0 == name
}

/// A place in the row where `name` stands.
pub open spec fn place_of(row: Listing, name: Seq<char>) -> int {
    choose|i: int| 0 <= i < row.len() && (#[trigger] row[i]).0 == name
}

/// Whether no name stands in the row twice.
pub open spec fn names_differ(row: Listing) -> bool {
    forall|i: int, j: int|
        0 <= i < j < row.len() ==> (#[trigger] row[i]).0 != (#[trigger] row[j]).0
}

/// The backends of the row by name.
pub open spec fn by_name(row: Listing) -> Map<Seq<char>, BackendServerView> {
    Map::new(|name: Seq<char>| listed(row, name), |name: Seq<char>| row[place_of(row, name)].1)
}

/// Backends by name; no name stands for two of them. They are listed in the order in which their
/// names were added.
#[derive(Debug)]
pub struct BackendMap {
    entries: Vec<(String, BackendServer)>,
}

/// The name and the backend of an entry.
pub open spec fn entry_view(e: (String, BackendServer)) -> (Seq<char>, BackendServerView) {
    (e.0@, e.1@)
}

impl View for BackendMap {
    type V = Map<Seq<char>, BackendServerView>;

    open spec fn view(&self) -> Map<Seq<char>, BackendServerView> {
        by_name(self.listing())
    }
}

impl BackendMap {
    /// The backends in the order in which they are listed.
    pub closed spec fn listing(&self) -> Listing {
        self.entries@.map_values(|e: (String, BackendServer)| entry_view(e))
    }

    #[verifier::type_invariant]
    spec fn names_differ(&self) -> bool {
        names_differ(self.listing())
    }

    /// A map without backends.
    pub fn new() -> (r: BackendMap)
        ensures
            r@ == Map::<Seq<char>, BackendServerView>::empty(),
            r.listing() == Listing::empty(),
    {
        let r = BackendMap { entries: Vec::new() };
        assert(r@ =~= Map::<Seq<char>, BackendServerView>::empty());
        r
    }

    /// The number of backends, no two of which have one name.
    pub fn len(&self) -> (r: usize)
        ensures
            r == self.listing().len(),
            names_differ(self.listing()),
    {
        proof {
            use_type_invariant(self);
        }
        self.entries.len()
    }

    /// Whether there are no backends.
    pub fn is_empty(&self) -> (r: bool)
        ensures
            r == (self.listing().len() == 0),
            r == (forall|name: Seq<char>| !self@.contains_key(name)),
    {
        assert(self.listing().len() > 0 ==> self@.contains_key(self.listing()[0].0));
        self.entries.len() == 0
    }

    /// Where the name is listed, and nothing where it is not.
    fn find(&self, name: &str) -> (r: Option<usize>)
        ensures
            match r {
                Some(i) => i < self.entries@.len() && self.listing()[i as int].0 == name@
                    && self@.contains_key(name@) && self@[name@] == self.listing()[i as int].1,
                None => !self@.contains_key(name@),
            },
    {
        proof {
            use_type_invariant(self);
        }
        let n: usize = self.entries.len();
        let mut i: usize = 0;
        while i < n
            invariant
                i <= n,
                n == self.entries@.len(),
                names_differ(self.listing()),
                forall|j: int| 0 <= j < i ==> (#[trigger] self.listing()[j]).0 != name@,
            decreases n - i,
        {
            if same_text(self.entries[i].0.as_str(), name) {
                let ghost row = self.listing();
                assert(row[i as int].0 == name@);
                assert(listed(row, name@));
                assert(place_of(row, name@) == i);
                return Some(i);
            }
            i = i + 1;
        }
        None
    }

    /// The backend of that name.
    pub fn get(&self, name: &str) -> (r: Option<&BackendServer>)
        ensures
            match r {
                Some(b) => self@.contains_key(name@) && self@[name@] == b@,
                None => !self@.contains_key(name@),
            },
    {
        match self.find(name) {
            Some(i) => Some(&self.entries[i].1),
            None => None,
        }
    }

    /// Whether there is a backend of that name.
    pub fn contains_key(&self, name: &str) -> (r: bool)
        ensures
            r == self@.contains_key(name@),
    {
        self.find(name).is_some()
    }

    /// The backend at a place of the listing, and its name.
    pub fn entry(&self, i: usize) -> (r: (&String, &BackendServer))
        requires
            i < self.listing().len(),
        ensures
            (r.0@, r.1@) == self.listing()[i as int],
    {
        (&self.entries[i].0, &self.entries[i].1)
    }

    /// Gives the name to the backend; another one that had it is replaced in its place.
    pub fn insert(&mut self, name: String, backend: BackendServer)
        ensures
            final(self)@ == old(self)@.insert(name@, backend@),
            final(self).listing() == with_entry(old(self).listing(), name@, backend@),
    {
        proof {
            use_type_invariant(&*self);
        }
        let ghost row = self.listing();
        let found = self.find(name.as_str());
        let mut entries: Vec<(String, BackendServer)> = Vec::new();
        std::mem::swap(&mut entries, &mut self.entries);
        let ghost pair = (name@, backend@);
        match found {
            Some(i) => {
                assert(place_of(row, name@) == i);
                entries[i] = (name, backend);
                proof {
                    lemma_replace(row, i as int, pair);
                }
            },
            None => {
                entries.push((name, backend));
                proof {
                    lemma_append(row, pair);
                }
            },
        }
        assert(entries@.map_values(|e: (String, BackendServer)| entry_view(e)) =~= with_entry(
            row,
            pair.0,
            pair.1,
        ));
        self.entries = entries;
    }

    /// Takes out the backend of that name.
    pub fn remove(&mut self, name: &str) -> (r: Option<BackendServer>)
        ensures
            final(self)@ == old(self)@.remove(name@),
            final(self).listing() == without_entry(old(self).listing(), name@),
            match r {
                Some(b) => old(self)@.contains_key(name@) && old(self)@[name@] == b@,
                None => !old(self)@.contains_key(name@),
            },
    {
        proof {
            use_type_invariant(&*self);
        }
        let ghost row = self.listing();
        match self.find(name) {
            Some(i) => {
                let mut entries: Vec<(String, BackendServer)> = Vec::new();
                std::mem::swap(&mut entries, &mut self.entries);
                assert(place_of(row, name@) == i);
                let taken = entries.remove(i);
                assert(entries@.map_values(|e: (String, BackendServer)| entry_view(e))
                    =~= row.remove(i as int));
                proof {
                    lemma_remove(row, i as int);
                }
                self.entries = entries;
                Some(taken.1)
            },
            None => {
                assert(by_name(row) =~= by_name(row).remove(name@));
                None
            },
        }
    }
}

impl Clone for BackendMap {
    fn clone(&self) -> (r: Self)
        ensures
            r@ == self@,
            r.listing() == self.listing(),
    {
        proof {
            use_type_invariant(self);
        }
        let n: usize = self.entries.len();
        let mut entries: Vec<(String, BackendServer)> = Vec::new();
        let mut i: usize = 0;
        while i < n
            invariant
                i <= n,
                n == self.entries@.len(),
                entries@ == self.entries@.take(i as int),
            decreases n - i,
        {
            entries.push((self.entries[i].0.clone(), self.entries[i].1.clone()));
            assert(entries@ =~= self.entries@.take(i + 1));
            i = i + 1;
        }
        assert(entries@ =~= self.entries@);
        BackendMap { entries }
    }
}

/// The row after the name was given to a backend.
pub open spec fn with_entry(row: Listing, name: Seq<char>, b: BackendServerView) -> Listing {
    if listed(row, name) {
        row.update(place_of(row, name), (name, b))
    } else {
        row.push((name, b))
    }
}

/// The row without the backend of that name.
pub open spec fn without_entry(row: Listing, name: Seq<char>) -> Listing {
    if listed(row, name) {
        row.remove(place_of(row, name))
    } else {
        row
    }
}

proof fn lemma_place(row: Listing, i: int)
    requires
        names_differ(row),
        0 <= i < row.len(),
    ensures
        listed(row, row[i].0),
        place_of(row, row[i].0) == i,
{
    let p = place_of(row, row[i].0);
    assert(listed(row, row[i].0));
    assert(row[p].0 == row[i].0);
}

proof fn lemma_replace(row: Listing, i: int, e: (Seq<char>, BackendServerView))
    requires
        names_differ(row),
        0 <= i < row.len(),
        row[i].0 == e.0,
    ensures
        names_differ(row.update(i, e)),
        by_name(row.update(i, e)) == by_name(row).insert(e.0, e.1),
{
    let new = row.update(i, e);
    assert(names_differ(new)) by {
        assert forall|a: int, b: int| 0 <= a < b < new.len() implies (#[trigger] new[a]).0 != (
        #[trigger] new[b]).0 by {
            assert(row[a].0 != row[b].0);
        }
    }
    assert forall|n: Seq<char>| listed(new, n) == by_name(row).insert(e.0, e.1).contains_key(n) by {
        if listed(new, n) {
            assert(row[place_of(new, n)].0 == n);
        }
        if listed(row, n) {
            assert(new[place_of(row, n)].0 == n);
        }
        if n == e.0 {
            assert(new[i].0 == n);
        }
    }
    assert forall|n: Seq<char>| listed(new, n) implies by_name(new)[n] == by_name(row).insert(
        e.0,
        e.1,
    )[n] by {
        let p = place_of(new, n);
        lemma_place(new, p);
        lemma_place(row, p);
        lemma_place(row, i);
    }
    assert(by_name(new) =~= by_name(row).insert(e.0, e.1));
}

proof fn lemma_append(row: Listing, e: (Seq<char>, BackendServerView))
    requires
        names_differ(row),
        !listed(row, e.0),
    ensures
        names_differ(row.push(e)),
        by_name(row.push(e)) == by_name(row).insert(e.0, e.1),
{
    let new = row.push(e);
    assert(names_differ(new)) by {
        assert forall|a: int, b: int| 0 <= a < b < new.len() implies (#[trigger] new[a]).0 != (
        #[trigger] new[b]).0 by {
            assert(new[a] == row[a]);
            if b < row.len() {
                assert(new[b] == row[b]);
            }
        }
    }
    assert forall|n: Seq<char>| listed(new, n) == by_name(row).insert(e.0, e.1).contains_key(n) by {
        if listed(new, n) {
            let p = place_of(new, n);
            if p < row.len() {
                assert(row[p].0 == n);
            }
        }
        if listed(row, n) {
            assert(new[place_of(row, n)].0 == n);
        }
        if n == e.0 {
            assert(new[row.len() as int].0 == n);
        }
    }
    assert forall|n: Seq<char>| listed(new, n) implies by_name(new)[n] == by_name(row).insert(
        e.0,
        e.1,
    )[n] by {
        let p = place_of(new, n);
        lemma_place(new, p);
        if p < row.len() {
            lemma_place(row, p);
        }
    }
    assert(by_name(new) =~= by_name(row).insert(e.0, e.1));
}

proof fn lemma_remove(row: Listing, i: int)
    requires
        names_differ(row),
        0 <= i < row.len(),
    ensures
        names_differ(row.remove(i)),
        by_name(row.remove(i)) == by_name(row).remove(row[i].0),
{
    let new = row.remove(i);
    let name = row[i].0;
    assert(names_differ(new)) by {
        assert forall|a: int, b: int| 0 <= a < b < new.len() implies (#[trigger] new[a]).0 != (
        #[trigger] new[b]).0 by {
            let a0 = if a < i { a } else { a + 1 };
            let b0 = if b < i { b } else { b + 1 };
            assert(row[a0].0 != row[b0].0);
        }
    }
    assert forall|n: Seq<char>| listed(new, n) == by_name(row).remove(name).contains_key(n) by {
        if listed(new, n) {
            let p = place_of(new, n);
            let p0 = if p < i { p } else { p + 1 };
            assert(row[p0].0 == n);
            assert(row[p0].0 != row[i].0);
        }
        if listed(row, n) && n != name {
            let p = place_of(row, n);
            let p0 = if p < i { p } else { p - 1 };
            assert(new[p0].0 == n);
        }
    }
    assert forall|n: Seq<char>| listed(new, n) implies by_name(new)[n] == by_name(row).remove(
        name,
    )[n] by {
        let p = place_of(new, n);
        lemma_place(new, p);
        lemma_place(row, if p < i { p } else { p + 1 });
    }
    assert(by_name(new) =~= by_name(row).remove(name));
}

} // verus!
