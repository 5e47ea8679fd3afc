//! The import table: a mapping from (namespace, symbol) to a binding, built by
//! explicit registration that refuses duplicate keys, with exact-match lookup.
use vstd::prelude::*;

verus! {

/// Errors of building or resolving an import table.
#[derive(Debug)]
pub enum ImportError {
    /// The (namespace, symbol) pair was registered twice.
    Duplicate(String, String),
    /// The module imports a (namespace, symbol) pair that nothing binds.
    Unresolved(String, String),
}

/// One registered binding.
pub struct ImportEntry<V> {
    pub namespace: String,
    pub name: String,
    pub value: V,
}

/// An import table under construction or built.
pub struct ImportTable<V> {
    entries: Vec<ImportEntry<V>>,
}

/// The key of an entry: its namespace and symbol name.
pub type ImportKey = (Seq<char>, Seq<char>);

impl<V> ImportTable<V> {
    /// The keys, in order of registration.
    pub closed spec fn keys(&self) -> Seq<ImportKey> {
        Seq::new(
            self.entries@.len(),
            |i: int| (self.entries@[i].namespace@, self.entries@[i].name@),
        )
    }

    /// The bound values, in order of registration.
    pub closed spec fn values(&self) -> Seq<V> {
        Seq::new(self.entries@.len(), |i: int| self.entries@[i].value)
    }

    /// No key is registered twice.
    pub open spec fn wf(&self) -> bool {
        &&& self.keys().len() == self.values().len()
        &&& forall|i: int, j: int|
            0 <= i < j < self.keys().len() ==> #[trigger] self.keys()[i] != #[trigger] self.keys()[j]
    }

    /// Whether `key` is bound.
    pub open spec fn contains(&self, key: ImportKey) -> bool {
        exists|i: int| 0 <= i < self.keys().len() && #[trigger] self.keys()[i] == key
    }

    /// The table as a mapping from keys to bindings.
    pub open spec fn bindings(&self) -> Map<ImportKey, V> {
        Map::new(
            |k: ImportKey| self.contains(k),
            |k: ImportKey| {
                let i = choose|i: int| 0 <= i < self.keys().len() && #[trigger] self.keys()[i] == k;
                self.values()[i]
            },
        )
    }

    /// An empty table.
    pub fn new() -> (r: ImportTable<V>)
        ensures
            r.wf(),
            r.keys().len() == 0,
            r.bindings() == Map::<ImportKey, V>::empty(),
    {
        let r = ImportTable { entries: Vec::new() };
        assert(r.bindings() =~= Map::<ImportKey, V>::empty());
        r
    }

    /// Number of bindings.
    pub fn len(&self) -> (r: usize)
        ensures
            r == self.keys().len(),
    {
        self.entries.len()
    }

    /// Position of the entry for `(namespace, name)`, if any.
    fn position(&self, namespace: &String, name: &String) -> (r: Option<usize>)
        requires
            self.wf(),
        ensures
            r.is_some() <==> self.contains((namespace@, name@)),
            r.is_some() ==> r.unwrap() < self.keys().len() && self.keys()[r.unwrap() as int] == (
            namespace@, name@),
    {
        let mut i: usize = 0;
        while i < self.entries.len()
            invariant
                i <= self.keys().len(),
                self.keys().len() == self.entries@.len(),
                forall|j: int| 0 <= j < i ==> self.keys()[j] != (namespace@, name@),
            decreases self.entries@.len() - i,
        {
            let e = &self.entries[i];
            if e.namespace == *namespace && e.name == *name {
                assert(self.keys()[i as int] == (namespace@, name@));
                return Some(i);
            }
            i = i + 1;
        }
        None
    }

    /// The binding of `(namespace, name)`, matched exactly.
    pub fn lookup(&self, namespace: &String, name: &String) -> (r: Option<&V>)
        requires
            self.wf(),
        ensures
            r.is_some() <==> self.bindings().dom().contains((namespace@, name@)),
            r.is_some() ==> *r.unwrap() == self.bindings()[(namespace@, name@)],
    {
        match self.position(namespace, name) {
            Some(i) => {
                let ghost k = (namespace@, name@);
                proof {
                    let j = choose|j: int| 0 <= j < self.keys().len() && #[trigger] self.keys()[j] == k;
                    assert(self.keys()[j] == self.keys()[i as int]);
                    assert(j == i);
                }
                Some(&self.entries[i].value)
            },
            None => None,
        }
    }

    /// Registers `value` under `(namespace, name)`; a key that is already bound
    /// is refused and the table is left as it was.
    pub fn register(&mut self, namespace: String, name: String, value: V) -> (r: Result<(), ImportError>)
        requires
            old(self).wf(),
        ensures
            final(self).wf(),
            old(self).contains((namespace@, name@)) ==> (r matches Err(ImportError::Duplicate(n, m))
                && n@ == namespace@ && m@ == name@),
            old(self).contains((namespace@, name@)) ==> final(self).bindings()
                == old(self).bindings() && final(self).keys() == old(self).keys(),
            !old(self).contains((namespace@, name@)) ==> r.is_ok() && final(self).bindings()
                == old(self).bindings().insert((namespace@, name@), value) && final(self).keys()
                == old(self).keys().push((namespace@, name@)),
    {
        match self.position(&namespace, &name) {
            Some(_) => Err(ImportError::Duplicate(namespace, name)),
            None => {
                let ghost k = (namespace@, name@);
                let ghost before = *self;
                self.entries.push(ImportEntry { namespace, name, value });
                assert(self.keys() =~= before.keys().push(k));
                assert(self.values() =~= before.values().push(value));
                assert forall|kk: ImportKey| #[trigger] self.contains(kk) == (before.contains(kk) || kk == k) by {
                    if before.contains(kk) {
                        let i = choose|i: int| 0 <= i < before.keys().len() && #[trigger] before.keys()[i] == kk;
                        assert(self.keys()[i] == kk);
                    }
                    if kk == k {
                        assert(self.keys()[before.keys().len() as int] == kk);
                    }
                }
                assert forall|kk: ImportKey| #[trigger] self.bindings().dom().contains(kk) implies self.bindings()[kk] == before.bindings().insert(k, value)[kk] by {
                    let i = choose|i: int| 0 <= i < self.keys().len() && #[trigger] self.keys()[i] == kk;
                    if kk == k {
                        assert(i == before.keys().len());
                    } else {
                        let j = choose|j: int| 0 <= j < before.keys().len() && #[trigger] before.keys()[j] == kk;
                        assert(self.keys()[j] == kk);
                        assert(i == j);
                    }
                }
                assert(self.bindings() =~= before.bindings().insert(k, value));
                Ok(())
            },
        }
    }

    /// The entries, in order of registration, to hand to the virtual machine.
    pub fn into_entries(self) -> (r: Vec<ImportEntry<V>>)
        ensures
            r@.len() == self.keys().len(),
            forall|i: int|
                0 <= i < r@.len() ==> (#[trigger] r@[i].namespace@, r@[i].name@) == self.keys()[i]
                    && r@[i].value == self.values()[i],
    {
        self.entries
    }

    /// Checks that every `(namespace, name)` in `required` is bound; the first
    /// that is not is reported.
    pub fn resolve_all(&self, required: &Vec<(String, String)>) -> (r: Result<(), ImportError>)
        requires
            self.wf(),
        ensures
            r.is_ok() <==> forall|k: int|
                0 <= k < required@.len() ==> self.contains(
                    (#[trigger] required@[k].0@, required@[k].1@),
                ),
            r.is_err() ==> exists|k: int|
                0 <= k < required@.len() && !self.contains((#[trigger] required@[k].0@, required@[k].1@))
                    && (forall|j: int| 0 <= j < k ==> self.contains((#[trigger] required@[j].0@, required@[j].1@)))
                    && (r matches Err(ImportError::Unresolved(n, m)) && n@ == required@[k].0@ && m@
                    == required@[k].1@),
    {
        let mut i: usize = 0;
        while i < required.len()
            invariant
                self.wf(),
                i <= required@.len(),
                forall|k: int| 0 <= k < i ==> self.contains((#[trigger] required@[k].0@, required@[k].1@)),
            decreases required@.len() - i,
        {
            let (ns, name) = &required[i];
            match self.position(ns, name) {
                Some(_) => {},
                None => {
                    let r = Err(ImportError::Unresolved(ns.clone(), name.clone()));
                    assert(!self.contains((required@[i as int].0@, required@[i as int].1@)));
                    return r;
                },
            }
            i = i + 1;
        }
        Ok(())
    }
}

/// Each key of a well-formed table binds exactly one value: the entries with
/// that key are exactly one.
pub proof fn lemma_binding_unique<V>(t: ImportTable<V>, key: ImportKey, i: int, j: int)
    requires
        t.wf(),
        0 <= i < t.keys().len(),
        0 <= j < t.keys().len(),
        t.keys()[i] == key,
        t.keys()[j] == key,
    ensures
        i == j,
{
}

} // verus!
