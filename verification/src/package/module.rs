//! Modules, which hold types and further modules.

use crate::name_map::distinct_names;
use crate::name_map::find_entry;
use crate::name_map::lookup;
use crate::name_map::stored;
use crate::name_map::NameMap;
use crate::package::package_type::clone_types;
use crate::package::package_type::Type;
use crate::package::package_type::TypeView;
use vstd::prelude::*;

verus! {

/// The modules of a crate or of a module, by name, in the order in which
/// their names were first stored.
#[derive(Debug, PartialEq)]
pub struct ModuleMap {
    entries: Vec<(String, Module)>,
}

/// A module: its types by name, and the modules inside it.
#[derive(Debug, PartialEq)]
pub struct Module {
    pub types: NameMap<Type>,
    pub modules: ModuleMap,
}

/// The model of a [`Module`].
pub ghost struct ModuleView {
    pub types: Seq<(Seq<char>, TypeView)>,
    pub modules: Seq<(Seq<char>, ModuleView)>,
}

impl DeepView for ModuleMap {
    type V = Seq<(Seq<char>, ModuleView)>;

    closed spec fn deep_view(&self) -> Seq<(Seq<char>, ModuleView)>
        decreases self,
    {
        Seq::new(
            self.entries@.len(),
            |at: int|
                if 0 <= at < self.entries@.len() {
                    (self.entries@[at].0@, self.entries@[at].1.deep_view())
                } else {
                    arbitrary()
                },
        )
    }
}

impl View for ModuleMap {
    type V = Seq<(Seq<char>, ModuleView)>;

    open spec fn view(&self) -> Seq<(Seq<char>, ModuleView)> {
        self.deep_view()
    }
}

impl DeepView for Module {
    type V = ModuleView;

    open spec fn deep_view(&self) -> ModuleView
        decreases self,
    {
        ModuleView { types: self.types.deep_view(), modules: self.modules.deep_view() }
    }
}

impl View for Module {
    type V = ModuleView;

    open spec fn view(&self) -> ModuleView {
        self.deep_view()
    }
}

impl ModuleMap {
    #[verifier::type_invariant]
    spec fn names_differ(&self) -> bool {
        forall|i: int, j: int|
            0 <= i < j < self.entries@.len() ==> self.entries@[i].0@ != self.entries@[j].0@
    }

    proof fn lemma_entries(&self)
        ensures
            self.deep_view() == self.entries.deep_view(),
    {
    }

    /// No modules.
    pub fn new() -> (map: Self)
        ensures
            map.deep_view() == Seq::<(Seq<char>, ModuleView)>::empty(),
    {
        let map = ModuleMap { entries: Vec::new() };
        map
    }

    /// The number of modules.
    pub fn len(&self) -> (count: usize)
        ensures
            count == self.deep_view().len(),
            distinct_names(self.deep_view()),
    {
        proof {
            use_type_invariant(self);
        }
        self.entries.len()
    }

    /// Stores `module` under `key`, in place of the module that was stored
    /// under that name, if there was one.
    pub fn insert(&mut self, key: String, module: Module)
        ensures
            final(self).deep_view() == stored(old(self).deep_view(), key@, module.deep_view()),
    {
        proof {
            use_type_invariant(&*self);
            self.lemma_entries();
            crate::name_map::lemma_lookup_stored(self.deep_view(), key@, module.deep_view(), key@);
        }
        let ghost before = self.deep_view();
        let ghost name = key@;
        let ghost model = module.deep_view();
        let found = find_entry(&self.entries, key.as_str());
        let mut entries: Vec<(String, Module)> = Vec::new();
        core::mem::swap(&mut self.entries, &mut entries);
        match found {
            Some(at) => {
                entries.set(at, (key, module));
                assert(entries.deep_view() =~= before.update(at as int, (name, model)));
            },
            None => {
                entries.push((key, module));
                assert(entries.deep_view() =~= before.push((name, model)));
            },
        }
        assert forall|i: int, j: int| 0 <= i < j < entries@.len() implies entries@[i].0@
            != entries@[j].0@ by {
            assert(entries.deep_view()[i].0 != entries.deep_view()[j].0);
        }
        core::mem::swap(&mut self.entries, &mut entries);
        proof {
            self.lemma_entries();
        }
    }

    /// The module stored under `key`.
    pub fn get(&self, key: &str) -> (found: Option<&Module>)
        ensures
            match found {
                Some(module) => lookup(self.deep_view(), key@) == Some(module.deep_view()),
                None => lookup(self.deep_view(), key@) is None,
            },
    {
        proof {
            self.lemma_entries();
        }
        match find_entry(&self.entries, key) {
            Some(at) => Some(&self.entries[at].1),
            None => None,
        }
    }

    /// Whether there is no module.
    pub fn is_empty(&self) -> (empty: bool)
        ensures
            empty == (self.deep_view().len() == 0),
    {
        self.entries.len() == 0
    }

    /// Whether a module is stored under `key`.
    pub fn contains_key(&self, key: &str) -> (present: bool)
        ensures
            present == lookup(self.deep_view(), key@).is_some(),
    {
        proof {
            self.lemma_entries();
        }
        find_entry(&self.entries, key).is_some()
    }

    /// The name of the module at position `at`.
    pub fn name(&self, at: usize) -> (name: &String)
        requires
            at < self.deep_view().len(),
        ensures
            name@ == self.deep_view()[at as int].0,
    {
        &self.entries[at].0
    }

    /// The module at position `at`.
    pub fn value(&self, at: usize) -> (module: &Module)
        requires
            at < self.deep_view().len(),
        ensures
            module.deep_view() == self.deep_view()[at as int].1,
    {
        &self.entries[at].1
    }
}

impl Clone for ModuleMap {
    fn clone(&self) -> (copy: Self)
        ensures
            copy.deep_view() == self.deep_view(),
        decreases self,
    {
        proof {
            use_type_invariant(self);
        }
        let mut entries: Vec<(String, Module)> = Vec::new();
        let mut at: usize = 0;
        while at < self.entries.len()
            invariant
                at <= self.entries.len(),
                entries@.len() == at,
                forall|i: int|
                    0 <= i < at ==> (#[trigger] entries@[i]).0@ == self.entries@[i].0@
                        && entries@[i].1.deep_view() == self.entries@[i].1.deep_view(),
            decreases self.entries.len() - at,
        {
            let name = self.entries[at].0.clone();
            let module = self.entries[at].1.clone();
            entries.push((name, module));
            at = at + 1;
        }
        let copy = ModuleMap { entries };
        copy
    }
}

impl Clone for Module {
    fn clone(&self) -> (copy: Self)
        ensures
            copy@ == self@,
        decreases self,
    {
        Module { types: clone_types(&self.types), modules: self.modules.clone() }
    }
}

} // verus!
