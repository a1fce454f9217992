use crate::name_map::NameMap;
use crate::package::package_crate::Crate;
use crate::package::package_crate::CrateView;
use vstd::prelude::*;

verus! {

/// A package: a name, a version, and its crates by name.
#[derive(Debug, PartialEq)]
pub struct Package {
    pub name: String,
    pub version: String,
    pub crates: NameMap<Crate>,
}

/// The model of a [`Package`].
pub ghost struct PackageView {
    pub name: Seq<char>,
    pub version: Seq<char>,
    pub crates: Seq<(Seq<char>, CrateView)>,
}

impl DeepView for Package {
    type V = PackageView;

    open spec fn deep_view(&self) -> PackageView {
        PackageView {
            name: self.name@,
            version: self.version@,
            crates: self.crates.deep_view(),
        }
    }
}

impl View for Package {
    type V = PackageView;

    open spec fn view(&self) -> PackageView {
        self.deep_view()
    }
}

impl Default for Package {
    /// A package without a name, a version and crates.
    fn default() -> (made: Self)
        ensures
            made@ == (PackageView {
                name: Seq::empty(),
                version: Seq::empty(),
                crates: Seq::empty(),
            }),
    {
        Package { name: String::new(), version: String::new(), crates: NameMap::new() }
    }
}

impl Clone for Package {
    fn clone(&self) -> (copy: Self)
        ensures
            copy@ == self@,
    {
        let crates = self.crates.clone();
        proof {
            self.crates.lemma_same_entries(&crates);
        }
        Package { name: self.name.clone(), version: self.version.clone(), crates }
    }
}

} // verus!
