use crate::name_map::NameMap;
use crate::package::module::ModuleMap;
use crate::package::module::ModuleView;
use crate::package::package_type::clone_types;
use crate::package::package_type::Type;
use crate::package::package_type::TypeView;
use vstd::prelude::*;

verus! {

/// A crate: its types by name, and its modules. A crate holds no crates.
#[derive(Debug, PartialEq)]
pub struct Crate {
    pub types: NameMap<Type>,
    pub modules: ModuleMap,
}

/// The model of a [`Crate`].
pub ghost struct CrateView {
    pub types: Seq<(Seq<char>, TypeView)>,
    pub modules: Seq<(Seq<char>, ModuleView)>,
}

impl CrateView {
    /// The crate seen as the module at the root of its names.
    pub open spec fn root(self) -> ModuleView {
        ModuleView { types: self.types, modules: self.modules }
    }
}

impl DeepView for Crate {
    type V = CrateView;

    open spec fn deep_view(&self) -> CrateView {
        CrateView { types: self.types.deep_view(), modules: self.modules.deep_view() }
    }
}

impl View for Crate {
    type V = CrateView;

    open spec fn view(&self) -> CrateView {
        self.deep_view()
    }
}

impl Crate {
    /// A crate that holds the types given and no modules.
    pub fn new_with_types(types: NameMap<Type>) -> (made: Self)
        ensures
            made@ == (CrateView { types: types.deep_view(), modules: Seq::empty() }),
    {
        Crate { types, modules: ModuleMap::new() }
    }
}

impl Clone for Crate {
    fn clone(&self) -> (copy: Self)
        ensures
            copy@ == self@,
    {
        Crate { types: clone_types(&self.types), modules: self.modules.clone() }
    }
}

} // verus!
