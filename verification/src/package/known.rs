//! The constructors that a catalog holds, and why the engine comes to an
//! end: each constructor that it starts on while others are unfinished is
//! one more of the finitely many that the catalog holds.

use crate::name_map::lemma_position_is_first;
use crate::name_map::lookup;
use crate::name_map::position;
use crate::package::constructor::ConstructorView;
use crate::package::module::ModuleView;
use crate::package::package::PackageView;
use crate::package::package_crate::CrateView;
use crate::package::package_type::TypeView;
use crate::package_manager::built_in_types;
use crate::package_manager::resolve_in_module;
use crate::package_manager::resolve_in_packages;
use crate::package_manager::resolved;
use crate::text::segments;
use vstd::prelude::*;

verus! {

/// The constructors of a type, in the order of their names.
pub open spec fn constructors_of_type(found: TypeView) -> Seq<ConstructorView> {
    found.constructors.map_values(|entry: (Seq<char>, ConstructorView)| entry.1)
}

/// The constructors of the types listed.
pub open spec fn constructors_of_types(types: Seq<(Seq<char>, TypeView)>) -> Seq<ConstructorView>
    decreases types.len(),
{
    if types.len() == 0 {
        Seq::empty()
    } else {
        constructors_of_types(types.drop_last()) + constructors_of_type(types.last().1)
    }
}

/// The constructors of the types of a module and of the modules inside it.
pub open spec fn constructors_of_module(module: ModuleView) -> Seq<ConstructorView>
    decreases module,
{
    constructors_of_types(module.types) + constructors_of_modules(module.modules)
}

/// The constructors of the types of the modules listed.
pub open spec fn constructors_of_modules(modules: Seq<(Seq<char>, ModuleView)>) -> Seq<
    ConstructorView,
>
    decreases modules,
{
    if modules.len() == 0 {
        Seq::empty()
    } else {
        constructors_of_modules(modules.drop_last()) + constructors_of_module(modules.last().1)
    }
}

/// The constructors of the types of the crates listed.
pub open spec fn constructors_of_crates(crates: Seq<(Seq<char>, CrateView)>) -> Seq<
    ConstructorView,
>
    decreases crates.len(),
{
    if crates.len() == 0 {
        Seq::empty()
    } else {
        constructors_of_crates(crates.drop_last()) + constructors_of_module(crates.last().1.root())
    }
}

/// The constructors of the types of the packages listed.
pub open spec fn constructors_of_packages(packages: Seq<PackageView>) -> Seq<ConstructorView>
    decreases packages.len(),
{
    if packages.len() == 0 {
        Seq::empty()
    } else {
        constructors_of_packages(packages.drop_last()) + constructors_of_crates(
            packages.last().crates,
        )
    }
}

/// Every constructor that a name can lead to: those of the built-in types
/// and those of the types of the packages.
pub open spec fn known_constructors(packages: Seq<PackageView>) -> Seq<ConstructorView> {
    constructors_of_types(built_in_types()) + constructors_of_packages(packages)
}

/// How many of `all` are not in `active`.
pub open spec fn unvisited(all: Seq<ConstructorView>, active: Seq<ConstructorView>) -> nat
    decreases all.len(),
{
    if all.len() == 0 {
        0
    } else {
        unvisited(all.drop_last(), active) + if active.contains(all.last()) {
            0nat
        } else {
            1nat
        }
    }
}

/// With one more constructor active, no more of `all` are left.
pub proof fn lemma_unvisited_shrinks(
    all: Seq<ConstructorView>,
    active: Seq<ConstructorView>,
    next: ConstructorView,
)
    ensures
        unvisited(all, active.push(next)) <= unvisited(all, active),
    decreases all.len(),
{
    if all.len() > 0 {
        lemma_unvisited_shrinks(all.drop_last(), active, next);
        if active.contains(all.last()) {
            let at = choose|at: int| 0 <= at < active.len() && active[at] == all.last();
            assert(active.push(next)[at] == all.last());
        }
    }
}

/// Once one of `all` that was not active becomes active, fewer of `all`
/// are left.
pub proof fn lemma_unvisited_decreases(
    all: Seq<ConstructorView>,
    active: Seq<ConstructorView>,
    next: ConstructorView,
)
    requires
        all.contains(next),
        !active.contains(next),
    ensures
        unvisited(all, active.push(next)) < unvisited(all, active),
    decreases all.len(),
{
    let front = all.drop_last();
    if all.last() == next {
        lemma_unvisited_shrinks(front, active, next);
        assert(active.push(next)[active.len() as int] == next);
    } else {
        let at = choose|at: int| 0 <= at < all.len() && all[at] == next;
        assert(front[at] == next);
        lemma_unvisited_decreases(front, active, next);
        if active.contains(all.last()) {
            let there = choose|there: int| 0 <= there < active.len() && active[there] == all.last();
            assert(active.push(next)[there] == all.last());
        } else {
            assert(!active.push(next).contains(all.last()));
        }
    }
}

/// A constructor that a type of the list holds is among the constructors of
/// the list.
pub proof fn lemma_types_hold(
    types: Seq<(Seq<char>, TypeView)>,
    at: int,
    constructor: ConstructorView,
)
    requires
        0 <= at < types.len(),
        constructors_of_type(types[at].1).contains(constructor),
    ensures
        constructors_of_types(types).contains(constructor),
    decreases types.len(),
{
    let front = constructors_of_types(types.drop_last());
    let back = constructors_of_type(types.last().1);
    if at == types.len() - 1 {
        let there = choose|there: int| 0 <= there < back.len() && back[there] == constructor;
        assert((front + back)[front.len() + there] == constructor);
    } else {
        lemma_types_hold(types.drop_last(), at, constructor);
        let there = choose|there: int| 0 <= there < front.len() && front[there] == constructor;
        assert((front + back)[there] == constructor);
    }
}

/// A constructor found under a name in a type found under a name in the
/// list is among the constructors of the list.
pub proof fn lemma_types_know(
    types: Seq<(Seq<char>, TypeView)>,
    type_path: Seq<char>,
    name: Seq<char>,
)
    requires
        lookup(types, type_path) is Some,
        lookup(lookup(types, type_path)->0.constructors, name) is Some,
    ensures
        constructors_of_types(types).contains(
            lookup(lookup(types, type_path)->0.constructors, name)->0,
        ),
{
    lemma_position_is_first(types, type_path);
    let at = position(types, type_path)->0;
    let found = types[at].1;
    lemma_position_is_first(found.constructors, name);
    let there = position(found.constructors, name)->0;
    assert(constructors_of_type(found)[there] == found.constructors[there].1);
    lemma_types_hold(types, at, found.constructors[there].1);
}

/// A constructor of a module of the list is among the constructors of the
/// list.
pub proof fn lemma_modules_hold(
    modules: Seq<(Seq<char>, ModuleView)>,
    at: int,
    constructor: ConstructorView,
)
    requires
        0 <= at < modules.len(),
        constructors_of_module(modules[at].1).contains(constructor),
    ensures
        constructors_of_modules(modules).contains(constructor),
    decreases modules.len(),
{
    let front = constructors_of_modules(modules.drop_last());
    let back = constructors_of_module(modules.last().1);
    if at == modules.len() - 1 {
        let there = choose|there: int| 0 <= there < back.len() && back[there] == constructor;
        assert((front + back)[front.len() + there] == constructor);
    } else {
        lemma_modules_hold(modules.drop_last(), at, constructor);
        let there = choose|there: int| 0 <= there < front.len() && front[there] == constructor;
        assert((front + back)[there] == constructor);
    }
}

/// A constructor found under a name in the type that a path names inside a
/// module is among the constructors of the module.
pub proof fn lemma_module_knows(module: ModuleView, path: Seq<Seq<char>>, name: Seq<char>)
    requires
        resolve_in_module(module, path) is Some,
        lookup(resolve_in_module(module, path)->0.constructors, name) is Some,
    ensures
        constructors_of_module(module).contains(
            lookup(resolve_in_module(module, path)->0.constructors, name)->0,
        ),
    decreases path.len(),
{
    let constructor = lookup(resolve_in_module(module, path)->0.constructors, name)->0;
    let front = constructors_of_types(module.types);
    let back = constructors_of_modules(module.modules);
    if path.len() == 1 {
        lemma_types_know(module.types, path[0], name);
        let there = choose|there: int| 0 <= there < front.len() && front[there] == constructor;
        assert((front + back)[there] == constructor);
    } else {
        lemma_position_is_first(module.modules, path[0]);
        let at = position(module.modules, path[0])->0;
        lemma_module_knows(module.modules[at].1, path.drop_first(), name);
        lemma_modules_hold(module.modules, at, constructor);
        let there = choose|there: int| 0 <= there < back.len() && back[there] == constructor;
        assert((front + back)[front.len() + there] == constructor);
    }
}

/// A constructor of a crate of the list is among the constructors of the
/// list.
pub proof fn lemma_crates_hold(
    crates: Seq<(Seq<char>, CrateView)>,
    at: int,
    constructor: ConstructorView,
)
    requires
        0 <= at < crates.len(),
        constructors_of_module(crates[at].1.root()).contains(constructor),
    ensures
        constructors_of_crates(crates).contains(constructor),
    decreases crates.len(),
{
    let front = constructors_of_crates(crates.drop_last());
    let back = constructors_of_module(crates.last().1.root());
    if at == crates.len() - 1 {
        let there = choose|there: int| 0 <= there < back.len() && back[there] == constructor;
        assert((front + back)[front.len() + there] == constructor);
    } else {
        lemma_crates_hold(crates.drop_last(), at, constructor);
        let there = choose|there: int| 0 <= there < front.len() && front[there] == constructor;
        assert((front + back)[there] == constructor);
    }
}

/// A constructor found under a name in the type that a path names in the
/// packages is among the constructors of the packages.
pub proof fn lemma_packages_know(packages: Seq<PackageView>, path: Seq<Seq<char>>, name: Seq<char>)
    requires
        resolve_in_packages(packages, path) is Some,
        lookup(resolve_in_packages(packages, path)->0.constructors, name) is Some,
    ensures
        constructors_of_packages(packages).contains(
            lookup(resolve_in_packages(packages, path)->0.constructors, name)->0,
        ),
    decreases packages.len(),
{
    let constructor = lookup(resolve_in_packages(packages, path)->0.constructors, name)->0;
    let front = constructors_of_packages(packages.drop_last());
    let back = constructors_of_crates(packages.last().crates);
    if resolve_in_packages(packages.drop_last(), path) is Some {
        lemma_packages_know(packages.drop_last(), path, name);
        let there = choose|there: int| 0 <= there < front.len() && front[there] == constructor;
        assert((front + back)[there] == constructor);
    } else {
        let package = packages.last();
        lemma_position_is_first(package.crates, path[0]);
        let at = position(package.crates, path[0])->0;
        lemma_module_knows(package.crates[at].1.root(), path.drop_first(), name);
        lemma_crates_hold(package.crates, at, constructor);
        let there = choose|there: int| 0 <= there < back.len() && back[there] == constructor;
        assert((front + back)[front.len() + there] == constructor);
    }
}

/// A constructor found under a name in the type that a name stands for is
/// one of the known constructors.
pub proof fn lemma_resolved_constructor_is_known(
    packages: Seq<PackageView>,
    type_path: Seq<char>,
    name: Seq<char>,
)
    requires
        resolved(packages, type_path) is Some,
        lookup(resolved(packages, type_path)->0.constructors, name) is Some,
    ensures
        known_constructors(packages).contains(
            lookup(resolved(packages, type_path)->0.constructors, name)->0,
        ),
{
    let constructor = lookup(resolved(packages, type_path)->0.constructors, name)->0;
    let path = segments(type_path);
    let front = constructors_of_types(built_in_types());
    let back = constructors_of_packages(packages);
    if path.len() == 1 {
        lemma_types_know(built_in_types(), path[0], name);
        let there = choose|there: int| 0 <= there < front.len() && front[there] == constructor;
        assert((front + back)[there] == constructor);
    } else {
        lemma_packages_know(packages, path, name);
        let there = choose|there: int| 0 <= there < back.len() && back[there] == constructor;
        assert((front + back)[front.len() + there] == constructor);
    }
}

} // verus!
