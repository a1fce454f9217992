//! The catalog of packages, and what a qualified name stands for in it.

use crate::name_map::lemma_position_absent;
use crate::name_map::lemma_position_found;
use crate::name_map::lookup;
use crate::name_map::NameMap;
use crate::package::package::Package;
use crate::package::package_crate::Crate;
use crate::package::package_type::Type;
use crate::text::split_name;
use crate::package::constructor::ConstructorView;
use crate::package::module::ModuleView;
use crate::package::package::PackageView;
use crate::package::package_crate::CrateView;
use crate::package::package_type::TypeView;
use crate::text::segments;
use vstd::prelude::*;
use vstd::string::*;

verus! {

/// The type that `path` names inside `module`: all segments but the last
/// name modules, each inside the one before, and the last names a type of
/// the module reached.
pub open spec fn resolve_in_module(module: ModuleView, path: Seq<Seq<char>>) -> Option<TypeView>
    decreases path.len(),
{
    if path.len() == 0 {
        None
    } else if path.len() == 1 {
        lookup(module.types, path[0])
    } else {
        match lookup(module.modules, path[0]) {
            Some(inner) => resolve_in_module(inner, path.drop_first()),
            None => None,
        }
    }
}

/// The type that `path` names inside `package`: the first segment names a
/// crate of the package, and the rest names a type from the root of that
/// crate. A path of fewer than two segments names nothing.
pub open spec fn resolve_in_package(package: PackageView, path: Seq<Seq<char>>) -> Option<
    TypeView,
> {
    if path.len() < 2 {
        None
    } else {
        match lookup(package.crates, path[0]) {
            Some(found) => resolve_in_module(found.root(), path.drop_first()),
            None => None,
        }
    }
}

/// The type that `path` names in the first of `packages`, in their order,
/// in which it names one.
pub open spec fn resolve_in_packages(packages: Seq<PackageView>, path: Seq<Seq<char>>) -> Option<
    TypeView,
>
    decreases packages.len(),
{
    if packages.len() == 0 {
        None
    } else {
        match resolve_in_packages(packages.drop_last(), path) {
            Some(found) => Some(found),
            None => resolve_in_package(packages.last(), path),
        }
    }
}

/// The names of the primitive types.
pub open spec fn primitive_names() -> Seq<Seq<char>> {
    seq![
        "i8"@,
        "i16"@,
        "i32"@,
        "i64"@,
        "i128"@,
        "u8"@,
        "u16"@,
        "u32"@,
        "u64"@,
        "u128"@,
        "isize"@,
        "usize"@,
        "f32"@,
        "f64"@,
        "bool"@,
        "char"@,
    ]
}

/// A primitive type: it is made from its default value or read from the
/// document.
pub open spec fn primitive_type() -> TypeView {
    TypeView {
        inputs: None,
        outputs: None,
        type_parameters: None,
        constructors: seq![
            ("Default"@, ConstructorView::FromDefault),
            ("Json"@, ConstructorView::FromJson),
        ],
    }
}

/// A type without inputs, outputs, type parameters and constructors.
pub open spec fn simple_type() -> TypeView {
    TypeView {
        inputs: None,
        outputs: None,
        type_parameters: None,
        constructors: Seq::empty(),
    }
}

/// The first `count` primitive types, each stored under its name.
pub open spec fn primitive_types(count: nat) -> Seq<(Seq<char>, TypeView)>
    decreases count,
{
    if count == 0 || count > primitive_names().len() {
        Seq::empty()
    } else {
        crate::name_map::stored(
            primitive_types((count - 1) as nat),
            primitive_names()[count - 1],
            primitive_type(),
        )
    }
}

/// The types that a name of one segment is looked up in: the primitive
/// types, and the unit type, which stands for no type.
pub open spec fn built_in_types() -> Seq<(Seq<char>, TypeView)> {
    crate::name_map::stored(primitive_types(primitive_names().len()), "()"@, simple_type())
}

/// The package that holds the built-in types, in its one crate.
pub open spec fn built_in_package() -> PackageView {
    PackageView {
        name: "built-in"@,
        version: "1.0.0"@,
        crates: seq![
            ("primitives"@, CrateView { types: built_in_types(), modules: Seq::empty() }),
        ],
    }
}

/// The type that `name` stands for among `packages`. A name of one segment
/// is looked up among the built-in types and nowhere else. A name of more
/// segments is looked up in the packages, in the order in which they were
/// registered, and the first package in which it names a type decides.
pub open spec fn resolved(packages: Seq<PackageView>, name: Seq<char>) -> Option<TypeView> {
    let path = segments(name);
    if path.len() == 1 {
        lookup(built_in_types(), path[0])
    } else {
        resolve_in_packages(packages, path)
    }
}

/// The name of a descriptor file without its ending: a file is a
/// descriptor if its name ends in `.json` and is longer than the ending.
pub open spec fn descriptor_stem(file_name: Seq<char>) -> Option<Seq<char>> {
    let cut = file_name.len() - 5;
    if cut > 0 && file_name.subrange(cut, file_name.len() as int) == ".json"@ {
        Some(file_name.subrange(0, cut))
    } else {
        None
    }
}

/// Tells whether a file of this name is read as a package descriptor, and
/// gives the name without the ending if it is.
pub fn descriptor_name(file_name: &str) -> (stem: Option<&str>)
    ensures
        match stem {
            Some(name) => descriptor_stem(file_name@) == Some(name@),
            None => descriptor_stem(file_name@) is None,
        },
{
    let ending = ".json";
    proof {
        reveal_strlit(".json");
    }
    let count = file_name.unicode_len();
    if count <= 5 {
        return None;
    }
    let cut: usize = count - 5;
    let ghost tail = file_name@.subrange(cut as int, count as int);
    let mut at: usize = 0;
    while at < 5
        invariant
            at <= 5,
            count == file_name@.len(),
            cut == count - 5,
            ending@ == ".json"@,
            ending@.len() == 5,
            tail == file_name@.subrange(cut as int, count as int),
            forall|i: int| 0 <= i < at ==> tail[i] == ending@[i],
        decreases 5 - at,
    {
        if file_name.get_char(cut + at) != ending.get_char(at) {
            return None;
        }
        at = at + 1;
    }
    assert(tail =~= ending@);
    Some(file_name.substring_char(0, cut))
}

/// The packages as entries, each under its own name.
pub open spec fn named(packages: Seq<PackageView>) -> Seq<(Seq<char>, PackageView)> {
    packages.map_values(|package: PackageView| (package.name, package))
}

/// The packages after `package` was registered: it is added behind the
/// others, unless a package of its name is among them already, in which
/// case nothing changes.
pub open spec fn registered(packages: Seq<PackageView>, package: PackageView) -> Seq<PackageView> {
    if lookup(named(packages), package.name) is Some {
        packages
    } else {
        packages.push(package)
    }
}

/// The catalog: the packages that were registered, in the order of their
/// registration. The first is always the package of the built-in types, and
/// no two packages have the same name.
#[derive(Debug)]
pub struct PackageManager {
    built_in: Package,
    packages: Vec<Package>,
}

impl DeepView for PackageManager {
    type V = Seq<PackageView>;

    closed spec fn deep_view(&self) -> Seq<PackageView> {
        seq![self.built_in.deep_view()] + self.packages.deep_view()
    }
}

impl View for PackageManager {
    type V = Seq<PackageView>;

    open spec fn view(&self) -> Seq<PackageView> {
        self.deep_view()
    }
}

impl PackageManager {
    #[verifier::type_invariant]
    spec fn well_formed(&self) -> bool {
        &&& self.built_in.deep_view() == built_in_package()
        &&& forall|i: int|
            0 <= i < self.packages@.len() ==> self.packages@[i].name@ != self.built_in.name@
        &&& forall|i: int, j: int|
            0 <= i < j < self.packages@.len() ==> self.packages@[i].name@
                != self.packages@[j].name@
    }

    /// A catalog that holds the package of the built-in types and no other.
    pub fn new() -> (made: Self)
        ensures
            made@ == seq![built_in_package()],
    {
        let made = PackageManager { built_in: Self::add_built_in_package(), packages: Vec::new() };
        made
    }

    /// The package of the built-in types, which every catalog starts with.
    fn add_built_in_package() -> (package: Package)
        ensures
            package@ == built_in_package(),
    {
        let primitives: Vec<&str> = vec![
            "i8",
            "i16",
            "i32",
            "i64",
            "i128",
            "u8",
            "u16",
            "u32",
            "u64",
            "u128",
            "isize",
            "usize",
            "f32",
            "f64",
            "bool",
            "char",
        ];
        let mut types: NameMap<Type> = NameMap::new();
        let mut at: usize = 0;
        while at < primitives.len()
            invariant
                at <= primitives.len(),
                primitives.deep_view() == primitive_names(),
                types.deep_view() == primitive_types(at as nat),
            decreases primitives.len() - at,
        {
            types.insert(primitives[at].to_string(), Type::new_primitive_type());
            at = at + 1;
        }
        types.insert("()".to_string(), Type::new_simple());
        let mut crates: NameMap<Crate> = NameMap::new();
        crates.insert("primitives".to_string(), Crate::new_with_types(types));
        let package = Package {
            name: "built-in".to_string(),
            version: "1.0.0".to_string(),
            crates,
        };
        package
    }

    /// Registers `package`, unless a package of the same name was
    /// registered before: then nothing changes.
    pub fn add_package(&mut self, package: Package)
        ensures
            final(self)@ == registered(old(self)@, package@),
    {
        proof {
            use_type_invariant(&*self);
        }
        let ghost before = self@;
        let ghost entries = named(before);
        if self.built_in.name == package.name {
            proof {
                lemma_position_found(entries, package.name@, 0);
            }
            return ;
        }
        let mut at: usize = 0;
        while at < self.packages.len()
            invariant
                at <= self.packages.len(),
                self@ == before,
                entries == named(before),
                before.len() == self.packages@.len() + 1,
                forall|i: int| 0 <= i < before.len() ==> (#[trigger] entries[i]).0 == before[i].name,
                forall|i: int|
                    0 <= i < self.packages@.len() ==> (#[trigger] before[i + 1])
                        == self.packages@[i]@,
                forall|i: int| 0 <= i < at + 1 ==> (#[trigger] entries[i]).0 != package.name@,
            decreases self.packages.len() - at,
        {
            if self.packages[at].name == package.name {
                proof {
                    lemma_position_found(entries, package.name@, at + 1);
                }
                return ;
            }
            at = at + 1;
        }
        proof {
            lemma_position_absent(entries, package.name@);
        }
        let ghost added = package@;
        let mut packages: Vec<Package> = Vec::new();
        core::mem::swap(&mut self.packages, &mut packages);
        let ghost others = packages.deep_view();
        packages.push(package);
        assert forall|i: int, j: int| 0 <= i < j < packages@.len() implies packages@[i].name@
            != packages@[j].name@ by {
            if j == others.len() {
                assert(entries[i + 1].0 != added.name);
            }
        }
        core::mem::swap(&mut self.packages, &mut packages);
    }

    /// Every package of the catalog, in the order of registration.
    pub fn get_all_packages(&self) -> (all: Vec<Package>)
        ensures
            all.deep_view() == self@,
    {
        let mut all: Vec<Package> = Vec::new();
        all.push(self.built_in.clone());
        let mut at: usize = 0;
        while at < self.packages.len()
            invariant
                at <= self.packages.len(),
                all.deep_view() == self@.take(at + 1),
            decreases self.packages.len() - at,
        {
            let ghost before = all.deep_view();
            let package = self.packages[at].clone();
            all.push(package);
            assert(all.deep_view() =~= before.push(package@));
            at = at + 1;
        }
        all
    }

    /// The package that was registered under `package_name`.
    pub fn get_package(&self, package_name: &str) -> (found: Option<&Package>)
        ensures
            match found {
                Some(package) => lookup(named(self@), package_name@) == Some(package@),
                None => lookup(named(self@), package_name@) is None,
            },
    {
        let ghost entries = named(self@);
        let wanted = package_name.to_string();
        if self.built_in.name == wanted {
            proof {
                lemma_position_found(entries, package_name@, 0);
            }
            return Some(&self.built_in);
        }
        let mut at: usize = 0;
        while at < self.packages.len()
            invariant
                at <= self.packages.len(),
                wanted@ == package_name@,
                entries == named(self@),
                forall|i: int| 0 <= i < self@.len() ==> (#[trigger] entries[i]).0 == self@[i].name,
                forall|i: int| 0 <= i < at + 1 ==> (#[trigger] entries[i]).0 != package_name@,
            decreases self.packages.len() - at,
        {
            if self.packages[at].name == wanted {
                proof {
                    lemma_position_found(entries, package_name@, at + 1);
                }
                return Some(&self.packages[at]);
            }
            at = at + 1;
        }
        proof {
            lemma_position_absent(entries, package_name@);
        }
        None
    }

    /// The type that `type_ids` names inside `package`.
    pub fn get_type_from_package<'a>(&self, type_ids: &Vec<&str>, package: &'a Package) -> (found:
        Option<&'a Type>)
        ensures
            match found {
                Some(it) => resolve_in_package(package@, type_ids.deep_view()) == Some(it@),
                None => resolve_in_package(package@, type_ids.deep_view()) is None,
            },
    {
        let ghost path = type_ids.deep_view();
        let count = type_ids.len();
        if count < 2 {
            return None;
        }
        match package.crates.get(type_ids[0]) {
            None => None,
            Some(found) => {
                let ghost rest = path.drop_first();
                if count == 2 {
                    return found.types.get(type_ids[1]);
                }
                match found.modules.get(type_ids[1]) {
                    None => None,
                    Some(first) => {
                        let mut module: &'a crate::package::module::Module = first;
                        let mut index: usize = 2;
                        assert(rest.drop_first() =~= path.subrange(2, count as int));
                        while index < count - 1
                            invariant
                                2 <= index < count,
                                count == type_ids.len(),
                                path == type_ids.deep_view(),
                                resolve_in_package(package@, path) == resolve_in_module(
                                    module@,
                                    path.subrange(index as int, count as int),
                                ),
                            decreases count - index,
                        {
                            let ghost here = path.subrange(index as int, count as int);
                            assert(here.drop_first() =~= path.subrange(index + 1, count as int));
                            match module.modules.get(type_ids[index]) {
                                Some(inner) => {
                                    module = inner;
                                },
                                None => {
                                    return None;
                                },
                            }
                            index = index + 1;
                        }
                        module.types.get(type_ids[index])
                    },
                }
            },
        }
    }

    /// The type that `name` stands for. A name of one segment is looked up
    /// among the built-in types and nowhere else. A name of more segments
    /// is looked up in the packages in the order of their registration,
    /// and the first package in which it names a type decides.
    pub fn get_type(&self, name: &str) -> (found: Option<&Type>)
        ensures
            match found {
                Some(it) => resolved(self@, name@) == Some(it@),
                None => resolved(self@, name@) is None,
            },
    {
        let type_ids = split_name(name);
        let ghost path = type_ids.deep_view();
        if type_ids.len() == 1 {
            proof {
                use_type_invariant(self);
                lemma_position_found(built_in_package().crates, "primitives"@, 0);
            }
            return match self.built_in.crates.get("primitives") {
                Some(primitives) => primitives.types.get(type_ids[0]),
                None => None,
            };
        }
        let first = self.get_type_from_package(&type_ids, &self.built_in);
        proof {
            let front = self@.take(1);
            assert(resolve_in_packages(front.drop_last(), path) is None);
        }
        if first.is_some() {
            proof {
                lemma_resolve_in_front(self@, 1, path);
            }
            return first;
        }
        let mut at: usize = 0;
        while at < self.packages.len()
            invariant
                at <= self.packages.len(),
                path == type_ids.deep_view(),
                path == segments(name@),
                path.len() != 1,
                resolve_in_packages(self@.take(at + 1), path) is None,
            decreases self.packages.len() - at,
        {
            let found = self.get_type_from_package(&type_ids, &self.packages[at]);
            proof {
                let next = self@.take(at + 2);
                assert(next.drop_last() =~= self@.take(at + 1));
            }
            if found.is_some() {
                proof {
                    lemma_resolve_in_front(self@, at + 2, path);
                }
                return found;
            }
            at = at + 1;
        }
        assert(self@.take(at + 1) =~= self@);
        None
    }
}

/// What a path names in the first packages of a list, it names in the
/// whole list.
pub proof fn lemma_resolve_in_front(packages: Seq<PackageView>, count: int, path: Seq<Seq<char>>)
    requires
        0 <= count <= packages.len(),
        resolve_in_packages(packages.take(count), path) is Some,
    ensures
        resolve_in_packages(packages, path) == resolve_in_packages(packages.take(count), path),
    decreases packages.len(),
{
    if count < packages.len() {
        assert(packages.drop_last().take(count) =~= packages.take(count));
        lemma_resolve_in_front(packages.drop_last(), count, path);
    } else {
        assert(packages.take(count) =~= packages);
    }
}

/// Registering a package of a name that is registered already changes
/// nothing, and after a package was registered its name is registered.
pub proof fn lemma_registered_once(packages: Seq<PackageView>, package: PackageView)
    ensures
        lookup(named(registered(packages, package)), package.name) is Some,
        lookup(named(packages), package.name) is Some ==> registered(packages, package)
            == packages,
        lookup(named(packages), package.name) is None ==> lookup(
            named(registered(packages, package)),
            package.name,
        ) == Some(package),
{
    if lookup(named(packages), package.name) is None {
        let after = packages.push(package);
        crate::name_map::lemma_position_is_first(named(packages), package.name);
        assert forall|i: int| 0 <= i < packages.len() implies named(after)[i].0
            != package.name by {
            assert(named(after)[i] == named(packages)[i]);
        }
        lemma_position_found(named(after), package.name, packages.len() as int);
    }
}

/// Of two packages of the same name, registered one after the other, the
/// second is ignored: the catalog is what it was after the first, so every
/// name stands for what it stood for then.
pub proof fn lemma_second_registration_is_ignored(
    packages: Seq<PackageView>,
    first: PackageView,
    second: PackageView,
    name: Seq<char>,
)
    requires
        first.name == second.name,
    ensures
        registered(registered(packages, first), second) == registered(packages, first),
        resolved(registered(registered(packages, first), second), name) == resolved(
            registered(packages, first),
            name,
        ),
{
    lemma_registered_once(packages, first);
}

/// A name in which no qualifier starts stands for the built-in type of
/// that name, whatever packages are registered.
pub proof fn lemma_bare_name_is_built_in(packages: Seq<PackageView>, name: Seq<char>)
    requires
        forall|at: int| !crate::text::qualifier_at(name, at),
    ensures
        resolved(packages, name) == lookup(built_in_types(), name),
{
    crate::text::lemma_one_segment(name);
}

/// The type of the given name in the crate of the given name of a
/// package, if the package has such a crate and the crate such a type.
pub open spec fn direct_type(package: PackageView, crate_name: Seq<char>, type_id: Seq<char>) -> Option<
    TypeView,
> {
    match lookup(package.crates, crate_name) {
        Some(found) => lookup(found.types, type_id),
        None => None,
    }
}

/// The name of a crate, a qualifier and the name of a type that the crate
/// holds stand for that type, if no package that was registered before
/// holds a type of that name in a crate of that name, and the two names
/// read as the two segments of the whole.
pub proof fn lemma_direct_type_resolves(
    packages: Seq<PackageView>,
    at: int,
    crate_name: Seq<char>,
    type_id: Seq<char>,
)
    requires
        0 <= at < packages.len(),
        segments(crate_name + crate::text::qualifier() + type_id) == seq![crate_name, type_id],
        direct_type(packages[at], crate_name, type_id) is Some,
        forall|before: int|
            0 <= before < at ==> direct_type(#[trigger] packages[before], crate_name, type_id)
                is None,
    ensures
        resolved(packages, crate_name + crate::text::qualifier() + type_id) == direct_type(
            packages[at],
            crate_name,
            type_id,
        ),
{
    let path = seq![crate_name, type_id];
    assert(path.drop_first() =~= seq![type_id]);
    let front = packages.take(at);
    lemma_not_found_in_any(front, path);
    assert forall|before: int| 0 <= before < front.len() implies resolve_in_package(
        #[trigger] front[before],
        path,
    ) is None by {
        assert(direct_type(packages[before], crate_name, type_id) is None);
    }
    assert(packages.take(at + 1).drop_last() =~= front);
    lemma_resolve_in_front(packages, at + 1, path);
}

/// The name of a crate without a colon, a qualifier and the name of a
/// type without a qualifier stand for the type of that name that the crate
/// holds, if no package that was registered before holds a type of that
/// name in a crate of that name.
pub proof fn lemma_plain_direct_type_resolves(
    packages: Seq<PackageView>,
    at: int,
    crate_name: Seq<char>,
    type_id: Seq<char>,
)
    requires
        0 <= at < packages.len(),
        crate::text::plain(crate_name),
        forall|start: int| !crate::text::qualifier_at(type_id, start),
        direct_type(packages[at], crate_name, type_id) is Some,
        forall|before: int|
            0 <= before < at ==> direct_type(#[trigger] packages[before], crate_name, type_id)
                is None,
    ensures
        resolved(packages, crate_name + crate::text::qualifier() + type_id) == direct_type(
            packages[at],
            crate_name,
            type_id,
        ),
{
    crate::text::lemma_two_segments(crate_name, type_id);
    lemma_direct_type_resolves(packages, at, crate_name, type_id);
}

/// A path names nothing in packages that have no crate of the name of its
/// first segment.
pub proof fn lemma_none_in_front(packages: Seq<PackageView>, count: int, path: Seq<Seq<char>>)
    requires
        0 <= count <= packages.len(),
        path.len() >= 1,
        forall|at: int| 0 <= at < count ==> lookup(packages[at].crates, path[0]) is None,
    ensures
        resolve_in_packages(packages.take(count), path) is None,
    decreases count,
{
    if count > 0 {
        lemma_none_in_front(packages, count - 1, path);
        assert(packages.take(count).drop_last() =~= packages.take(count - 1));
    }
}

/// A path names nothing in the packages exactly when it names nothing in
/// any one of them.
pub proof fn lemma_not_found_in_any(packages: Seq<PackageView>, path: Seq<Seq<char>>)
    ensures
        resolve_in_packages(packages, path) is None <==> forall|at: int|
            0 <= at < packages.len() ==> resolve_in_package(#[trigger] packages[at], path) is None,
    decreases packages.len(),
{
    if packages.len() > 0 {
        let front = packages.drop_last();
        lemma_not_found_in_any(front, path);
        if resolve_in_packages(packages, path) is None {
            assert forall|at: int| 0 <= at < packages.len() implies resolve_in_package(
                #[trigger] packages[at],
                path,
            ) is None by {
                if at < front.len() {
                    assert(front[at] == packages[at]);
                }
            }
        }
    }
}

/// A name of more than one segment whose first segment no package has a
/// crate for stands for nothing.
pub proof fn lemma_unknown_crate_is_not_found(packages: Seq<PackageView>, name: Seq<char>)
    requires
        segments(name).len() >= 2,
        forall|at: int|
            0 <= at < packages.len() ==> lookup(packages[at].crates, segments(name)[0]) is None,
    ensures
        resolved(packages, name) is None,
{
    lemma_none_in_front(packages, packages.len() as int, segments(name));
    assert(packages.take(packages.len() as int) =~= packages);
}

/// No name of a primitive type holds a colon, and none is the name of the
/// unit type.
pub proof fn lemma_primitive_names_are_plain()
    ensures
        forall|at: int|
            0 <= at < primitive_names().len() ==> crate::text::plain(#[trigger] primitive_names()[at])
                && primitive_names()[at] != "()"@,
{
    reveal_strlit("()");
    reveal_strlit("i8");
    reveal_strlit("i16");
    reveal_strlit("i32");
    reveal_strlit("i64");
    reveal_strlit("i128");
    reveal_strlit("u8");
    reveal_strlit("u16");
    reveal_strlit("u32");
    reveal_strlit("u64");
    reveal_strlit("u128");
    reveal_strlit("isize");
    reveal_strlit("usize");
    reveal_strlit("f32");
    reveal_strlit("f64");
    reveal_strlit("bool");
    reveal_strlit("char");
    assert forall|at: int| 0 <= at < primitive_names().len() implies crate::text::plain(
        #[trigger] primitive_names()[at],
    ) && primitive_names()[at] != "()"@ by {
        assert(primitive_names()[at][0] != "()"@[0]);
    }
}

/// Among the first `count` primitive types, each of their names stands for
/// a primitive type.
pub proof fn lemma_primitive_types_hold(count: nat, at: int)
    requires
        0 <= at < count <= primitive_names().len(),
    ensures
        lookup(primitive_types(count), primitive_names()[at]) == Some(primitive_type()),
    decreases count,
{
    let before = primitive_types((count - 1) as nat);
    crate::name_map::lemma_lookup_stored(
        before,
        primitive_names()[count - 1],
        primitive_type(),
        primitive_names()[at],
    );
    if at < count - 1 {
        lemma_primitive_types_hold((count - 1) as nat, at);
    }
}

/// The name of a primitive type stands for a primitive type, and the name
/// of the unit type for a type without constructors, whatever packages are
/// registered.
pub proof fn lemma_primitives_are_built_in(packages: Seq<PackageView>, at: int)
    requires
        0 <= at < primitive_names().len(),
    ensures
        resolved(packages, primitive_names()[at]) == Some(primitive_type()),
        resolved(packages, "()"@) == Some(simple_type()),
{
    lemma_primitive_names_are_plain();
    let name = primitive_names()[at];
    lemma_bare_name_is_built_in(packages, name);
    lemma_primitive_types_hold(primitive_names().len(), at);
    crate::name_map::lemma_lookup_stored(
        primitive_types(primitive_names().len()),
        "()"@,
        simple_type(),
        name,
    );
    reveal_strlit("()");
    lemma_bare_name_is_built_in(packages, "()"@);
}

} // verus!
