use flow_package::name_map::NameMap;
use flow_package::package::constructor::Constructor;
use flow_package::package::module::Module;
use flow_package::package::module::ModuleMap;
use flow_package::package::package::Package;
use flow_package::package::package_crate::Crate;
use flow_package::package::package_type::Type;
use flow_package::package_manager::descriptor_name;
use flow_package::package_manager::PackageManager;

fn type_with(constructor_name: &str, function_name: &str) -> Type {
    Type::new_with_constructor(
        constructor_name,
        Constructor::New { function_name: Some(function_name.to_string()) },
    )
}

fn package_with(name: &str, crate_name: &str, held: &str, function_name: &str) -> Package {
    let mut types = NameMap::new();
    types.insert(held.to_string(), type_with("New", function_name));
    let mut crates = NameMap::new();
    crates.insert(crate_name.to_string(), Crate::new_with_types(types));
    Package { name: name.to_string(), version: "1.0.0".to_string(), crates }
}

fn nested_package() -> Package {
    let mut innermost_types = NameMap::new();
    innermost_types.insert("Deep".to_string(), type_with("New", "deep"));
    let innermost = Module { types: innermost_types, modules: ModuleMap::new() };
    let mut middle_types = NameMap::new();
    middle_types.insert("Middle".to_string(), type_with("New", "middle"));
    let mut middle_modules = ModuleMap::new();
    middle_modules.insert("inner".to_string(), innermost);
    let middle = Module { types: middle_types, modules: middle_modules };
    let mut crate_types = NameMap::new();
    crate_types.insert("Top".to_string(), type_with("New", "top"));
    let mut crate_modules = ModuleMap::new();
    crate_modules.insert("outer".to_string(), middle);
    let mut crates = NameMap::new();
    crates.insert("tree".to_string(), Crate { types: crate_types, modules: crate_modules });
    Package { name: "nested".to_string(), version: "0.1.0".to_string(), crates }
}

#[test]
fn get_package_test() {
    let pm = PackageManager::new();
    let package_opt = pm.get_package("built-in");

    assert!(!package_opt.is_none());
    let package = package_opt.unwrap();
    assert_eq!("built-in", package.name);
}

#[test]
fn get_all_packages_test() {
    let pm = PackageManager::new();
    let package_opt = pm.get_package("built-in");
    let package = package_opt.unwrap();
    let package_vec = pm.get_all_packages();
    assert!(package_vec.contains(package));
}

#[test]
fn new_catalog_holds_the_built_in_package_only() {
    let pm = PackageManager::new();
    let all = pm.get_all_packages();
    assert_eq!(all.len(), 1);
    assert_eq!(all[0].name, "built-in");
    assert_eq!(all[0].version, "1.0.0");
    assert_eq!(all[0].crates.len(), 1);
    assert_eq!(all[0].crates.name(0), "primitives");
    assert_eq!(all[0].crates.value(0).types.len(), 17);
    assert!(pm.get_package("other").is_none());
}

#[test]
fn primitive_names_resolve_to_primitive_types() {
    let pm = PackageManager::new();
    let names = [
        "i8", "i16", "i32", "i64", "i128", "u8", "u16", "u32", "u64", "u128", "isize", "usize",
        "f32", "f64", "bool", "char",
    ];
    for name in names {
        let found = pm.get_type(name).unwrap();
        assert_eq!(*found, Type::new_primitive_type());
        assert_eq!(found.constructors.len(), 2);
        assert_eq!(found.constructors.get("Default"), Some(&Constructor::FromDefault));
        assert_eq!(found.constructors.get("Json"), Some(&Constructor::FromJson));
    }
}

#[test]
fn unit_name_resolves_to_a_type_without_constructors() {
    let pm = PackageManager::new();
    let found = pm.get_type("()").unwrap();
    assert_eq!(*found, Type::new_simple());
    assert!(found.constructors.is_empty());
}

#[test]
fn unknown_bare_name_is_not_found() {
    let pm = PackageManager::new();
    assert!(pm.get_type("String").is_none());
    assert!(pm.get_type("").is_none());
    assert!(pm.get_type("i32 ").is_none());
}

#[test]
fn bare_names_ignore_what_is_registered() {
    let mut pm = PackageManager::new();
    pm.add_package(package_with("shadow", "i32", "i32", "shadowed"));
    pm.add_package(package_with("other", "primitives", "Widget", "widget"));
    assert_eq!(*pm.get_type("i32").unwrap(), Type::new_primitive_type());
    assert!(pm.get_type("Widget").is_none());
    assert_eq!(*pm.get_type("i32::i32").unwrap(), type_with("New", "shadowed"));
}

#[test]
fn built_in_types_resolve_by_qualified_name_too() {
    let pm = PackageManager::new();
    assert_eq!(*pm.get_type("primitives::bool").unwrap(), Type::new_primitive_type());
    assert!(pm.get_type("primitives::Missing").is_none());
}

#[test]
fn type_directly_in_crate_resolves() {
    let mut pm = PackageManager::new();
    pm.add_package(package_with("my_package", "my_crate", "MyType", "make"));
    let found = pm.get_type("my_crate::MyType").unwrap();
    assert_eq!(*found, type_with("New", "make"));
}

#[test]
fn unknown_segments_are_not_found() {
    let mut pm = PackageManager::new();
    pm.add_package(package_with("my_package", "my_crate", "MyType", "make"));
    pm.add_package(nested_package());
    assert!(pm.get_type("other_crate::MyType").is_none());
    assert!(pm.get_type("my_crate::Other").is_none());
    assert!(pm.get_type("my_crate::MyType::More").is_none());
    assert!(pm.get_type("my_crate::").is_none());
    assert!(pm.get_type("::MyType").is_none());
    assert!(pm.get_type("my_crate:::MyType").is_none());
    assert!(pm.get_type("tree::missing::Middle").is_none());
    assert!(pm.get_type("tree::outer::missing::Deep").is_none());
    assert!(pm.get_type("tree::outer::inner::Missing").is_none());
    assert!(pm.get_type("tree::outer").is_none());
}

#[test]
fn types_in_nested_modules_resolve() {
    let mut pm = PackageManager::new();
    pm.add_package(nested_package());
    assert_eq!(*pm.get_type("tree::Top").unwrap(), type_with("New", "top"));
    assert_eq!(*pm.get_type("tree::outer::Middle").unwrap(), type_with("New", "middle"));
    assert_eq!(*pm.get_type("tree::outer::inner::Deep").unwrap(), type_with("New", "deep"));
}

#[test]
fn get_type_from_package_walks_one_package() {
    let pm = PackageManager::new();
    let package = nested_package();
    let found = pm.get_type_from_package(&vec!["tree", "outer", "inner", "Deep"], &package);
    assert_eq!(*found.unwrap(), type_with("New", "deep"));
    assert_eq!(
        *pm.get_type_from_package(&vec!["tree", "Top"], &package).unwrap(),
        type_with("New", "top")
    );
    assert!(pm.get_type_from_package(&vec!["Top"], &package).is_none());
    assert!(pm.get_type_from_package(&vec![], &package).is_none());
    assert!(pm.get_type_from_package(&vec!["tree", "inner", "Deep"], &package).is_none());
}

#[test]
fn second_package_of_a_name_is_ignored() {
    let mut pm = PackageManager::new();
    pm.add_package(package_with("same", "first_crate", "Thing", "first"));
    pm.add_package(package_with("same", "second_crate", "Thing", "second"));
    assert_eq!(pm.get_all_packages().len(), 2);
    assert_eq!(
        *pm.get_package("same").unwrap(),
        package_with("same", "first_crate", "Thing", "first")
    );
    assert_eq!(*pm.get_type("first_crate::Thing").unwrap(), type_with("New", "first"));
    assert!(pm.get_type("second_crate::Thing").is_none());
}

#[test]
fn built_in_package_cannot_be_replaced() {
    let mut pm = PackageManager::new();
    pm.add_package(package_with("built-in", "primitives", "i32", "fake"));
    assert_eq!(pm.get_all_packages().len(), 1);
    assert_eq!(*pm.get_type("primitives::i32").unwrap(), Type::new_primitive_type());
}

#[test]
fn first_registered_package_decides_between_equal_names() {
    let mut pm = PackageManager::new();
    pm.add_package(package_with("one", "shared", "Thing", "from_one"));
    pm.add_package(package_with("two", "shared", "Thing", "from_two"));
    pm.add_package(package_with("three", "shared", "Other", "from_three"));
    assert_eq!(*pm.get_type("shared::Thing").unwrap(), type_with("New", "from_one"));
    assert_eq!(*pm.get_type("shared::Other").unwrap(), type_with("New", "from_three"));
}

#[test]
fn packages_are_listed_in_the_order_of_registration() {
    let mut pm = PackageManager::new();
    pm.add_package(package_with("zeta", "z", "Z", "z"));
    pm.add_package(package_with("alpha", "a", "A", "a"));
    let names: Vec<String> = pm.get_all_packages().iter().map(|p| p.name.clone()).collect();
    assert_eq!(names, vec!["built-in", "zeta", "alpha"]);
}

#[test]
fn default_package_is_empty() {
    let package = Package::default();
    assert_eq!(package.name, "");
    assert_eq!(package.version, "");
    assert!(package.crates.is_empty());
}

#[test]
fn type_builders_make_what_they_say() {
    let made = Type::new_with_constructor("Make", Constructor::FromJson);
    assert!(made.inputs.is_none());
    assert!(made.outputs.is_none());
    assert!(made.type_parameters.is_none());
    assert_eq!(made.constructors.len(), 1);
    assert_eq!(made.constructors.name(0), "Make");
    assert_eq!(*made.constructors.value(0), Constructor::FromJson);
    let primitive = Type::new_primitive_type();
    assert_eq!(primitive.constructors.name(0), "Default");
    assert_eq!(primitive.constructors.name(1), "Json");
    let made_crate = Crate::new_with_types(NameMap::new());
    assert!(made_crate.types.is_empty());
    assert!(made_crate.modules.is_empty());
}

#[test]
fn clones_are_equal_to_what_was_cloned() {
    let package = nested_package();
    assert_eq!(package.clone(), package);
    let pm = PackageManager::new();
    let built_in = pm.get_package("built-in").unwrap();
    assert_eq!(built_in.clone(), *built_in);
}

#[test]
fn descriptor_files_end_in_json() {
    assert_eq!(descriptor_name("my_package.json"), Some("my_package"));
    assert_eq!(descriptor_name("a.b.json"), Some("a.b"));
    assert_eq!(descriptor_name("..json"), Some("."));
    assert_eq!(descriptor_name("ü.json"), Some("ü"));
}

#[test]
fn other_files_are_no_descriptors() {
    assert_eq!(descriptor_name(".json"), None);
    assert_eq!(descriptor_name("json"), None);
    assert_eq!(descriptor_name(""), None);
    assert_eq!(descriptor_name("package.JSON"), None);
    assert_eq!(descriptor_name("package.json5"), None);
    assert_eq!(descriptor_name("package.jsonx"), None);
    assert_eq!(descriptor_name("package_json"), None);
    assert_eq!(descriptor_name("package.json.bak"), None);
    assert_eq!(descriptor_name("package.toml"), None);
}
