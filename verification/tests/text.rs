use flow_package::name_map::NameMap;
use flow_package::package::module::Module;
use flow_package::package::module::ModuleMap;
use flow_package::package::namespace::Namespace;
use flow_package::text::clone_names;
use flow_package::text::join_names;
use flow_package::text::split_name;

#[test]
fn split_name_cuts_at_each_qualifier() {
    assert_eq!(split_name("a::b::c"), vec!["a", "b", "c"]);
    assert_eq!(split_name("my_crate::MyType"), vec!["my_crate", "MyType"]);
}

#[test]
fn split_name_of_a_name_without_qualifier_is_the_name() {
    assert_eq!(split_name("i32"), vec!["i32"]);
    assert_eq!(split_name(""), vec![""]);
    assert_eq!(split_name(":"), vec![":"]);
    assert_eq!(split_name("a:b"), vec!["a:b"]);
}

#[test]
fn split_name_keeps_empty_segments() {
    assert_eq!(split_name("a::"), vec!["a", ""]);
    assert_eq!(split_name("::a"), vec!["", "a"]);
    assert_eq!(split_name("::"), vec!["", ""]);
    assert_eq!(split_name("a::::b"), vec!["a", "", "b"]);
}

#[test]
fn split_name_reads_colons_from_the_left() {
    assert_eq!(split_name("a:::b"), vec!["a", ":b"]);
    assert_eq!(split_name(":::"), vec!["", ":"]);
}

#[test]
fn split_name_agrees_with_the_standard_split() {
    for name in ["", "a", "a::b", "a:::b", "::::", "x::y::", "é::ß::日本", ":a:b::c:"] {
        let expected: Vec<&str> = name.split("::").collect();
        assert_eq!(split_name(name), expected);
    }
}

#[test]
fn join_names_puts_the_separator_between_neighbours() {
    let parts = vec!["a".to_string(), "b".to_string(), "c".to_string()];
    assert_eq!(join_names(&parts, "_"), "a_b_c");
    assert_eq!(join_names(&parts, ", "), "a, b, c");
    assert_eq!(join_names(&parts, ""), "abc");
}

#[test]
fn join_names_of_few_parts_has_no_separator() {
    assert_eq!(join_names(&vec![], "_"), "");
    assert_eq!(join_names(&vec!["only".to_string()], "_"), "only");
    assert_eq!(join_names(&vec!["".to_string(), "".to_string()], "_"), "_");
}

#[test]
fn clone_names_copies_every_name() {
    let names = vec!["x".to_string(), "".to_string(), "z".to_string()];
    assert_eq!(clone_names(&names), names);
}

#[test]
fn namespace_grows_at_the_inner_end() {
    let mut scope = Namespace::new();
    assert!(scope.is_empty());
    assert_eq!(scope.to_string(), "");
    scope.add_part("outer");
    assert!(!scope.is_empty());
    assert_eq!(scope.to_string(), "outer");
    scope.add_part("inner");
    assert_eq!(scope.parts, vec!["outer", "inner"]);
    assert_eq!(scope.to_string(), "outer_inner");
    let copy = scope.clone();
    assert_eq!(copy.parts, scope.parts);
}

#[test]
fn name_map_keeps_the_order_of_first_insertion() {
    let mut map: NameMap<String> = NameMap::new();
    assert!(map.is_empty());
    assert_eq!(map.len(), 0);
    map.insert("b".to_string(), "1".to_string());
    map.insert("a".to_string(), "2".to_string());
    map.insert("c".to_string(), "3".to_string());
    assert_eq!(map.len(), 3);
    assert_eq!(map.name(0), "b");
    assert_eq!(map.name(1), "a");
    assert_eq!(map.name(2), "c");
    assert_eq!(map.value(1), "2");
}

#[test]
fn name_map_insert_replaces_the_value_of_a_name() {
    let mut map: NameMap<String> = NameMap::new();
    map.insert("a".to_string(), "old".to_string());
    map.insert("b".to_string(), "other".to_string());
    map.insert("a".to_string(), "new".to_string());
    assert_eq!(map.len(), 2);
    assert_eq!(map.name(0), "a");
    assert_eq!(map.get("a"), Some(&"new".to_string()));
    assert_eq!(map.get("b"), Some(&"other".to_string()));
}

#[test]
fn name_map_finds_only_what_was_stored() {
    let mut map: NameMap<String> = NameMap::new();
    map.insert("key".to_string(), "value".to_string());
    assert!(map.contains_key("key"));
    assert!(!map.contains_key("Key"));
    assert!(!map.contains_key(""));
    assert_eq!(map.get("missing"), None);
    let copy = map.clone();
    assert_eq!(copy, map);
}

#[test]
fn module_map_stores_modules_by_name() {
    let mut modules = ModuleMap::new();
    assert!(modules.is_empty());
    modules.insert("one".to_string(), Module { types: NameMap::new(), modules: ModuleMap::new() });
    let mut inner = ModuleMap::new();
    inner.insert("deep".to_string(), Module { types: NameMap::new(), modules: ModuleMap::new() });
    modules.insert("one".to_string(), Module { types: NameMap::new(), modules: inner });
    modules.insert("two".to_string(), Module { types: NameMap::new(), modules: ModuleMap::new() });
    assert_eq!(modules.len(), 2);
    assert_eq!(modules.name(0), "one");
    assert_eq!(modules.name(1), "two");
    assert!(modules.contains_key("two"));
    assert!(!modules.contains_key("deep"));
    assert_eq!(modules.get("one").unwrap().modules.len(), 1);
    assert!(modules.value(1).modules.is_empty());
    assert!(modules.get("three").is_none());
    assert_eq!(modules.clone(), modules);
}
