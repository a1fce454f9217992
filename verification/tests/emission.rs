use flow_package::name_map::NameMap;
use flow_package::package::argument::Argument;
use flow_package::package::argument_construction::ArgumentConstruction;
use flow_package::package::argument_passing::ArgumentPassing;
use flow_package::package::constructor::is_active;
use flow_package::package::constructor::Constructor;
use flow_package::package::emit_error::EmitError;
use flow_package::package::emit_error::Missing;
use flow_package::package::namespace::Namespace;
use flow_package::package::object_description::ObjectDescription;
use flow_package::package::package::Package;
use flow_package::package::package_crate::Crate;
use flow_package::package::package_type::Type;
use flow_package::package::type_description::TypeDescription;
use flow_package::package::type_parameter::TypeParameter;
use flow_package::package_manager::PackageManager;

fn object(type_path: &str, part: &str, name: &str, is_mutable: bool) -> ObjectDescription {
    ObjectDescription {
        type_path: type_path.to_string(),
        type_parameter_part: part.to_string(),
        name: name.to_string(),
        is_mutable,
    }
}

fn scope(parts: &[&str]) -> Namespace {
    let mut made = Namespace::new();
    for part in parts {
        made.add_part(part);
    }
    made
}

fn bindings(pairs: &[(&str, &str)]) -> NameMap<String> {
    let mut made = NameMap::new();
    for (name, bound) in pairs {
        made.insert(name.to_string(), bound.to_string());
    }
    made
}

fn named(name: &str) -> Box<TypeDescription> {
    Box::new(TypeDescription::Type { name: name.to_string(), type_parameters: None })
}

fn placeholder(name: &str) -> Box<TypeDescription> {
    Box::new(TypeDescription::Generic { name: name.to_string(), type_parameters: None })
}

fn built(arg_type: Box<TypeDescription>, name: &str, passing: ArgumentPassing, by: &str) -> Argument {
    Argument {
        arg_type,
        name: name.to_string(),
        passing,
        construction: ArgumentConstruction::Constructor(by.to_string()),
    }
}

fn existing(name: &str, passing: ArgumentPassing) -> Argument {
    Argument {
        arg_type: named("()"),
        name: name.to_string(),
        passing,
        construction: ArgumentConstruction::ExistingObject(),
    }
}

fn with_arguments(arguments: Vec<Argument>) -> Constructor {
    Constructor::NewWithArbitraryArgs { function_name: None, arguments }
}

fn catalog(types: Vec<(&str, Type)>) -> PackageManager {
    let mut held = NameMap::new();
    for (name, made) in types {
        held.insert(name.to_string(), made);
    }
    let mut crates = NameMap::new();
    crates.insert("c".to_string(), Crate::new_with_types(held));
    let mut pm = PackageManager::new();
    pm.add_package(Package { name: "p".to_string(), version: "1".to_string(), crates });
    pm
}

fn emit(
    constructor: &Constructor,
    od: &ObjectDescription,
    pm: &PackageManager,
    ns: &Namespace,
) -> Result<String, EmitError> {
    constructor.emit_code_template(od, &NameMap::new(), pm, ns)
}

#[test]
fn test() {
    let mut constructors = NameMap::new();
    constructors.insert("New".to_string(), Constructor::NewWithObserver { function_name: None });
    constructors.insert(
        "FromCode".to_string(),
        Constructor::FromCode {
            code_template: "let {{fully_qualified_name}}:{{type_parameter_U}} = 5;".to_string(),
        },
    );
    let my_type = Type {
        inputs: None,
        outputs: None,
        type_parameters: Some(vec![
            TypeParameter { name: "U".to_string(), constraints: vec![] },
            TypeParameter { name: "T".to_string(), constraints: vec![] },
        ]),
        constructors,
    };
    let mut types = NameMap::new();
    types.insert("MyType".to_string(), my_type);
    let mut crates = NameMap::new();
    crates.insert("my_crate".to_string(), Crate::new_with_types(types));
    let package_1 =
        Package { name: "my_package".to_string(), version: "1.0.0".to_string(), crates };
    let mut pm_1 = PackageManager::new();
    pm_1.add_package(package_1);
    let t_1 = pm_1.get_type("my_crate::MyType").expect("msg");
    let c_1 = t_1.constructors.get("FromCode").expect("");
    let mut type_params_1 = NameMap::new();
    type_params_1.insert("U".to_string(), "i32".to_string());
    type_params_1.insert("T".to_string(), "i32".to_string());
    let ns_1 = Namespace::new();

    let obj_1 = ObjectDescription {
        type_path: "my_crate::MyType".to_string(),
        type_parameter_part: "".to_string(),
        name: "value".to_string(),
        is_mutable: false,
    };
    println!("CODE: {}", c_1.emit_code_template(&obj_1, &type_params_1, &pm_1, &ns_1).expect(""));
}

#[test]
fn template_renders_identifier_and_bound_placeholder() {
    let constructor = Constructor::FromCode {
        code_template: "let {{fully_qualified_name}}:{{type_parameter_U}} = 5;".to_string(),
    };
    let code = constructor.emit_code_template(
        &object("my_crate::MyType", "", "value", false),
        &bindings(&[("U", "i32")]),
        &PackageManager::new(),
        &Namespace::new(),
    );
    assert_eq!(code, Ok("let value:i32 = 5;".to_string()));
}

#[test]
fn template_can_name_every_part_of_the_binding() {
    let constructor = Constructor::FromCode {
        code_template:
            "let{{mutable}} {{fully_qualified_name}}: {{type_name}}{{{type_parameter_part}}} = {{type_parameter_T}}::make();"
                .to_string(),
    };
    let code = constructor.emit_code_template(
        &object("c::Holder", "<u8>", "held", true),
        &bindings(&[("T", "c::Maker")]),
        &PackageManager::new(),
        &scope(&["a", "b"]),
    );
    assert_eq!(code, Ok("let mut a_b_held: c::Holder<u8> = c::Maker::make();".to_string()));
}

#[test]
fn template_without_variables_is_rendered_as_it_is() {
    let constructor = Constructor::FromCode { code_template: "let x = 1;".to_string() };
    let code = emit(&constructor, &object("T", "", "x", false), &PackageManager::new(), &scope(&[]));
    assert_eq!(code, Ok("let x = 1;".to_string()));
}

#[test]
fn later_template_value_takes_the_place_of_an_earlier_one() {
    let constructor =
        Constructor::FromCode { code_template: "{{type_parameter_part}}".to_string() };
    let code = constructor.emit_code_template(
        &object("T", "first", "x", false),
        &bindings(&[("part", "second")]),
        &PackageManager::new(),
        &Namespace::new(),
    );
    assert_eq!(code, Ok("second".to_string()));
}

#[test]
fn malformed_template_is_a_template_error() {
    let constructor = Constructor::FromCode { code_template: "let {{#if}} = 5;".to_string() };
    let code = emit(&constructor, &object("T", "", "x", false), &PackageManager::new(), &scope(&[]));
    assert!(matches!(code, Err(EmitError::TemplateError { .. })));
    let constructor = Constructor::FromCode { code_template: "let {{name = 5;".to_string() };
    let code = emit(&constructor, &object("T", "", "x", false), &PackageManager::new(), &scope(&[]));
    match code {
        Err(EmitError::TemplateError { message }) => assert!(!message.is_empty()),
        other => panic!("{:?}", other),
    }
}

#[test]
fn missing_template_variable_is_a_template_error() {
    let constructor = Constructor::FromCode {
        code_template: "let {{fully_qualified_name}}:{{type_parameter_U}} = 5;".to_string(),
    };
    let code = emit(&constructor, &object("T", "", "x", false), &PackageManager::new(), &scope(&[]));
    assert!(matches!(code, Err(EmitError::TemplateError { .. })));
}

#[test]
fn template_result_keeps_the_text_and_wraps_the_error() {
    assert_eq!(Constructor::template_result(Ok("text".to_string())), Ok("text".to_string()));
    let registry = handlebars::Handlebars::new();
    let failed = registry.render_template("{{#each}}", &0);
    assert!(failed.is_err());
    let expected = failed.as_ref().unwrap_err().to_string();
    assert_eq!(
        Constructor::template_result(failed),
        Err(EmitError::TemplateError { message: expected })
    );
}

#[test]
fn direct_constructor_emits_one_declaration() {
    let constructor = Constructor::New { function_name: None };
    let pm = PackageManager::new();
    let code = emit(&constructor, &object("my_crate::Widget", "", "w", false), &pm, &scope(&[]));
    assert_eq!(code, Ok("\nlet w = my_crate::Widget::new();".to_string()));
}

#[test]
fn direct_constructor_uses_scope_function_name_and_type_parameters() {
    let constructor = Constructor::New { function_name: Some("create".to_string()) };
    let pm = PackageManager::new();
    let code =
        emit(&constructor, &object("c::Widget", "<i32>", "w", true), &pm, &scope(&["a", "b"]));
    assert_eq!(code, Ok("\nlet mut a_b_w = c::Widget::<i32>::create();".to_string()));
}

#[test]
fn observer_constructor_passes_a_clone_of_the_observer() {
    let constructor = Constructor::NewWithObserver { function_name: None };
    let pm = PackageManager::new();
    let code = emit(&constructor, &object("c::Widget", "", "w", false), &pm, &scope(&["outer"]));
    assert_eq!(code, Ok("\nlet outer_w = c::Widget::new(change_observer.clone());".to_string()));
}

#[test]
fn observer_and_context_constructor_passes_clones_of_both() {
    let constructor =
        Constructor::NewWithObserverAndContext { function_name: Some("build".to_string()) };
    let pm = PackageManager::new();
    let code = emit(&constructor, &object("c::Widget", "", "w", false), &pm, &scope(&[]));
    assert_eq!(
        code,
        Ok("\nlet w = c::Widget::build(change_observer.clone(), context.clone());".to_string())
    );
}

#[test]
fn default_constructor_declares_the_default_value() {
    let pm = PackageManager::new();
    let code = emit(&Constructor::FromDefault, &object("i32", "", "v", false), &pm, &scope(&[]));
    assert_eq!(code, Ok("let v:i32 = Default::default();".to_string()));
    let code =
        emit(&Constructor::FromDefault, &object("Vec", "<u8>", "v", true), &pm, &scope(&["s"]));
    assert_eq!(code, Ok("let mut s_v:Vec<u8> = Default::default();".to_string()));
}

#[test]
fn json_constructor_reads_the_document_at_the_key_path() {
    let pm = PackageManager::new();
    let code = emit(&Constructor::FromJson, &object("i32", "", "c", false), &pm, &scope(&["a", "b"]));
    assert_eq!(
        code,
        Ok("let a_b_c: i32 = serde_json::from_value(data[\"a\"][\"b\"][\"c\"].clone()).expect(\"Could not create 'a_b_c' from Json.\");"
            .to_string())
    );
    let code = emit(&Constructor::FromJson, &object("Vec", "<u8>", "v", true), &pm, &scope(&[]));
    assert_eq!(
        code,
        Ok("let mut v: Vec<u8> = serde_json::from_value(data[\"v\"].clone()).expect(\"Could not create 'v' from Json.\");"
            .to_string())
    );
}

#[test]
fn json_path_has_one_key_for_each_segment_and_the_name() {
    let od = object("T", "", "c", false);
    assert_eq!(Constructor::emit_json_path(&scope(&["a", "b"]), &od), "[\"a\"][\"b\"][\"c\"]");
    assert_eq!(Constructor::emit_json_path(&scope(&[]), &od), "[\"c\"]");
}

#[test]
fn nested_arguments_are_built_before_what_needs_them() {
    let z = Type::new_with_constructor("New", Constructor::New { function_name: None });
    let y = Type::new_with_constructor(
        "New",
        with_arguments(vec![built(named("c::Z"), "z", ArgumentPassing::Reference, "New")]),
    );
    let x = with_arguments(vec![built(named("c::Y"), "y", ArgumentPassing::Move, "New")]);
    let pm = catalog(vec![("Y", y), ("Z", z)]);
    let code = emit(&x, &object("c::X", "", "x", false), &pm, &scope(&[])).unwrap();
    assert_eq!(
        code,
        "\nlet x_y_z = c::Z::new();\nlet x_y = c::Y::new(&x_y_z);\nlet x = c::X::new(x_y);"
    );
    let z_at = code.find("let x_y_z").unwrap();
    let y_at = code.find("let x_y =").unwrap();
    let x_at = code.find("let x =").unwrap();
    assert!(z_at < y_at && y_at < x_at);
}

#[test]
fn arguments_are_built_in_their_order_and_passed_as_told() {
    let leaf = Type::new_with_constructor("Make", Constructor::FromDefault);
    let constructor = with_arguments(vec![
        built(named("c::Leaf"), "first", ArgumentPassing::MutableReference, "Make"),
        existing("shared", ArgumentPassing::Reference),
        built(named("i32"), "second", ArgumentPassing::Clone, "Default"),
        existing("moved", ArgumentPassing::Move),
    ]);
    let pm = catalog(vec![("Leaf", leaf)]);
    let code = emit(&constructor, &object("c::Top", "", "top", false), &pm, &scope(&["s"]));
    assert_eq!(
        code,
        Ok("let mut s_top_first:c::Leaf = Default::default();\nlet s_top_second:i32 = Default::default();\nlet s_top = c::Top::new(&mut s_top_first, &shared, s_top_second.clone(), moved);"
            .to_string())
    );
}

#[test]
fn equal_names_at_different_depths_get_different_identifiers() {
    let inner = Type::new_with_constructor(
        "New",
        with_arguments(vec![built(named("i32"), "a", ArgumentPassing::Move, "Default")]),
    );
    let constructor =
        with_arguments(vec![built(named("c::Inner"), "a", ArgumentPassing::Move, "New")]);
    let pm = catalog(vec![("Inner", inner)]);
    let code = emit(&constructor, &object("c::Outer", "", "a", false), &pm, &scope(&[]));
    assert_eq!(
        code,
        Ok("let a_a_a:i32 = Default::default();\nlet a_a = c::Inner::new(a_a_a);\nlet a = c::Outer::new(a_a);"
            .to_string())
    );
    let empty = Namespace::new();
    let name = "a".to_string();
    let outer = Constructor::emit_fully_qualified_name(&name, &empty, false);
    let middle = Constructor::emit_fully_qualified_name(&name, &scope(&["a"]), false);
    let innermost = Constructor::emit_fully_qualified_name(&name, &scope(&["a", "a"]), false);
    assert_eq!(outer, "a");
    assert_eq!(middle, "a_a");
    assert_eq!(innermost, "a_a_a");
}

#[test]
fn scopes_that_read_as_the_same_word_give_the_same_identifier() {
    let name = "n".to_string();
    let one = Constructor::emit_fully_qualified_name(&name, &scope(&["a_b"]), false);
    let two = Constructor::emit_fully_qualified_name(&name, &scope(&["a", "b"]), false);
    assert_eq!(one, "a_b_n");
    assert_eq!(one, two);
}

#[test]
fn ignored_scope_leaves_the_name_as_it_is() {
    let name = "n".to_string();
    assert_eq!(Constructor::emit_fully_qualified_name(&name, &scope(&["a", "b"]), true), "n");
}

#[test]
fn placeholder_argument_is_built_as_the_type_bound_to_it() {
    let leaf = Type::new_with_constructor("New", Constructor::New { function_name: None });
    let constructor =
        with_arguments(vec![built(placeholder("T"), "item", ArgumentPassing::Move, "New")]);
    let pm = catalog(vec![("Leaf", leaf)]);
    let code = constructor.emit_code_template(
        &object("c::Holder", "", "h", false),
        &bindings(&[("T", "c::Leaf")]),
        &pm,
        &Namespace::new(),
    );
    assert_eq!(
        code,
        Ok("\nlet h_item = c::Leaf::new();\nlet h = c::Holder::new(h_item);".to_string())
    );
}

#[test]
fn type_parameters_of_an_argument_are_written_behind_its_type() {
    let pair = Type::new_with_constructor("New", Constructor::New { function_name: None });
    let parameters = Some(vec![
        named("i32"),
        Box::new(TypeDescription::Generic {
            name: "T".to_string(),
            type_parameters: Some(vec![named("u8"), placeholder("U")]),
        }),
        Box::new(TypeDescription::Type { name: "Empty".to_string(), type_parameters: Some(vec![]) }),
    ]);
    let argument = built(
        Box::new(TypeDescription::Type { name: "c::Pair".to_string(), type_parameters: parameters }),
        "pair",
        ArgumentPassing::Reference,
        "New",
    );
    let pm = catalog(vec![("Pair", pair)]);
    let code = with_arguments(vec![argument]).emit_code_template(
        &object("c::Top", "", "t", false),
        &bindings(&[("T", "Map"), ("U", "bool")]),
        &pm,
        &Namespace::new(),
    );
    assert_eq!(
        code,
        Ok("\nlet t_pair = c::Pair::<i32,Map<u8,bool>,Empty>::new();\nlet t = c::Top::new(&t_pair);"
            .to_string())
    );
}

#[test]
fn type_parameter_part_is_empty_without_parameters() {
    let none = NameMap::new();
    assert_eq!(Constructor::emit_arg_type_parameters_part(&None, &none), Ok("".to_string()));
    assert_eq!(Constructor::emit_arg_type_parameters_part(&Some(vec![]), &none), Ok("".to_string()));
    assert_eq!(
        Constructor::emit_arg_type_parameters_part(&Some(vec![named("u8")]), &none),
        Ok("<u8>".to_string())
    );
    assert_eq!(
        Constructor::emit_arg_type_parameters_part_rec(&named("u8"), &none),
        Ok("u8".to_string())
    );
}

#[test]
fn unbound_placeholder_among_type_parameters_is_not_found() {
    let parameters = Some(vec![named("i32"), placeholder("Missing"), placeholder("Other")]);
    assert_eq!(
        Constructor::emit_arg_type_parameters_part(&parameters, &bindings(&[("T", "u8")])),
        Err(EmitError::NotFound(Missing::GenericBinding("Missing".to_string())))
    );
    let leaf = Type::new_with_constructor("New", Constructor::New { function_name: None });
    let argument = built(
        Box::new(TypeDescription::Type { name: "c::Leaf".to_string(), type_parameters: parameters }),
        "leaf",
        ArgumentPassing::Move,
        "New",
    );
    let pm = catalog(vec![("Leaf", leaf)]);
    let code = emit(&with_arguments(vec![argument]), &object("T", "", "t", false), &pm, &scope(&[]));
    assert_eq!(code, Err(EmitError::NotFound(Missing::GenericBinding("Missing".to_string()))));
}

#[test]
fn unbound_placeholder_argument_is_not_found() {
    let constructor =
        with_arguments(vec![built(placeholder("T"), "item", ArgumentPassing::Move, "New")]);
    let code =
        emit(&constructor, &object("c::Top", "", "t", false), &PackageManager::new(), &scope(&[]));
    assert_eq!(code, Err(EmitError::NotFound(Missing::GenericBinding("T".to_string()))));
}

#[test]
fn unknown_argument_type_is_not_found() {
    let constructor =
        with_arguments(vec![built(named("c::Nowhere"), "item", ArgumentPassing::Move, "New")]);
    let code =
        emit(&constructor, &object("c::Top", "", "t", false), &PackageManager::new(), &scope(&[]));
    assert_eq!(code, Err(EmitError::NotFound(Missing::Type("c::Nowhere".to_string()))));
}

#[test]
fn unknown_argument_constructor_is_not_found() {
    let constructor =
        with_arguments(vec![built(named("i32"), "item", ArgumentPassing::Move, "Special")]);
    let code =
        emit(&constructor, &object("c::Top", "", "t", false), &PackageManager::new(), &scope(&[]));
    assert_eq!(
        code,
        Err(EmitError::NotFound(Missing::Constructor {
            constructor_name: "Special".to_string(),
            type_path: "i32".to_string(),
        }))
    );
    let constructor =
        with_arguments(vec![built(placeholder("T"), "item", ArgumentPassing::Move, "Special")]);
    let code = constructor.emit_code_template(
        &object("c::Top", "", "t", false),
        &bindings(&[("T", "i32")]),
        &PackageManager::new(),
        &Namespace::new(),
    );
    assert_eq!(
        code,
        Err(EmitError::NotFound(Missing::Constructor {
            constructor_name: "Special".to_string(),
            type_path: "T".to_string(),
        }))
    );
}

#[test]
fn first_argument_that_fails_is_the_error() {
    let constructor = with_arguments(vec![
        built(named("i32"), "fine", ArgumentPassing::Move, "Default"),
        built(named("c::First"), "one", ArgumentPassing::Move, "New"),
        built(named("c::Second"), "two", ArgumentPassing::Move, "New"),
    ]);
    let code =
        emit(&constructor, &object("c::Top", "", "t", false), &PackageManager::new(), &scope(&[]));
    assert_eq!(code, Err(EmitError::NotFound(Missing::Type("c::First".to_string()))));
}

#[test]
fn two_constructors_that_need_each_other_are_a_cycle() {
    let a_constructor =
        with_arguments(vec![built(named("c::B"), "b", ArgumentPassing::Move, "New")]);
    let b_constructor =
        with_arguments(vec![built(named("c::A"), "a", ArgumentPassing::Move, "New")]);
    let pm = catalog(vec![
        ("A", Type::new_with_constructor("New", a_constructor.clone())),
        ("B", Type::new_with_constructor("New", b_constructor)),
    ]);
    let code = emit(&a_constructor, &object("c::A", "", "a", false), &pm, &scope(&[]));
    assert_eq!(
        code,
        Err(EmitError::CycleError {
            type_path: "c::A".to_string(),
            constructor_name: "New".to_string(),
        })
    );
    let found = pm.get_type("c::A").unwrap().constructors.get("New").unwrap();
    let code = emit(found, &object("c::A", "", "a", false), &pm, &scope(&[]));
    assert!(matches!(code, Err(EmitError::CycleError { .. })));
}

#[test]
fn constructor_that_needs_itself_is_a_cycle() {
    let constructor =
        with_arguments(vec![built(named("c::Own"), "own", ArgumentPassing::Move, "New")]);
    let pm = catalog(vec![("Own", Type::new_with_constructor("New", constructor.clone()))]);
    let code = emit(&constructor, &object("c::Own", "", "o", false), &pm, &scope(&[]));
    assert_eq!(
        code,
        Err(EmitError::CycleError {
            type_path: "c::Own".to_string(),
            constructor_name: "New".to_string(),
        })
    );
}

#[test]
fn cycle_below_the_first_constructor_is_found_too() {
    let a_constructor =
        with_arguments(vec![built(named("c::B"), "b", ArgumentPassing::Move, "New")]);
    let b_constructor =
        with_arguments(vec![built(named("c::A"), "a", ArgumentPassing::Move, "New")]);
    let pm = catalog(vec![
        ("A", Type::new_with_constructor("New", a_constructor)),
        ("B", Type::new_with_constructor("New", b_constructor)),
    ]);
    let top = with_arguments(vec![built(named("c::A"), "start", ArgumentPassing::Move, "New")]);
    let code = emit(&top, &object("c::Top", "", "t", false), &pm, &scope(&[]));
    assert_eq!(
        code,
        Err(EmitError::CycleError {
            type_path: "c::A".to_string(),
            constructor_name: "New".to_string(),
        })
    );
}

#[test]
fn one_type_used_twice_is_no_cycle() {
    let leaf = Type::new_with_constructor("New", Constructor::New { function_name: None });
    let constructor = with_arguments(vec![
        built(named("c::Leaf"), "left", ArgumentPassing::Move, "New"),
        built(named("c::Leaf"), "right", ArgumentPassing::Move, "New"),
    ]);
    let pm = catalog(vec![("Leaf", leaf)]);
    let code = emit(&constructor, &object("c::Pair", "", "p", false), &pm, &scope(&[]));
    assert_eq!(
        code,
        Ok("\nlet p_left = c::Leaf::new();\n\nlet p_right = c::Leaf::new();\nlet p = c::Pair::new(p_left, p_right);"
            .to_string())
    );
}

#[test]
fn arguments_are_written_with_their_passing() {
    let arguments = vec![
        existing("a", ArgumentPassing::Reference),
        existing("b", ArgumentPassing::MutableReference),
        existing("c", ArgumentPassing::Move),
        existing("d", ArgumentPassing::Clone),
        built(named("i32"), "e", ArgumentPassing::Reference, "Default"),
    ];
    assert_eq!(
        Constructor::emit_args(&arguments, &scope(&["s", "t"])),
        "&a, &mut b, c, d.clone(), &s_t_e"
    );
    assert_eq!(Constructor::emit_args(&vec![], &scope(&["s"])), "");
    assert_eq!(existing("a", ArgumentPassing::Reference).emit_prefix_code(), "&");
    assert_eq!(existing("a", ArgumentPassing::MutableReference).emit_prefix_code(), "&mut ");
    assert_eq!(existing("a", ArgumentPassing::Move).emit_prefix_code(), "");
    assert_eq!(existing("a", ArgumentPassing::Clone).emit_prefix_code(), "");
    assert_eq!(existing("a", ArgumentPassing::Reference).emit_postfix_code(), "");
    assert_eq!(existing("a", ArgumentPassing::MutableReference).emit_postfix_code(), "");
    assert_eq!(existing("a", ArgumentPassing::Move).emit_postfix_code(), "");
    assert_eq!(existing("a", ArgumentPassing::Clone).emit_postfix_code(), ".clone()");
}

#[test]
fn implicit_arguments_exist_already_and_are_cloned() {
    let observer = Argument::new_change_observer_arg();
    assert_eq!(observer, existing("change_observer", ArgumentPassing::Clone));
    let context = Argument::new_context_arg();
    assert_eq!(context, existing("context", ArgumentPassing::Clone));
}

#[test]
fn object_description_of_an_argument_is_mutable_for_a_mutable_reference_only() {
    let type_path = "c::T".to_string();
    let part = "<u8>".to_string();
    let argument = built(named("c::T"), "arg", ArgumentPassing::MutableReference, "New");
    assert_eq!(
        argument.into_object_description(&type_path, &part),
        object("c::T", "<u8>", "arg", true)
    );
    for passing in [ArgumentPassing::Reference, ArgumentPassing::Move, ArgumentPassing::Clone] {
        let argument = built(named("c::T"), "arg", passing, "New");
        assert_eq!(
            argument.into_object_description(&type_path, &part),
            object("c::T", "<u8>", "arg", false)
        );
    }
}

#[test]
fn small_parts_of_a_declaration() {
    assert_eq!(Constructor::emit_mutable(true), " mut");
    assert_eq!(Constructor::emit_mutable(false), "");
    assert_eq!(Constructor::emit_function_name(&None), "new");
    assert_eq!(Constructor::emit_function_name(&Some("make".to_string())), "make");
    assert_eq!(
        Constructor::emit_call_declaration(
            &object("c::T", "", "t", false),
            &None,
            &vec![built(named("i32"), "n", ArgumentPassing::Move, "Default")],
            &scope(&["s"]),
        ),
        "let s_t = c::T::new(s_t_n);"
    );
}

#[test]
fn same_tells_constructors_apart() {
    let plain = Constructor::New { function_name: None };
    let named_new = Constructor::New { function_name: Some("new".to_string()) };
    let observer = Constructor::NewWithObserver { function_name: None };
    let one = with_arguments(vec![built(named("c::T"), "a", ArgumentPassing::Move, "New")]);
    let other_name = with_arguments(vec![built(named("c::T"), "b", ArgumentPassing::Move, "New")]);
    let other_type = with_arguments(vec![built(placeholder("c::T"), "a", ArgumentPassing::Move, "New")]);
    let other_passing = with_arguments(vec![built(named("c::T"), "a", ArgumentPassing::Clone, "New")]);
    let other_builder = with_arguments(vec![built(named("c::T"), "a", ArgumentPassing::Move, "Make")]);
    let existing_one = with_arguments(vec![existing("a", ArgumentPassing::Move)]);
    let template = Constructor::FromCode { code_template: "x".to_string() };
    let all = vec![
        &plain,
        &named_new,
        &observer,
        &one,
        &other_name,
        &other_type,
        &other_passing,
        &other_builder,
        &existing_one,
        &template,
        &Constructor::FromJson,
        &Constructor::FromDefault,
    ];
    for (i, left) in all.iter().enumerate() {
        for (j, right) in all.iter().enumerate() {
            assert_eq!(left.same(right), i == j);
            assert_eq!(left.same(right), left == right);
        }
        assert!(left.same(&(*left).clone()));
        assert!(is_active(&all, left));
    }
    assert!(!is_active(&vec![&plain, &one], &observer));
    assert!(!is_active(&vec![], &plain));
}

#[test]
fn same_tells_type_parameters_apart() {
    let with = |parameters: Option<Vec<Box<TypeDescription>>>| TypeDescription::Type {
        name: "T".to_string(),
        type_parameters: parameters,
    };
    let all = vec![
        with(None),
        with(Some(vec![])),
        with(Some(vec![named("a")])),
        with(Some(vec![named("b")])),
        with(Some(vec![named("a"), named("b")])),
        with(Some(vec![Box::new(with(Some(vec![named("a")])))])),
        TypeDescription::Generic { name: "T".to_string(), type_parameters: None },
    ];
    for (i, left) in all.iter().enumerate() {
        for (j, right) in all.iter().enumerate() {
            assert_eq!(left.same(right), i == j);
        }
        assert_eq!(left.clone(), *left);
    }
}

#[test]
fn errors_are_written_as_sentences() {
    assert_eq!(
        EmitError::NotFound(Missing::Type("c::T".to_string())).message(),
        "Type description for 'c::T' not found."
    );
    assert_eq!(
        EmitError::NotFound(Missing::Constructor {
            constructor_name: "New".to_string(),
            type_path: "c::T".to_string(),
        })
        .message(),
        "Constructor 'New' for type 'c::T' not found."
    );
    assert_eq!(
        EmitError::NotFound(Missing::GenericBinding("T".to_string())).message(),
        "Generic type was not resolved"
    );
    assert_eq!(EmitError::TemplateError { message: "words".to_string() }.message(), "words");
    assert_eq!(
        EmitError::CycleError { type_path: "c::T".to_string(), constructor_name: "New".to_string() }
            .message(),
        "Constructor 'New' for type 'c::T' needs itself."
    );
}
