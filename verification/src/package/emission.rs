//! What the engine writes: the code of each kind of constructor, as a
//! function of the constructor, the binding, the bound placeholders, the
//! catalog and the scope.

use crate::name_map::lookup;
use crate::name_map::stored;
use crate::package::argument::ArgumentView;
use crate::package::argument_construction::ArgumentConstructionView;
use crate::package::argument_passing::ArgumentPassing;
use crate::package::constructor::ConstructorView;
use crate::package::emit_error::EmitErrorView;
use crate::package::emit_error::MissingView;
use crate::package::known::known_constructors;
use crate::package::known::lemma_resolved_constructor_is_known;
use crate::package::known::lemma_unvisited_decreases;
use crate::package::known::unvisited;
use crate::package::object_description::ObjectDescriptionView;
use crate::package::package::PackageView;
use crate::package::type_description::TypeDescriptionView;
use crate::package_manager::resolved;
use crate::template::includes_partial;
use crate::template::template_output;
use crate::text::joined;
use vstd::prelude::*;

verus! {

/// What is written before the name of an argument that is passed this way.
pub open spec fn prefix_code(passing: ArgumentPassing) -> Seq<char> {
    match passing {
        ArgumentPassing::Move => ""@,
        ArgumentPassing::Clone => ""@,
        ArgumentPassing::MutableReference => "&mut "@,
        ArgumentPassing::Reference => "&"@,
    }
}

/// What is written behind the name of an argument that is passed this way.
pub open spec fn postfix_code(passing: ArgumentPassing) -> Seq<char> {
    match passing {
        ArgumentPassing::Move => ""@,
        ArgumentPassing::Clone => ".clone()"@,
        ArgumentPassing::MutableReference => ""@,
        ArgumentPassing::Reference => ""@,
    }
}

/// What is written behind `let` for a binding that is or is not mutable.
pub open spec fn mutable_code(is_mutable: bool) -> Seq<char> {
    if is_mutable {
        " mut"@
    } else {
        ""@
    }
}

/// The name of the function that is called: the one given, or `new`.
pub open spec fn function_name_code(function_name: Option<Seq<char>>) -> Seq<char> {
    match function_name {
        Some(name) => name,
        None => "new"@,
    }
}

/// The segments of a scope written as one word.
pub open spec fn scope_code(scope: Seq<Seq<char>>) -> Seq<char> {
    joined(scope, "_"@)
}

/// The identifier that the generated code uses for the binding `name`
/// inside `scope`: the name itself where the scope is empty or is to be
/// ignored, and the scope written as one word before the name where not.
pub open spec fn qualified_name(name: Seq<char>, scope: Seq<Seq<char>>, ignore: bool) -> Seq<char> {
    if scope.len() == 0 || ignore {
        name
    } else {
        scope_code(scope) + "_"@ + name
    }
}

/// A binding of the same name inside a scope and inside a scope nested
/// in it, at any depth, gets two identifiers.
pub proof fn lemma_nested_identifiers_differ(
    name: Seq<char>,
    outer: Seq<Seq<char>>,
    inner: Seq<Seq<char>>,
)
    requires
        outer.len() < inner.len(),
        inner.take(outer.len() as int) == outer,
    ensures
        qualified_name(name, outer, false) != qualified_name(name, inner, false),
{
    reveal_strlit("_");
    if outer.len() > 0 {
        crate::text::lemma_joined_grows(inner, outer.len() as int, "_"@);
    }
    assert(qualified_name(name, outer, false).len() < qualified_name(name, inner, false).len());
}

/// A binding of the same name inside two scopes of different depth gets
/// two identifiers, unless the two scopes, written as one word, are the
/// same word.
pub proof fn lemma_identifiers_differ(name: Seq<char>, first: Seq<Seq<char>>, second: Seq<Seq<char>>)
    requires
        first.len() != second.len(),
        first.len() == 0 || second.len() == 0 || scope_code(first) != scope_code(second),
    ensures
        qualified_name(name, first, false) != qualified_name(name, second, false),
{
    reveal_strlit("_");
    let one = qualified_name(name, first, false);
    let two = qualified_name(name, second, false);
    if first.len() > 0 && second.len() > 0 && one == two {
        let a = scope_code(first);
        let b = scope_code(second);
        assert forall|at: int| 0 <= at < a.len() implies a[at] == b[at] by {
            assert(one[at] == a[at]);
            assert(two[at] == b[at]);
        }
        assert(a =~= b);
    }
}

/// One argument as it is written in a call. An argument that exists
/// already is named without the scope.
pub open spec fn argument_code(argument: ArgumentView, scope: Seq<Seq<char>>) -> Seq<char> {
    prefix_code(argument.passing) + qualified_name(
        argument.name,
        scope,
        argument.construction is ExistingObject,
    ) + postfix_code(argument.passing)
}

/// Each argument as it is written in a call.
pub open spec fn argument_codes(arguments: Seq<ArgumentView>, scope: Seq<Seq<char>>) -> Seq<
    Seq<char>,
> {
    Seq::new(arguments.len(), |at: int| argument_code(arguments[at], scope))
}

/// The arguments as they are written between the brackets of a call.
pub open spec fn arguments_code(arguments: Seq<ArgumentView>, scope: Seq<Seq<char>>) -> Seq<char> {
    joined(argument_codes(arguments, scope), ", "@)
}

/// The name that a description stands for: its own, or for a placeholder
/// the name bound to it.
pub open spec fn head_code(
    description: TypeDescriptionView,
    bindings: Seq<(Seq<char>, Seq<char>)>,
) -> Result<Seq<char>, EmitErrorView> {
    match description {
        TypeDescriptionView::Type { name, .. } => Ok(name),
        TypeDescriptionView::Generic { name, .. } => match lookup(bindings, name) {
            Some(bound) => Ok(bound),
            None => Err(EmitErrorView::NotFound(MissingView::GenericBinding(name))),
        },
    }
}

/// A description as it is written in the generated code: the name it
/// stands for and, between angle brackets, the descriptions it is
/// instantiated with. The first placeholder without a binding, reading from
/// the left, is the error.
pub open spec fn description_code(
    description: TypeDescriptionView,
    bindings: Seq<(Seq<char>, Seq<char>)>,
) -> Result<Seq<char>, EmitErrorView>
    decreases description,
{
    match head_code(description, bindings) {
        Err(error) => Err(error),
        Ok(head) => {
            let parameters = match description {
                TypeDescriptionView::Type { type_parameters, .. } => type_parameters,
                TypeDescriptionView::Generic { type_parameters, .. } => type_parameters,
            };
            match parameters_code(parameters, bindings) {
                Err(error) => Err(error),
                Ok(part) => Ok(head + part),
            }
        },
    }
}

/// The part of a declaration that names the types a type is instantiated
/// with: nothing where there are none, else the descriptions between angle
/// brackets with a comma between neighbours.
pub open spec fn parameters_code(
    parameters: Option<Seq<TypeDescriptionView>>,
    bindings: Seq<(Seq<char>, Seq<char>)>,
) -> Result<Seq<char>, EmitErrorView>
    decreases parameters,
{
    match parameters {
        Some(list) => if list.len() == 0 {
            Ok(""@)
        } else {
            match descriptions_code(list, bindings) {
                Err(error) => Err(error),
                Ok(texts) => Ok("<"@ + joined(texts, ","@) + ">"@),
            }
        },
        None => Ok(""@),
    }
}

/// Each description of the list as it is written in the generated code.
pub open spec fn descriptions_code(
    list: Seq<TypeDescriptionView>,
    bindings: Seq<(Seq<char>, Seq<char>)>,
) -> Result<Seq<Seq<char>>, EmitErrorView>
    decreases list,
{
    if list.len() == 0 {
        Ok(Seq::empty())
    } else {
        match descriptions_code(list.drop_last(), bindings) {
            Err(error) => Err(error),
            Ok(texts) => match description_code(list.last(), bindings) {
                Err(error) => Err(error),
                Ok(text) => Ok(texts.push(text)),
            },
        }
    }
}

/// The statement that declares `object` inside `scope` as the result of a
/// call of `function_name` with `arguments`.
pub open spec fn call_declaration(
    object: ObjectDescriptionView,
    function_name: Option<Seq<char>>,
    arguments: Seq<ArgumentView>,
    scope: Seq<Seq<char>>,
) -> Seq<char> {
    "let"@ + mutable_code(object.is_mutable) + " "@ + qualified_name(object.name, scope, false)
        + " = "@ + object.type_path + "::"@ + (if object.type_parameter_part.len() == 0 {
        ""@
    } else {
        object.type_parameter_part + "::"@
    }) + function_name_code(function_name) + "("@ + arguments_code(
        arguments,
        scope.push(object.name),
    ) + ");"@
}

/// The statement that declares `object` inside `scope` with the default
/// value of its type.
pub open spec fn default_declaration(object: ObjectDescriptionView, scope: Seq<Seq<char>>) -> Seq<
    char,
> {
    "let"@ + mutable_code(object.is_mutable) + " "@ + qualified_name(object.name, scope, false)
        + ":"@ + object.type_path + object.type_parameter_part + " = Default::default();"@
}

/// One key of the document, as the generated code writes it: between
/// square brackets and double quotes.
pub open spec fn key_code(key: Seq<char>) -> Seq<char> {
    "[\""@ + key + "\"]"@
}

/// The keys written one after another.
pub open spec fn keys_code(keys: Seq<Seq<char>>) -> Seq<char>
    decreases keys.len(),
{
    if keys.len() == 0 {
        Seq::empty()
    } else {
        keys_code(keys.drop_last()) + key_code(keys.last())
    }
}

/// The keys under which the document holds the value of the binding `name`
/// inside `scope`: one key for each segment of the scope, in order, and
/// then one for the name.
pub open spec fn json_path(scope: Seq<Seq<char>>, name: Seq<char>) -> Seq<char> {
    keys_code(scope) + key_code(name)
}

/// The statement that declares `object` inside `scope` with the value that
/// the document holds for it.
pub open spec fn json_declaration(object: ObjectDescriptionView, scope: Seq<Seq<char>>) -> Seq<
    char,
> {
    "let"@ + mutable_code(object.is_mutable) + " "@ + qualified_name(object.name, scope, false)
        + ": "@ + object.type_path + object.type_parameter_part
        + " = serde_json::from_value(data"@ + json_path(scope, object.name)
        + ".clone()).expect(\"Could not create '"@ + qualified_name(object.name, scope, false)
        + "' from Json.\");"@
}

/// `data` with one more entry for each of the first `count` bindings: the
/// name of the placeholder behind `type_parameter_`, with the name bound to
/// it.
pub open spec fn with_bindings(
    data: Seq<(Seq<char>, Seq<char>)>,
    bindings: Seq<(Seq<char>, Seq<char>)>,
    count: nat,
) -> Seq<(Seq<char>, Seq<char>)>
    decreases count,
{
    if count == 0 || count > bindings.len() {
        data
    } else {
        stored(
            with_bindings(data, bindings, (count - 1) as nat),
            "type_parameter_"@ + bindings[count - 1].0,
            bindings[count - 1].1,
        )
    }
}

/// What a template can name: the identifier of the binding, the name of
/// its type, the types that the type is instantiated with, the word for a
/// mutable binding, and each bound placeholder. An entry stored later takes
/// the place of an earlier one of the same name.
pub open spec fn template_data(
    object: ObjectDescriptionView,
    scope: Seq<Seq<char>>,
    bindings: Seq<(Seq<char>, Seq<char>)>,
) -> Seq<(Seq<char>, Seq<char>)> {
    let identifier = stored(
        Seq::empty(),
        "fully_qualified_name"@,
        qualified_name(object.name, scope, false),
    );
    let named = stored(identifier, "type_name"@, object.type_path);
    let instantiated = stored(named, "type_parameter_part"@, object.type_parameter_part);
    let fixed = stored(instantiated, "mutable"@, mutable_code(object.is_mutable));
    with_bindings(fixed, bindings, bindings.len())
}

/// The code of a template constructor. A template that includes a partial
/// is an error, and the engine is not asked. Any other template is handed
/// to the engine with `data`, in the mode in which a variable without a
/// value is an error.
pub open spec fn template_code(template: Seq<char>, data: Seq<(Seq<char>, Seq<char>)>) -> Result<
    Seq<char>,
    EmitErrorView,
> {
    if includes_partial(template) {
        Err(EmitErrorView::TemplateError)
    } else {
        template_outcome(template_output(template, data, true))
    }
}

/// What the engine returned, as the code of a template constructor: the
/// text, or the error where it reported one.
pub open spec fn template_outcome(rendered: Option<Seq<char>>) -> Result<Seq<char>, EmitErrorView> {
    match rendered {
        Some(text) => Ok(text),
        None => Err(EmitErrorView::TemplateError),
    }
}

/// The argument that stands for the change observer: it exists already
/// and is passed as a clone.
pub open spec fn change_observer_argument() -> ArgumentView {
    ArgumentView {
        arg_type: TypeDescriptionView::Type { name: "()"@, type_parameters: None },
        name: "change_observer"@,
        passing: ArgumentPassing::Clone,
        construction: ArgumentConstructionView::ExistingObject,
    }
}

/// The argument that stands for the context: it exists already and is
/// passed as a clone.
pub open spec fn context_argument() -> ArgumentView {
    ArgumentView {
        arg_type: TypeDescriptionView::Type { name: "()"@, type_parameters: None },
        name: "context"@,
        passing: ArgumentPassing::Clone,
        construction: ArgumentConstructionView::ExistingObject,
    }
}

/// The arguments that a constructor passes to its function. The
/// constructors that pass no argument have none.
pub open spec fn arguments_of(constructor: ConstructorView) -> Seq<ArgumentView> {
    match constructor {
        ConstructorView::NewWithObserver { .. } => seq![change_observer_argument()],
        ConstructorView::NewWithObserverAndContext { .. } => seq![
            change_observer_argument(),
            context_argument(),
        ],
        ConstructorView::NewWithArbitraryArgs { arguments, .. } => arguments,
        _ => Seq::empty(),
    }
}

/// The binding that the code of an argument declares: the argument's name,
/// with the type found for it, mutable exactly when the argument is passed
/// by mutable reference.
pub open spec fn argument_object(
    argument: ArgumentView,
    type_path: Seq<char>,
    type_parameter_part: Seq<char>,
) -> ObjectDescriptionView {
    ObjectDescriptionView {
        type_path,
        type_parameter_part,
        name: argument.name,
        is_mutable: argument.passing == ArgumentPassing::MutableReference,
    }
}

/// The code that `constructor` generates for the binding `object` inside
/// `scope`, while the constructors in `active` are being generated.
pub open spec fn emitted(
    constructor: ConstructorView,
    object: ObjectDescriptionView,
    bindings: Seq<(Seq<char>, Seq<char>)>,
    packages: Seq<PackageView>,
    scope: Seq<Seq<char>>,
    active: Seq<ConstructorView>,
) -> Result<Seq<char>, EmitErrorView>
    decreases unvisited(known_constructors(packages), active), 3nat, 0nat,
{
    match constructor {
        ConstructorView::New { function_name } => emitted_call(
            object,
            bindings,
            function_name,
            packages,
            arguments_of(constructor),
            scope,
            active,
        ),
        ConstructorView::NewWithObserver { function_name } => emitted_call(
            object,
            bindings,
            function_name,
            packages,
            arguments_of(constructor),
            scope,
            active,
        ),
        ConstructorView::NewWithObserverAndContext { function_name } => emitted_call(
            object,
            bindings,
            function_name,
            packages,
            arguments_of(constructor),
            scope,
            active,
        ),
        ConstructorView::NewWithArbitraryArgs { function_name, arguments } => emitted_call(
            object,
            bindings,
            function_name,
            packages,
            arguments,
            scope,
            active,
        ),
        ConstructorView::FromJson => Ok(json_declaration(object, scope)),
        ConstructorView::FromDefault => Ok(default_declaration(object, scope)),
        ConstructorView::FromCode { code_template } => template_code(
            code_template,
            template_data(object, scope, bindings),
        ),
    }
}

/// The code of a call: the code that builds the arguments, each block on
/// lines of its own, in the order of the arguments, and then the statement
/// that declares the binding. The arguments are bound inside the scope of
/// the binding, which is `scope` with the binding's name added.
pub open spec fn emitted_call(
    object: ObjectDescriptionView,
    bindings: Seq<(Seq<char>, Seq<char>)>,
    function_name: Option<Seq<char>>,
    packages: Seq<PackageView>,
    arguments: Seq<ArgumentView>,
    scope: Seq<Seq<char>>,
    active: Seq<ConstructorView>,
) -> Result<Seq<char>, EmitErrorView>
    decreases unvisited(known_constructors(packages), active), 2nat, 0nat,
{
    match emitted_blocks(packages, arguments, scope.push(object.name), bindings, active) {
        Err(error) => Err(error),
        Ok(blocks) => Ok(
            joined(blocks, "\n"@) + "\n"@ + call_declaration(
                object,
                function_name,
                arguments,
                scope,
            ),
        ),
    }
}

/// The blocks of code that build the arguments that are to be built, in
/// the order of the arguments. An argument that exists already has no
/// block. The first argument that cannot be built is the error.
pub open spec fn emitted_blocks(
    packages: Seq<PackageView>,
    arguments: Seq<ArgumentView>,
    scope: Seq<Seq<char>>,
    bindings: Seq<(Seq<char>, Seq<char>)>,
    active: Seq<ConstructorView>,
) -> Result<Seq<Seq<char>>, EmitErrorView>
    decreases unvisited(known_constructors(packages), active), 1nat, arguments.len(),
{
    if arguments.len() == 0 {
        Ok(Seq::empty())
    } else {
        match emitted_blocks(packages, arguments.drop_last(), scope, bindings, active) {
            Err(error) => Err(error),
            Ok(blocks) => match arguments.last().construction {
                ArgumentConstructionView::Constructor(name) => match emitted_argument(
                    arguments.last(),
                    name,
                    packages,
                    scope,
                    bindings,
                    active,
                ) {
                    Err(error) => Err(error),
                    Ok(block) => Ok(blocks.push(block)),
                },
                ArgumentConstructionView::ExistingObject => Ok(blocks),
            },
        }
    }
}

/// The name of the type that the constructor of an argument is looked up
/// in: the name that the argument's description gives, or for a placeholder
/// the name bound to it.
pub open spec fn argument_type_path(
    argument: ArgumentView,
    bindings: Seq<(Seq<char>, Seq<char>)>,
) -> Option<Seq<char>> {
    match argument.arg_type {
        TypeDescriptionView::Type { name, .. } => Some(name),
        TypeDescriptionView::Generic { name, .. } => lookup(bindings, name),
    }
}

/// The types that the type of an argument is instantiated with.
pub open spec fn argument_type_parameters(argument: ArgumentView) -> Option<
    Seq<TypeDescriptionView>,
> {
    match argument.arg_type {
        TypeDescriptionView::Type { type_parameters, .. } => type_parameters,
        TypeDescriptionView::Generic { type_parameters, .. } => type_parameters,
    }
}

/// The code that builds one argument with the constructor `name` of its
/// type. The errors, in the order in which they are looked for: the
/// placeholder has no binding; the catalog has no type of the name; the
/// type has no constructor of the name (for a placeholder the error names
/// the placeholder, not the type bound to it); a placeholder among the
/// types that the type is instantiated with has no binding; the
/// constructor found is being generated already.
pub open spec fn emitted_argument(
    argument: ArgumentView,
    name: Seq<char>,
    packages: Seq<PackageView>,
    scope: Seq<Seq<char>>,
    bindings: Seq<(Seq<char>, Seq<char>)>,
    active: Seq<ConstructorView>,
) -> Result<Seq<char>, EmitErrorView>
    decreases unvisited(known_constructors(packages), active), 0nat, 0nat,
{
    match argument_type_path(argument, bindings) {
        None => Err(EmitErrorView::NotFound(MissingView::GenericBinding(argument.arg_type.name()))),
        Some(type_path) => match resolved(packages, type_path) {
            None => Err(EmitErrorView::NotFound(MissingView::Type(type_path))),
            Some(found) => match lookup(found.constructors, name) {
                None => Err(
                    EmitErrorView::NotFound(
                        MissingView::Constructor {
                            constructor_name: name,
                            type_path: argument.arg_type.name(),
                        },
                    ),
                ),
                Some(constructor) => match parameters_code(
                    argument_type_parameters(argument),
                    bindings,
                ) {
                    Err(error) => Err(error),
                    Ok(part) => if active.contains(constructor) {
                        Err(EmitErrorView::CycleError { type_path, constructor_name: name })
                    } else {
                        proof {
                            lemma_resolved_constructor_is_known(packages, type_path, name);
                            lemma_unvisited_decreases(
                                known_constructors(packages),
                                active,
                                constructor,
                            );
                        }
                        emitted(
                            constructor,
                            argument_object(argument, type_path, part),
                            bindings,
                            packages,
                            scope,
                            active.push(constructor),
                        )
                    },
                },
            },
        },
    }
}

/// A constructor that calls a function without arguments generates one
/// statement, on a line of its own: it declares the binding under its
/// identifier as the result of the call.
pub proof fn lemma_direct_call_is_one_declaration(
    function_name: Option<Seq<char>>,
    object: ObjectDescriptionView,
    bindings: Seq<(Seq<char>, Seq<char>)>,
    packages: Seq<PackageView>,
    scope: Seq<Seq<char>>,
    active: Seq<ConstructorView>,
)
    ensures
        emitted(ConstructorView::New { function_name }, object, bindings, packages, scope, active)
            == Ok::<Seq<char>, EmitErrorView>(
            "\n"@ + ("let"@ + mutable_code(object.is_mutable) + " "@ + qualified_name(
                object.name,
                scope,
                false,
            ) + " = "@ + object.type_path + "::"@ + (if object.type_parameter_part.len() == 0 {
                ""@
            } else {
                object.type_parameter_part + "::"@
            }) + function_name_code(function_name) + "("@ + ");"@),
        ),
{
    let constructor = ConstructorView::New { function_name };
    let inner = scope.push(object.name);
    let none = Seq::<ArgumentView>::empty();
    let start = "let"@ + mutable_code(object.is_mutable) + " "@ + qualified_name(
        object.name,
        scope,
        false,
    ) + " = "@ + object.type_path + "::"@ + (if object.type_parameter_part.len() == 0 {
        ""@
    } else {
        object.type_parameter_part + "::"@
    }) + function_name_code(function_name) + "("@;
}

/// If the first descriptions of a list cannot be written, the error is the
/// error of the whole list.
pub proof fn lemma_descriptions_error(
    list: Seq<TypeDescriptionView>,
    count: int,
    bindings: Seq<(Seq<char>, Seq<char>)>,
)
    requires
        0 <= count <= list.len(),
        descriptions_code(list.take(count), bindings) is Err,
    ensures
        descriptions_code(list, bindings) == descriptions_code(list.take(count), bindings),
    decreases list.len(),
{
    if count < list.len() {
        assert(list.drop_last().take(count) =~= list.take(count));
        lemma_descriptions_error(list.drop_last(), count, bindings);
    } else {
        assert(list.take(count) =~= list);
    }
}

/// If the first arguments of a list cannot be built, the error is the
/// error of the whole list.
pub proof fn lemma_blocks_error(
    packages: Seq<PackageView>,
    arguments: Seq<ArgumentView>,
    count: int,
    scope: Seq<Seq<char>>,
    bindings: Seq<(Seq<char>, Seq<char>)>,
    active: Seq<ConstructorView>,
)
    requires
        0 <= count <= arguments.len(),
        emitted_blocks(packages, arguments.take(count), scope, bindings, active) is Err,
    ensures
        emitted_blocks(packages, arguments, scope, bindings, active) == emitted_blocks(
            packages,
            arguments.take(count),
            scope,
            bindings,
            active,
        ),
    decreases arguments.len(),
{
    if count < arguments.len() {
        assert(arguments.drop_last().take(count) =~= arguments.take(count));
        lemma_blocks_error(packages, arguments.drop_last(), count, scope, bindings, active);
    } else {
        assert(arguments.take(count) =~= arguments);
    }
}

} // verus!
