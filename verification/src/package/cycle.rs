//! Constructors that need each other.

use crate::name_map::lookup;
use crate::package::argument::ArgumentView;
use crate::package::argument_construction::ArgumentConstructionView;
use crate::package::constructor::ConstructorView;
use crate::package::emission::emitted;
use crate::package::emission::emitted_argument;
use crate::package::emission::emitted_call;
use crate::package::emit_error::EmitErrorView;
use crate::package::object_description::ObjectDescriptionView;
use crate::package::package::PackageView;
use crate::package::type_description::TypeDescriptionView;
use crate::package_manager::resolved;
use vstd::prelude::*;

verus! {

/// An argument of the named type, without type parameters, that the named
/// constructor of the type builds.
pub open spec fn needs(argument: ArgumentView, type_path: Seq<char>, builder: Seq<char>) -> bool {
    &&& argument.arg_type == (TypeDescriptionView::Type { name: type_path, type_parameters: None })
    &&& argument.construction == ArgumentConstructionView::Constructor(builder)
}

/// The named constructor of the named type is `constructor`.
pub open spec fn builds(
    packages: Seq<PackageView>,
    type_path: Seq<char>,
    builder: Seq<char>,
    constructor: ConstructorView,
) -> bool {
    &&& resolved(packages, type_path) is Some
    &&& lookup(resolved(packages, type_path)->0.constructors, builder) == Some(constructor)
}

/// The code of the one argument of a call cannot be generated: the call
/// fails with the same error.
pub proof fn lemma_only_argument_fails(
    object: ObjectDescriptionView,
    bindings: Seq<(Seq<char>, Seq<char>)>,
    function_name: Option<Seq<char>>,
    packages: Seq<PackageView>,
    argument: ArgumentView,
    builder: Seq<char>,
    scope: Seq<Seq<char>>,
    active: Seq<ConstructorView>,
)
    requires
        argument.construction == ArgumentConstructionView::Constructor(builder),
        emitted_argument(argument, builder, packages, scope.push(object.name), bindings, active)
            is Err,
    ensures
        emitted_call(object, bindings, function_name, packages, seq![argument], scope, active)
            == Err::<Seq<char>, EmitErrorView>(
            emitted_argument(
                argument,
                builder,
                packages,
                scope.push(object.name),
                bindings,
                active,
            )->Err_0,
        ),
{
    let arguments = seq![argument];
    let inner = scope.push(object.name);
}

/// Two constructors that need each other: the constructor of the first
/// type takes one argument, of the second type, that the constructor of
/// the second type builds, and that one takes one argument, of the first
/// type, that the constructor of the first type builds. The code of the
/// first cannot be generated, and the error names the first constructor as
/// the one that is needed while it is being generated.
pub proof fn lemma_two_constructors_in_a_cycle(
    packages: Seq<PackageView>,
    first_type: Seq<char>,
    first_builder: Seq<char>,
    first_name: Option<Seq<char>>,
    first_argument: ArgumentView,
    second_type: Seq<char>,
    second_builder: Seq<char>,
    second_name: Option<Seq<char>>,
    second_argument: ArgumentView,
    object: ObjectDescriptionView,
    bindings: Seq<(Seq<char>, Seq<char>)>,
    scope: Seq<Seq<char>>,
)
    requires
        builds(
            packages,
            first_type,
            first_builder,
            ConstructorView::NewWithArbitraryArgs {
                function_name: first_name,
                arguments: seq![first_argument],
            },
        ),
        builds(
            packages,
            second_type,
            second_builder,
            ConstructorView::NewWithArbitraryArgs {
                function_name: second_name,
                arguments: seq![second_argument],
            },
        ),
        needs(first_argument, second_type, second_builder),
        needs(second_argument, first_type, first_builder),
        first_type != second_type,
    ensures
        emitted(
            ConstructorView::NewWithArbitraryArgs {
                function_name: first_name,
                arguments: seq![first_argument],
            },
            object,
            bindings,
            packages,
            scope,
            seq![
                ConstructorView::NewWithArbitraryArgs {
                    function_name: first_name,
                    arguments: seq![first_argument],
                },
            ],
        ) == Err::<Seq<char>, EmitErrorView>(
            EmitErrorView::CycleError { type_path: first_type, constructor_name: first_builder },
        ),
{
    let first = ConstructorView::NewWithArbitraryArgs {
        function_name: first_name,
        arguments: seq![first_argument],
    };
    let second = ConstructorView::NewWithArbitraryArgs {
        function_name: second_name,
        arguments: seq![second_argument],
    };
    let cycle = EmitErrorView::CycleError { type_path: first_type, constructor_name: first_builder };
    assert(first != second);
    let active = seq![first];
    let deeper = active.push(second);
    let outer_scope = scope.push(object.name);
    assert(!active.contains(second));
    assert(deeper[0] == first);
    let second_object = crate::package::emission::argument_object(first_argument, second_type, ""@);
    let inner_scope = outer_scope.push(second_object.name);
    lemma_only_argument_fails(
        second_object,
        bindings,
        second_name,
        packages,
        second_argument,
        first_builder,
        outer_scope,
        deeper,
    );
    lemma_only_argument_fails(
        object,
        bindings,
        first_name,
        packages,
        first_argument,
        second_builder,
        scope,
        active,
    );
}

} // verus!
