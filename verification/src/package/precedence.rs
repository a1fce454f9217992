//! Where the code of an argument stands in the code of the call that takes
//! it.

use crate::package::argument::ArgumentView;
use crate::package::argument_construction::ArgumentConstructionView;
use crate::package::constructor::ConstructorView;
use crate::name_map::lookup;
use crate::package::emission::argument_object;
use crate::package::emission::argument_type_parameters;
use crate::package::emission::argument_type_path;
use crate::package::emission::call_declaration;
use crate::package::emission::emitted;
use crate::package::emission::parameters_code;
use crate::package_manager::resolved;
use crate::package::emission::emitted_argument;
use crate::package::emission::emitted_blocks;
use crate::package::emission::emitted_call;
use crate::package::emit_error::EmitErrorView;
use crate::package::object_description::ObjectDescriptionView;
use crate::package::package::PackageView;
use crate::text::joined_front;
use crate::text::joined_rest;
use crate::text::lemma_joined_holds;
use vstd::prelude::*;

verus! {

/// Five texts written one after another.
pub open spec fn spliced(
    before: Seq<char>,
    first: Seq<char>,
    between: Seq<char>,
    second: Seq<char>,
    behind: Seq<char>,
) -> Seq<char> {
    before + first + between + second + behind
}

/// `text` holds `first` and, somewhere behind the end of it, `second`.
pub open spec fn precedes(text: Seq<char>, first: Seq<char>, second: Seq<char>) -> bool {
    exists|before: Seq<char>, between: Seq<char>, behind: Seq<char>|
        text == #[trigger] spliced(before, first, between, second, behind)
}

/// What stands in order inside a block stands in the same order in a text
/// that holds the block, and before what stands behind the block.
pub proof fn lemma_precedes_inside(
    text: Seq<char>,
    block: Seq<char>,
    first: Seq<char>,
    second: Seq<char>,
    third: Seq<char>,
)
    requires
        precedes(block, first, second),
        precedes(text, block, third),
    ensures
        precedes(text, first, second),
        precedes(text, second, third),
        precedes(text, first, third),
{
    let (inner_before, inner_between, inner_behind) = choose|
        before: Seq<char>,
        between: Seq<char>,
        behind: Seq<char>,
    | block == #[trigger] spliced(before, first, between, second, behind);
    let (before, between, behind) = choose|before: Seq<char>, between: Seq<char>, behind: Seq<char>|
        text == #[trigger] spliced(before, block, between, third, behind);
    assert(text =~= spliced(
        before + inner_before,
        first,
        inner_between,
        second,
        inner_behind + between + third + behind,
    ));
    assert(text =~= spliced(
        before + inner_before + first + inner_between,
        second,
        inner_behind + between,
        third,
        behind,
    ));
    assert(text =~= spliced(
        before + inner_before,
        first,
        inner_between + second + inner_behind + between,
        third,
        behind,
    ));
}

/// The name of the constructor that builds an argument.
pub open spec fn builder_of(argument: ArgumentView) -> Seq<char> {
    match argument.construction {
        ArgumentConstructionView::Constructor(name) => name,
        ArgumentConstructionView::ExistingObject => Seq::empty(),
    }
}

/// How many of the first `count` arguments are to be built.
pub open spec fn built_before(arguments: Seq<ArgumentView>, count: int) -> int
    decreases count,
{
    if count <= 0 {
        0
    } else {
        built_before(arguments, count - 1) + if arguments[count - 1].construction is Constructor {
            1int
        } else {
            0int
        }
    }
}

/// The count of arguments to be built among the first ones depends on the
/// first ones alone.
pub proof fn lemma_built_before(arguments: Seq<ArgumentView>, front: Seq<ArgumentView>, count: int)
    requires
        0 <= count <= front.len() <= arguments.len(),
        front =~= arguments.take(front.len() as int),
    ensures
        built_before(front, count) == built_before(arguments, count),
    decreases count,
{
    if count > 0 {
        lemma_built_before(arguments, front, count - 1);
    }
}

/// The count of arguments to be built among the first ones grows with
/// their number.
pub proof fn lemma_built_before_grows(arguments: Seq<ArgumentView>, low: int, high: int)
    requires
        0 <= low <= high,
    ensures
        0 <= built_before(arguments, low) <= built_before(arguments, high),
    decreases high,
{
    if low < high {
        lemma_built_before_grows(arguments, low, high - 1);
    } else if low > 0 {
        lemma_built_before_grows(arguments, low - 1, low - 1);
    }
}

/// Where the arguments can be built, the code of each argument that is to
/// be built is one of the blocks: as many blocks stand before it as
/// arguments before it are to be built.
pub proof fn lemma_block_of_argument(
    packages: Seq<PackageView>,
    arguments: Seq<ArgumentView>,
    scope: Seq<Seq<char>>,
    bindings: Seq<(Seq<char>, Seq<char>)>,
    active: Seq<ConstructorView>,
    at: int,
)
    requires
        emitted_blocks(packages, arguments, scope, bindings, active) is Ok,
        0 <= at < arguments.len(),
        arguments[at].construction is Constructor,
    ensures
        emitted_blocks(packages, arguments, scope, bindings, active)->Ok_0.len() == built_before(
            arguments,
            arguments.len() as int,
        ),
        0 <= built_before(arguments, at) < built_before(arguments, arguments.len() as int),
        emitted_argument(arguments[at], builder_of(arguments[at]), packages, scope, bindings, active)
            == Ok::<Seq<char>, EmitErrorView>(
            emitted_blocks(packages, arguments, scope, bindings, active)->Ok_0[built_before(
                arguments,
                at,
            )],
        ),
    decreases arguments.len(),
{
    lemma_blocks_count(packages, arguments, scope, bindings, active);
    let front = arguments.drop_last();
    lemma_built_before(arguments, front, front.len() as int);
    lemma_blocks_count(packages, front, scope, bindings, active);
    lemma_built_before_grows(arguments, at, at);
    lemma_built_before_grows(arguments, at + 1, arguments.len() as int);
    if at < arguments.len() - 1 {
        lemma_block_of_argument(packages, front, scope, bindings, active, at);
        lemma_built_before(arguments, front, at);
    }
}

/// Where the arguments can be built, there are as many blocks as
/// arguments that are to be built.
pub proof fn lemma_blocks_count(
    packages: Seq<PackageView>,
    arguments: Seq<ArgumentView>,
    scope: Seq<Seq<char>>,
    bindings: Seq<(Seq<char>, Seq<char>)>,
    active: Seq<ConstructorView>,
)
    requires
        emitted_blocks(packages, arguments, scope, bindings, active) is Ok,
    ensures
        emitted_blocks(packages, arguments, scope, bindings, active)->Ok_0.len() == built_before(
            arguments,
            arguments.len() as int,
        ),
    decreases arguments.len(),
{
    if arguments.len() > 0 {
        let front = arguments.drop_last();
        lemma_blocks_count(packages, front, scope, bindings, active);
        lemma_built_before(arguments, front, front.len() as int);
    }
}

/// In the code of a call, the code that builds an argument stands before
/// the statement that declares the binding the argument is for.
pub proof fn lemma_argument_precedes_declaration(
    object: ObjectDescriptionView,
    bindings: Seq<(Seq<char>, Seq<char>)>,
    function_name: Option<Seq<char>>,
    packages: Seq<PackageView>,
    arguments: Seq<ArgumentView>,
    scope: Seq<Seq<char>>,
    active: Seq<ConstructorView>,
    at: int,
)
    requires
        emitted_call(object, bindings, function_name, packages, arguments, scope, active) is Ok,
        0 <= at < arguments.len(),
        arguments[at].construction is Constructor,
    ensures
        emitted_argument(
            arguments[at],
            builder_of(arguments[at]),
            packages,
            scope.push(object.name),
            bindings,
            active,
        ) is Ok,
        precedes(
            emitted_call(object, bindings, function_name, packages, arguments, scope, active)->Ok_0,
            emitted_argument(
                arguments[at],
                builder_of(arguments[at]),
                packages,
                scope.push(object.name),
                bindings,
                active,
            )->Ok_0,
            call_declaration(object, function_name, arguments, scope),
        ),
{
    let inner = scope.push(object.name);
    let blocks = emitted_blocks(packages, arguments, inner, bindings, active)->Ok_0;
    let text = emitted_call(
        object,
        bindings,
        function_name,
        packages,
        arguments,
        scope,
        active,
    )->Ok_0;
    let declaration = call_declaration(object, function_name, arguments, scope);
    lemma_block_of_argument(packages, arguments, inner, bindings, active, at);
    let i = built_before(arguments, at);
    lemma_joined_holds(blocks, i, "\n"@);
    let before = joined_front(blocks, i, "\n"@);
    let between = joined_rest(blocks, i + 1, "\n"@) + "\n"@;
    assert(text =~= spliced(before, blocks[i], between, declaration, Seq::empty()));
}

/// In the code of a call, the code that builds an argument stands before
/// the code that builds an argument behind it.
pub proof fn lemma_arguments_are_built_in_order(
    object: ObjectDescriptionView,
    bindings: Seq<(Seq<char>, Seq<char>)>,
    function_name: Option<Seq<char>>,
    packages: Seq<PackageView>,
    arguments: Seq<ArgumentView>,
    scope: Seq<Seq<char>>,
    active: Seq<ConstructorView>,
    first: int,
    second: int,
)
    requires
        emitted_call(object, bindings, function_name, packages, arguments, scope, active) is Ok,
        0 <= first < second < arguments.len(),
        arguments[first].construction is Constructor,
        arguments[second].construction is Constructor,
    ensures
        precedes(
            emitted_call(object, bindings, function_name, packages, arguments, scope, active)->Ok_0,
            emitted_argument(
                arguments[first],
                builder_of(arguments[first]),
                packages,
                scope.push(object.name),
                bindings,
                active,
            )->Ok_0,
            emitted_argument(
                arguments[second],
                builder_of(arguments[second]),
                packages,
                scope.push(object.name),
                bindings,
                active,
            )->Ok_0,
        ),
{
    let inner = scope.push(object.name);
    let blocks = emitted_blocks(packages, arguments, inner, bindings, active)->Ok_0;
    let text = emitted_call(
        object,
        bindings,
        function_name,
        packages,
        arguments,
        scope,
        active,
    )->Ok_0;
    let declaration = call_declaration(object, function_name, arguments, scope);
    lemma_block_of_argument(packages, arguments, inner, bindings, active, first);
    lemma_block_of_argument(packages, arguments, inner, bindings, active, second);
    let i = built_before(arguments, first);
    let j = built_before(arguments, second);
    lemma_built_before_grows(arguments, first + 1, second);
    lemma_joined_holds(blocks, j, "\n"@);
    let front = blocks.take(j);
    lemma_joined_holds(front, i, "\n"@);
    assert(front[i] == blocks[i]);
    let before = joined_front(front, i, "\n"@);
    let between = joined_rest(front, i + 1, "\n"@) + "\n"@;
    let behind = joined_rest(blocks, j + 1, "\n"@) + "\n"@ + declaration;
    assert(text =~= spliced(before, blocks[i], between, blocks[j], behind));
}

/// The constructor that builds an argument, where the argument names a
/// type of the catalog that has a constructor of the name.
pub open spec fn found_builder(
    argument: ArgumentView,
    packages: Seq<PackageView>,
    bindings: Seq<(Seq<char>, Seq<char>)>,
) -> Option<ConstructorView> {
    match argument_type_path(argument, bindings) {
        Some(type_path) => match resolved(packages, type_path) {
            Some(found) => lookup(found.constructors, builder_of(argument)),
            None => None,
        },
        None => None,
    }
}

/// The binding that the code of an argument declares, where the type of
/// the argument can be written.
pub open spec fn built_object(
    argument: ArgumentView,
    bindings: Seq<(Seq<char>, Seq<char>)>,
) -> ObjectDescriptionView {
    argument_object(
        argument,
        argument_type_path(argument, bindings)->0,
        parameters_code(argument_type_parameters(argument), bindings)->Ok_0,
    )
}

/// The code of an argument, where it can be generated, is the code that
/// the constructor found for it generates for the binding of the argument,
/// with the constructor added to those that are being generated.
pub proof fn lemma_argument_code(
    argument: ArgumentView,
    packages: Seq<PackageView>,
    scope: Seq<Seq<char>>,
    bindings: Seq<(Seq<char>, Seq<char>)>,
    active: Seq<ConstructorView>,
)
    requires
        emitted_argument(argument, builder_of(argument), packages, scope, bindings, active) is Ok,
    ensures
        found_builder(argument, packages, bindings) is Some,
        !active.contains(found_builder(argument, packages, bindings)->0),
        emitted_argument(argument, builder_of(argument), packages, scope, bindings, active)
            == emitted(
            found_builder(argument, packages, bindings)->0,
            built_object(argument, bindings),
            bindings,
            packages,
            scope,
            active.push(found_builder(argument, packages, bindings)->0),
        ),
{
}

/// Two levels of arguments: in the code of a call, the code of an
/// argument of an argument stands before the statement that declares the
/// argument, and that statement stands before the statement that declares
/// the binding of the call.
pub proof fn lemma_two_levels_are_built_in_order(
    object: ObjectDescriptionView,
    bindings: Seq<(Seq<char>, Seq<char>)>,
    function_name: Option<Seq<char>>,
    packages: Seq<PackageView>,
    arguments: Seq<ArgumentView>,
    scope: Seq<Seq<char>>,
    active: Seq<ConstructorView>,
    at: int,
    inner_name: Option<Seq<char>>,
    inner_arguments: Seq<ArgumentView>,
    inner_at: int,
)
    requires
        emitted_call(object, bindings, function_name, packages, arguments, scope, active) is Ok,
        0 <= at < arguments.len(),
        arguments[at].construction is Constructor,
        found_builder(arguments[at], packages, bindings) == Some(
            ConstructorView::NewWithArbitraryArgs {
                function_name: inner_name,
                arguments: inner_arguments,
            },
        ),
        0 <= inner_at < inner_arguments.len(),
        inner_arguments[inner_at].construction is Constructor,
    ensures
        emitted_argument(
            inner_arguments[inner_at],
            builder_of(inner_arguments[inner_at]),
            packages,
            scope.push(object.name).push(arguments[at].name),
            bindings,
            active.push(found_builder(arguments[at], packages, bindings)->0),
        ) is Ok,
        precedes(
            emitted_call(object, bindings, function_name, packages, arguments, scope, active)->Ok_0,
            emitted_argument(
                inner_arguments[inner_at],
                builder_of(inner_arguments[inner_at]),
                packages,
                scope.push(object.name).push(arguments[at].name),
                bindings,
                active.push(found_builder(arguments[at], packages, bindings)->0),
            )->Ok_0,
            call_declaration(
                built_object(arguments[at], bindings),
                inner_name,
                inner_arguments,
                scope.push(object.name),
            ),
        ),
        precedes(
            emitted_call(object, bindings, function_name, packages, arguments, scope, active)->Ok_0,
            call_declaration(
                built_object(arguments[at], bindings),
                inner_name,
                inner_arguments,
                scope.push(object.name),
            ),
            call_declaration(object, function_name, arguments, scope),
        ),
{
    let text = emitted_call(
        object,
        bindings,
        function_name,
        packages,
        arguments,
        scope,
        active,
    )->Ok_0;
    let inner_scope = scope.push(object.name);
    let inner_object = built_object(arguments[at], bindings);
    let constructor = found_builder(arguments[at], packages, bindings)->0;
    let inner_active = active.push(constructor);
    lemma_argument_precedes_declaration(
        object,
        bindings,
        function_name,
        packages,
        arguments,
        scope,
        active,
        at,
    );
    lemma_argument_code(arguments[at], packages, inner_scope, bindings, active);
    let block = emitted_argument(
        arguments[at],
        builder_of(arguments[at]),
        packages,
        inner_scope,
        bindings,
        active,
    )->Ok_0;
    lemma_argument_precedes_declaration(
        inner_object,
        bindings,
        inner_name,
        packages,
        inner_arguments,
        inner_scope,
        inner_active,
        inner_at,
    );
    let innermost = emitted_argument(
        inner_arguments[inner_at],
        builder_of(inner_arguments[inner_at]),
        packages,
        inner_scope.push(inner_object.name),
        bindings,
        inner_active,
    )->Ok_0;
    lemma_precedes_inside(
        text,
        block,
        innermost,
        call_declaration(inner_object, inner_name, inner_arguments, inner_scope),
        call_declaration(object, function_name, arguments, scope),
    );
}

} // verus!
