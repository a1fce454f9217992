//! The constructors of a type and the functions that write their code.

use crate::name_map::NameMap;
use crate::package::argument::Argument;
use crate::package::argument::ArgumentView;
use crate::package::argument_construction::ArgumentConstruction;
use crate::package::emission::argument_codes;
use crate::package::emission::arguments_code;
use crate::package::emission::arguments_of;
use crate::package::emission::call_declaration;
use crate::package::emission::default_declaration;
use crate::package::emission::description_code;
use crate::package::emission::descriptions_code;
use crate::package::emission::emitted;
use crate::package::emission::emitted_argument;
use crate::package::emission::emitted_blocks;
use crate::package::emission::emitted_call;
use crate::package::emission::function_name_code;
use crate::package::emission::json_declaration;
use crate::package::emission::json_path;
use crate::package::emission::keys_code;
use crate::package::emission::lemma_blocks_error;
use crate::package::emission::lemma_descriptions_error;
use crate::package::emission::mutable_code;
use crate::package::emission::parameters_code;
use crate::package::emission::qualified_name;
use crate::package::emission::template_data;
use crate::package::emission::template_code;
use crate::package::emission::template_outcome;
use crate::package::emission::with_bindings;
use crate::package::emit_error::outcome;
use crate::package::emit_error::EmitError;
use crate::package::emit_error::EmitErrorView;
use crate::package::emit_error::Missing;
use crate::package::known::known_constructors;
use crate::package::known::lemma_resolved_constructor_is_known;
use crate::package::known::lemma_unvisited_decreases;
use crate::package::known::unvisited;
use crate::package::namespace::Namespace;
use crate::package::object_description::ObjectDescription;
use crate::package::type_description::parameters_view;
use crate::package::type_description::TypeDescription;
use crate::package_manager::PackageManager;
use crate::template::render_error_message;
use crate::template::render_template;
use crate::template::has_partial_tag;
use crate::text::join_names;
use crate::text::joined;
use vstd::prelude::*;
use vstd::string::*;

verus! {

/// How the generated code makes an instance of a type.
#[derive(Debug, PartialEq)]
pub enum Constructor {
    /// A call of a function that takes no argument.
    New { function_name: Option<String> },
    /// A call that is handed the change observer.
    NewWithObserver { function_name: Option<String> },
    /// A call that is handed the change observer and the context.
    NewWithObserverAndContext { function_name: Option<String> },
    /// A call with the arguments listed, in their order.
    NewWithArbitraryArgs { function_name: Option<String>, arguments: Vec<Argument> },
    /// The value is read from the document that the generated code holds.
    FromJson,
    /// The default value of the type.
    FromDefault,
    /// The declaration is what the template renders to.
    FromCode { code_template: String },
}

/// The model of a [`Constructor`].
pub ghost enum ConstructorView {
    New { function_name: Option<Seq<char>> },
    NewWithObserver { function_name: Option<Seq<char>> },
    NewWithObserverAndContext { function_name: Option<Seq<char>> },
    NewWithArbitraryArgs { function_name: Option<Seq<char>>, arguments: Seq<ArgumentView> },
    FromJson,
    FromDefault,
    FromCode { code_template: Seq<char> },
}

impl DeepView for Constructor {
    type V = ConstructorView;

    open spec fn deep_view(&self) -> ConstructorView {
        match self {
            Constructor::New { function_name } => ConstructorView::New {
                function_name: function_name.deep_view(),
            },
            Constructor::NewWithObserver { function_name } => ConstructorView::NewWithObserver {
                function_name: function_name.deep_view(),
            },
            Constructor::NewWithObserverAndContext {
                function_name,
            } => ConstructorView::NewWithObserverAndContext {
                function_name: function_name.deep_view(),
            },
            Constructor::NewWithArbitraryArgs {
                function_name,
                arguments,
            } => ConstructorView::NewWithArbitraryArgs {
                function_name: function_name.deep_view(),
                arguments: arguments.deep_view(),
            },
            Constructor::FromJson => ConstructorView::FromJson,
            Constructor::FromDefault => ConstructorView::FromDefault,
            Constructor::FromCode { code_template } => ConstructorView::FromCode {
                code_template: code_template@,
            },
        }
    }
}

impl View for Constructor {
    type V = ConstructorView;

    open spec fn view(&self) -> ConstructorView {
        self.deep_view()
    }
}

/// A copy of an optional name.
pub fn clone_name(name: &Option<String>) -> (copy: Option<String>)
    ensures
        copy.deep_view() == name.deep_view(),
{
    match name {
        Some(text) => Some(text.clone()),
        None => None,
    }
}

/// A copy of a list of arguments.
pub fn clone_arguments(arguments: &Vec<Argument>) -> (copy: Vec<Argument>)
    ensures
        copy.deep_view() == arguments.deep_view(),
{
    let mut copy: Vec<Argument> = Vec::new();
    let mut at: usize = 0;
    while at < arguments.len()
        invariant
            at <= arguments.len(),
            copy.deep_view() == arguments.deep_view().take(at as int),
        decreases arguments.len() - at,
    {
        let ghost before = copy.deep_view();
        let argument = arguments[at].clone();
        copy.push(argument);
        assert(copy.deep_view() =~= before.push(argument@));
        at = at + 1;
    }
    copy
}

impl Clone for Constructor {
    fn clone(&self) -> (copy: Self)
        ensures
            copy@ == self@,
    {
        match self {
            Constructor::New { function_name } => Constructor::New {
                function_name: clone_name(function_name),
            },
            Constructor::NewWithObserver { function_name } => Constructor::NewWithObserver {
                function_name: clone_name(function_name),
            },
            Constructor::NewWithObserverAndContext {
                function_name,
            } => Constructor::NewWithObserverAndContext { function_name: clone_name(function_name) },
            Constructor::NewWithArbitraryArgs {
                function_name,
                arguments,
            } => Constructor::NewWithArbitraryArgs {
                function_name: clone_name(function_name),
                arguments: clone_arguments(arguments),
            },
            Constructor::FromJson => Constructor::FromJson,
            Constructor::FromDefault => Constructor::FromDefault,
            Constructor::FromCode { code_template } => Constructor::FromCode {
                code_template: code_template.clone(),
            },
        }
    }
}

/// Whether two optional names are the same.
pub fn same_name(left: &Option<String>, right: &Option<String>) -> (equal: bool)
    ensures
        equal == (left.deep_view() == right.deep_view()),
{
    match left {
        None => right.is_none(),
        Some(ours) => match right {
            None => false,
            Some(theirs) => *ours == *theirs,
        },
    }
}

/// Whether two lists of arguments are the same, part for part.
pub fn same_arguments(left: &Vec<Argument>, right: &Vec<Argument>) -> (equal: bool)
    ensures
        equal == (left.deep_view() == right.deep_view()),
{
    if left.len() != right.len() {
        assert(left.deep_view().len() != right.deep_view().len());
        return false;
    }
    let mut at: usize = 0;
    while at < left.len()
        invariant
            at <= left.len(),
            left.len() == right.len(),
            forall|i: int| 0 <= i < at ==> left.deep_view()[i] == right.deep_view()[i],
        decreases left.len() - at,
    {
        if !left[at].same(&right[at]) {
            assert(left.deep_view()[at as int] != right.deep_view()[at as int]);
            return false;
        }
        at = at + 1;
    }
    assert(left.deep_view() =~= right.deep_view());
    true
}

/// Whether `wanted` is one of the constructors listed.
pub fn is_active(active: &Vec<&Constructor>, wanted: &Constructor) -> (found: bool)
    ensures
        found == active.deep_view().contains(wanted@),
{
    let mut at: usize = 0;
    while at < active.len()
        invariant
            at <= active.len(),
            forall|i: int| 0 <= i < at ==> active.deep_view()[i] != wanted@,
        decreases active.len() - at,
    {
        if active[at].same(wanted) {
            assert(active.deep_view()[at as int] == wanted@);
            return true;
        }
        at = at + 1;
    }
    false
}

impl Constructor {
    /// Whether two constructors are the same, part for part.
    pub fn same(&self, other: &Constructor) -> (equal: bool)
        ensures
            equal == (self@ == other@),
    {
        match self {
            Constructor::New { function_name } => match other {
                Constructor::New { function_name: theirs } => same_name(function_name, theirs),
                _ => false,
            },
            Constructor::NewWithObserver { function_name } => match other {
                Constructor::NewWithObserver { function_name: theirs } => same_name(
                    function_name,
                    theirs,
                ),
                _ => false,
            },
            Constructor::NewWithObserverAndContext { function_name } => match other {
                Constructor::NewWithObserverAndContext { function_name: theirs } => same_name(
                    function_name,
                    theirs,
                ),
                _ => false,
            },
            Constructor::NewWithArbitraryArgs { function_name, arguments } => match other {
                Constructor::NewWithArbitraryArgs {
                    function_name: theirs,
                    arguments: their_arguments,
                } => same_name(function_name, theirs) && same_arguments(arguments, their_arguments),
                _ => false,
            },
            Constructor::FromJson => match other {
                Constructor::FromJson => true,
                _ => false,
            },
            Constructor::FromDefault => match other {
                Constructor::FromDefault => true,
                _ => false,
            },
            Constructor::FromCode { code_template } => match other {
                Constructor::FromCode { code_template: theirs } => *code_template == *theirs,
                _ => false,
            },
        }
    }

    /// The identifier that the generated code uses for the binding `name`
    /// inside `namespace`.
    pub fn emit_fully_qualified_name(name: &String, namespace: &Namespace, ignore: bool) -> (code:
        String)
        ensures
            code@ == qualified_name(name@, namespace@, ignore),
    {
        if namespace.is_empty() || ignore {
            name.clone()
        } else {
            let mut code = namespace.to_string();
            code.append("_");
            code.append(name.as_str());
            code
        }
    }

    /// The arguments as they are written between the brackets of a call.
    pub fn emit_args(args: &Vec<Argument>, current_namespace: &Namespace) -> (code: String)
        ensures
            code@ == arguments_code(args.deep_view(), current_namespace@),
    {
        let ghost wanted = argument_codes(args.deep_view(), current_namespace@);
        let mut pieces: Vec<String> = Vec::new();
        let mut at: usize = 0;
        while at < args.len()
            invariant
                at <= args.len(),
                wanted == argument_codes(args.deep_view(), current_namespace@),
                pieces.deep_view() == wanted.take(at as int),
            decreases args.len() - at,
        {
            let arg = &args[at];
            let existing = matches!(arg.construction, ArgumentConstruction::ExistingObject());
            let mut piece = arg.emit_prefix_code();
            let identifier = Self::emit_fully_qualified_name(&arg.name, current_namespace, existing);
            piece.append(identifier.as_str());
            let postfix = arg.emit_postfix_code();
            piece.append(postfix.as_str());
            let ghost before = pieces.deep_view();
            pieces.push(piece);
            assert(pieces.deep_view() =~= before.push(piece@));
            at = at + 1;
        }
        assert(wanted.take(at as int) =~= wanted);
        join_names(&pieces, ", ")
    }

    /// A description as it is written in the generated code.
    pub fn emit_arg_type_parameters_part_rec(
        argument_type: &TypeDescription,
        resolved_type_parameters: &NameMap<String>,
    ) -> (code: Result<String, EmitError>)
        ensures
            outcome(code) == description_code(argument_type@, resolved_type_parameters.deep_view()),
        decreases argument_type,
    {
        match argument_type {
            TypeDescription::Type { name, type_parameters } => {
                match Self::emit_arg_type_parameters_part(type_parameters, resolved_type_parameters) {
                    Err(error) => Err(error),
                    Ok(part) => {
                        let mut code = name.clone();
                        code.append(part.as_str());
                        Ok(code)
                    },
                }
            },
            TypeDescription::Generic { name, type_parameters } => {
                match resolved_type_parameters.get(name.as_str()) {
                    None => Err(EmitError::NotFound(Missing::GenericBinding(name.clone()))),
                    Some(bound) => match Self::emit_arg_type_parameters_part(
                        type_parameters,
                        resolved_type_parameters,
                    ) {
                        Err(error) => Err(error),
                        Ok(part) => {
                            let mut code = bound.clone();
                            code.append(part.as_str());
                            Ok(code)
                        },
                    },
                }
            },
        }
    }

    /// The part of a declaration that names the types a type is
    /// instantiated with.
    pub fn emit_arg_type_parameters_part(
        arg_type_parameters: &Option<Vec<Box<TypeDescription>>>,
        type_parameters: &NameMap<String>,
    ) -> (code: Result<String, EmitError>)
        ensures
            outcome(code) == parameters_code(
                parameters_view(*arg_type_parameters),
                type_parameters.deep_view(),
            ),
        decreases arg_type_parameters,
    {
        match arg_type_parameters {
            None => Ok("".to_string()),
            Some(list) => {
                if list.len() == 0 {
                    return Ok("".to_string());
                }
                let ghost models = parameters_view(*arg_type_parameters)->0;
                let ghost bindings = type_parameters.deep_view();
                let mut texts: Vec<String> = Vec::new();
                let mut at: usize = 0;
                assert(texts.deep_view() =~= Seq::empty());
                while at < list.len()
                    invariant
                        at <= list.len(),
                        *arg_type_parameters == Some(*list),
                        models == parameters_view(*arg_type_parameters)->0,
                        models.len() == list.len(),
                        bindings == type_parameters.deep_view(),
                        descriptions_code(models.take(at as int), bindings) == Ok::<
                            Seq<Seq<char>>,
                            EmitErrorView,
                        >(texts.deep_view()),
                    decreases list.len() - at,
                {
                    let ghost front = models.take(at + 1);
                    assert(front.drop_last() =~= models.take(at as int));
                    match Self::emit_arg_type_parameters_part_rec(&list[at], type_parameters) {
                        Ok(text) => {
                            let ghost before = texts.deep_view();
                            texts.push(text);
                            assert(texts.deep_view() =~= before.push(text@));
                        },
                        Err(error) => {
                            proof {
                                lemma_descriptions_error(models, at + 1, bindings);
                            }
                            return Err(error);
                        },
                    }
                    at = at + 1;
                }
                assert(models.take(at as int) =~= models);
                let mut code = "<".to_string();
                let inner = join_names(&texts, ",");
                code.append(inner.as_str());
                code.append(">");
                Ok(code)
            },
        }
    }

    /// What is written behind `let` for a binding that is or is not
    /// mutable.
    pub fn emit_mutable(is_mutable: bool) -> (code: String)
        ensures
            code@ == mutable_code(is_mutable),
    {
        if is_mutable {
            " mut".to_string()
        } else {
            "".to_string()
        }
    }

    /// The name of the function that is called: the one given, or `new`.
    pub fn emit_function_name(function_name: &Option<String>) -> (code: String)
        ensures
            code@ == function_name_code(function_name.deep_view()),
    {
        match function_name {
            Some(name) => name.clone(),
            None => "new".to_string(),
        }
    }

    /// The code that builds one argument with the constructor
    /// `arg_constructor_name` of its type, while the constructors in
    /// `active` are being generated.
    pub fn emit_arg_construction_code<'a>(
        arg: &Argument,
        arg_constructor_name: &String,
        pack_man: &'a PackageManager,
        current_namespace: &Namespace,
        type_parameters: &NameMap<String>,
        active: &Vec<&'a Constructor>,
    ) -> (code: Result<String, EmitError>)
        ensures
            outcome(code) == emitted_argument(
                arg@,
                arg_constructor_name@,
                pack_man@,
                current_namespace@,
                type_parameters.deep_view(),
                active.deep_view(),
            ),
        decreases unvisited(known_constructors(pack_man@), active.deep_view()), 0nat,
    {
        let reported: &String = match &*arg.arg_type {
            TypeDescription::Type { name, .. } => name,
            TypeDescription::Generic { name, .. } => name,
        };
        let parameters: &Option<Vec<Box<TypeDescription>>> = match &*arg.arg_type {
            TypeDescription::Type { type_parameters: list, .. } => list,
            TypeDescription::Generic { type_parameters: list, .. } => list,
        };
        let bound: Option<&String> = match &*arg.arg_type {
            TypeDescription::Type { name, .. } => Some(name),
            TypeDescription::Generic { name, .. } => type_parameters.get(name.as_str()),
        };
        let type_path: &String = match bound {
            Some(path) => path,
            None => {
                return Err(EmitError::NotFound(Missing::GenericBinding(reported.clone())));
            },
        };
        let found = match pack_man.get_type(type_path.as_str()) {
            Some(found) => found,
            None => {
                return Err(EmitError::NotFound(Missing::Type(type_path.clone())));
            },
        };
        let constructor: &'a Constructor = match found.constructors.get(
            arg_constructor_name.as_str(),
        ) {
            Some(constructor) => constructor,
            None => {
                return Err(
                    EmitError::NotFound(
                        Missing::Constructor {
                            constructor_name: arg_constructor_name.clone(),
                            type_path: reported.clone(),
                        },
                    ),
                );
            },
        };
        let part = match Self::emit_arg_type_parameters_part(parameters, type_parameters) {
            Ok(part) => part,
            Err(error) => {
                return Err(error);
            },
        };
        if is_active(active, constructor) {
            return Err(
                EmitError::CycleError {
                    type_path: type_path.clone(),
                    constructor_name: arg_constructor_name.clone(),
                },
            );
        }
        let object = arg.into_object_description(type_path, &part);
        let mut inner: Vec<&'a Constructor> = Vec::new();
        let mut at: usize = 0;
        while at < active.len()
            invariant
                at <= active.len(),
                inner.deep_view() == active.deep_view().take(at as int),
            decreases active.len() - at,
        {
            let ghost before = inner.deep_view();
            inner.push(active[at]);
            assert(inner.deep_view() =~= before.push(active[at as int]@));
            at = at + 1;
        }
        assert(active.deep_view().take(at as int) =~= active.deep_view());
        inner.push(constructor);
        assert(inner.deep_view() =~= active.deep_view().push(constructor@));
        proof {
            lemma_resolved_constructor_is_known(pack_man@, type_path@, arg_constructor_name@);
            lemma_unvisited_decreases(
                known_constructors(pack_man@),
                active.deep_view(),
                constructor@,
            );
        }
        constructor.emit_nested(&object, type_parameters, pack_man, current_namespace, &inner)
    }

    /// The code that builds the arguments that are to be built, each block
    /// on lines of its own, in the order of the arguments.
    pub fn emit_args_construction_code<'a>(
        pack_man: &'a PackageManager,
        args: &Vec<Argument>,
        current_namespace: &Namespace,
        type_parameters: &NameMap<String>,
        active: &Vec<&'a Constructor>,
    ) -> (code: Result<String, EmitError>)
        ensures
            match emitted_blocks(
                pack_man@,
                args.deep_view(),
                current_namespace@,
                type_parameters.deep_view(),
                active.deep_view(),
            ) {
                Ok(blocks) => outcome(code) == Ok::<Seq<char>, EmitErrorView>(
                    joined(blocks, "\n"@),
                ),
                Err(error) => outcome(code) == Err::<Seq<char>, EmitErrorView>(error),
            },
        decreases unvisited(known_constructors(pack_man@), active.deep_view()), 1nat,
    {
        let ghost arguments = args.deep_view();
        let mut construction_blocks: Vec<String> = Vec::new();
        let mut at: usize = 0;
        assert(construction_blocks.deep_view() =~= Seq::empty());
        while at < args.len()
            invariant
                at <= args.len(),
                arguments == args.deep_view(),
                emitted_blocks(
                    pack_man@,
                    arguments.take(at as int),
                    current_namespace@,
                    type_parameters.deep_view(),
                    active.deep_view(),
                ) == Ok::<Seq<Seq<char>>, EmitErrorView>(construction_blocks.deep_view()),
            decreases args.len() - at,
        {
            let arg = &args[at];
            let ghost front = arguments.take(at + 1);
            assert(front.drop_last() =~= arguments.take(at as int));
            match &arg.construction {
                ArgumentConstruction::Constructor(constructor_name) => {
                    match Self::emit_arg_construction_code(
                        arg,
                        constructor_name,
                        pack_man,
                        current_namespace,
                        type_parameters,
                        active,
                    ) {
                        Ok(block) => {
                            let ghost before = construction_blocks.deep_view();
                            construction_blocks.push(block);
                            assert(construction_blocks.deep_view() =~= before.push(block@));
                        },
                        Err(error) => {
                            proof {
                                lemma_blocks_error(
                                    pack_man@,
                                    arguments,
                                    at + 1,
                                    current_namespace@,
                                    type_parameters.deep_view(),
                                    active.deep_view(),
                                );
                            }
                            return Err(error);
                        },
                    }
                },
                ArgumentConstruction::ExistingObject() => {},
            }
            at = at + 1;
        }
        assert(arguments.take(at as int) =~= arguments);
        Ok(join_names(&construction_blocks, "\n"))
    }

    /// The statement that declares `od` as the result of a call of
    /// `function_name` with `args`.
    pub fn emit_call_declaration(
        od: &ObjectDescription,
        function_name: &Option<String>,
        args: &Vec<Argument>,
        current_namespace: &Namespace,
    ) -> (code: String)
        ensures
            code@ == call_declaration(
                od@,
                function_name.deep_view(),
                args.deep_view(),
                current_namespace@,
            ),
    {
        let mut new_namespace = current_namespace.clone();
        new_namespace.add_part(od.name.as_str());
        let mut code = "let".to_string();
        code.append(Self::emit_mutable(od.is_mutable).as_str());
        code.append(" ");
        code.append(Self::emit_fully_qualified_name(&od.name, current_namespace, false).as_str());
        code.append(" = ");
        code.append(od.type_path.as_str());
        code.append("::");
        let instantiated = if od.type_parameter_part.as_str().is_empty() {
            "".to_string()
        } else {
            let mut part = od.type_parameter_part.clone();
            part.append("::");
            part
        };
        code.append(instantiated.as_str());
        code.append(Self::emit_function_name(function_name).as_str());
        code.append("(");
        code.append(Self::emit_args(args, &new_namespace).as_str());
        code.append(");");
        code
    }

    /// The code of a call: the code that builds the arguments, and then the
    /// statement that declares `od`.
    pub fn emit_new_with_args<'a>(
        od: &ObjectDescription,
        type_parameters: &NameMap<String>,
        function_name: &Option<String>,
        pack_man: &'a PackageManager,
        args: &Vec<Argument>,
        current_namespace: &Namespace,
        active: &Vec<&'a Constructor>,
    ) -> (code: Result<String, EmitError>)
        ensures
            outcome(code) == emitted_call(
                od@,
                type_parameters.deep_view(),
                function_name.deep_view(),
                pack_man@,
                args.deep_view(),
                current_namespace@,
                active.deep_view(),
            ),
        decreases unvisited(known_constructors(pack_man@), active.deep_view()), 2nat,
    {
        let mut new_namespace = current_namespace.clone();
        new_namespace.add_part(od.name.as_str());
        match Self::emit_args_construction_code(
            pack_man,
            args,
            &new_namespace,
            type_parameters,
            active,
        ) {
            Err(error) => Err(error),
            Ok(args_construction_code) => {
                let mut code = args_construction_code;
                code.append("\n");
                code.append(
                    Self::emit_call_declaration(od, function_name, args, current_namespace).as_str(),
                );
                Ok(code)
            },
        }
    }

    /// The statement that declares `od` with the default value of its type.
    pub fn emit_default(od: &ObjectDescription, current_namespace: &Namespace) -> (code: String)
        ensures
            code@ == default_declaration(od@, current_namespace@),
    {
        let mut code = "let".to_string();
        code.append(Self::emit_mutable(od.is_mutable).as_str());
        code.append(" ");
        code.append(Self::emit_fully_qualified_name(&od.name, current_namespace, false).as_str());
        code.append(":");
        code.append(od.type_path.as_str());
        code.append(od.type_parameter_part.as_str());
        code.append(" = Default::default();");
        code
    }

    /// The keys under which the document holds the value of `od`.
    pub fn emit_json_path(cn: &Namespace, od: &ObjectDescription) -> (code: String)
        ensures
            code@ == json_path(cn@, od.name@),
    {
        let mut code = String::new();
        let mut at: usize = 0;
        while at < cn.parts.len()
            invariant
                at <= cn.parts.len(),
                code@ == keys_code(cn@.take(at as int)),
            decreases cn.parts.len() - at,
        {
            let ghost front = cn@.take(at + 1);
            assert(front.drop_last() =~= cn@.take(at as int));
            let mut key = "[\"".to_string();
            key.append(cn.parts[at].as_str());
            key.append("\"]");
            code.append(key.as_str());
            at = at + 1;
        }
        assert(cn@.take(at as int) =~= cn@);
        let mut key = "[\"".to_string();
        key.append(od.name.as_str());
        key.append("\"]");
        code.append(key.as_str());
        code
    }

    /// The statement that declares `od` with the value that the document
    /// holds for it.
    pub fn emit_new_from_json(od: &ObjectDescription, current_namespace: &Namespace) -> (code:
        String)
        ensures
            code@ == json_declaration(od@, current_namespace@),
    {
        let identifier = Self::emit_fully_qualified_name(&od.name, current_namespace, false);
        let mut code = "let".to_string();
        code.append(Self::emit_mutable(od.is_mutable).as_str());
        code.append(" ");
        code.append(identifier.as_str());
        code.append(": ");
        code.append(od.type_path.as_str());
        code.append(od.type_parameter_part.as_str());
        code.append(" = serde_json::from_value(data");
        code.append(Self::emit_json_path(current_namespace, od).as_str());
        code.append(".clone()).expect(\"Could not create '");
        code.append(identifier.as_str());
        code.append("' from Json.\");");
        code
    }

    /// What a template constructor returns for what the template engine
    /// returned: the text, or the error with the words of the engine.
    pub fn template_result(rendered: Result<String, handlebars::RenderError>) -> (code: Result<
        String,
        EmitError,
    >)
        ensures
            match rendered {
                Ok(text) => code == Ok::<String, EmitError>(text),
                Err(_) => code is Err && code->Err_0 is TemplateError,
            },
            outcome(code) == template_outcome(
                match rendered {
                    Ok(text) => Some(text@),
                    Err(_) => None,
                },
            ),
    {
        match rendered {
            Ok(text) => Ok(text),
            Err(error) => Err(EmitError::TemplateError { message: render_error_message(&error) }),
        }
    }

    /// The code that the template renders to. A variable of the template
    /// that is given no value is an error, and so is a template that
    /// includes a partial.
    pub fn emit_constructor_from_code(
        od: &ObjectDescription,
        current_namespace: &Namespace,
        code_template: &String,
        type_parameters: &NameMap<String>,
    ) -> (code: Result<String, EmitError>)
        ensures
            outcome(code) == template_code(
                code_template@,
                template_data(od@, current_namespace@, type_parameters.deep_view()),
            ),
    {
        if has_partial_tag(code_template.as_str()) {
            return Err(
                EmitError::TemplateError {
                    message: "A template cannot include a partial.".to_string(),
                },
            );
        }
        let ghost bindings = type_parameters.deep_view();
        let mut data: NameMap<String> = NameMap::new();
        data.insert(
            "fully_qualified_name".to_string(),
            Self::emit_fully_qualified_name(&od.name, current_namespace, false),
        );
        data.insert("type_name".to_string(), od.type_path.clone());
        data.insert("type_parameter_part".to_string(), od.type_parameter_part.clone());
        data.insert("mutable".to_string(), Self::emit_mutable(od.is_mutable));
        let ghost fixed = data.deep_view();
        let count = type_parameters.len();
        let mut at: usize = 0;
        while at < count
            invariant
                at <= count,
                count == bindings.len(),
                bindings == type_parameters.deep_view(),
                data.deep_view() == with_bindings(fixed, bindings, at as nat),
            decreases count - at,
        {
            let mut key = "type_parameter_".to_string();
            key.append(type_parameters.name(at).as_str());
            let bound = type_parameters.value(at).clone();
            data.insert(key, bound);
            at = at + 1;
        }
        Self::template_result(render_template(code_template.as_str(), &data, true))
    }

    /// The code that the constructor generates for `obj_desc`, while the
    /// constructors in `active` are being generated.
    pub fn emit_nested<'a>(
        &self,
        obj_desc: &ObjectDescription,
        type_parameters: &NameMap<String>,
        pack_man: &'a PackageManager,
        namespace: &Namespace,
        active: &Vec<&'a Constructor>,
    ) -> (code: Result<String, EmitError>)
        ensures
            outcome(code) == emitted(
                self@,
                obj_desc@,
                type_parameters.deep_view(),
                pack_man@,
                namespace@,
                active.deep_view(),
            ),
        decreases unvisited(known_constructors(pack_man@), active.deep_view()), 3nat,
    {
        match self {
            Constructor::New { function_name } => {
                let args: Vec<Argument> = Vec::new();
                Self::emit_new_with_args(
                    obj_desc,
                    type_parameters,
                    function_name,
                    pack_man,
                    &args,
                    namespace,
                    active,
                )
            },
            Constructor::NewWithObserver { function_name } => {
                let args = vec![Argument::new_change_observer_arg()];
                Self::emit_new_with_args(
                    obj_desc,
                    type_parameters,
                    function_name,
                    pack_man,
                    &args,
                    namespace,
                    active,
                )
            },
            Constructor::NewWithObserverAndContext { function_name } => {
                let args = vec![Argument::new_change_observer_arg(), Argument::new_context_arg()];
                assert(args.deep_view() =~= arguments_of(self@));
                Self::emit_new_with_args(
                    obj_desc,
                    type_parameters,
                    function_name,
                    pack_man,
                    &args,
                    namespace,
                    active,
                )
            },
            Constructor::NewWithArbitraryArgs { function_name, arguments } => {
                Self::emit_new_with_args(
                    obj_desc,
                    type_parameters,
                    function_name,
                    pack_man,
                    arguments,
                    namespace,
                    active,
                )
            },
            Constructor::FromJson => Ok(Self::emit_new_from_json(obj_desc, namespace)),
            Constructor::FromDefault => Ok(Self::emit_default(obj_desc, namespace)),
            Constructor::FromCode { code_template } => Self::emit_constructor_from_code(
                obj_desc,
                namespace,
                code_template,
                type_parameters,
            ),
        }
    }

    /// The code that the constructor generates for the binding `obj_desc`
    /// inside `namespace`: first the code that builds the arguments that
    /// are to be built, and theirs before them, then the statement that
    /// declares the binding. `type_parameters` binds the placeholders, and
    /// `pack_man` holds the types that the arguments name. A constructor
    /// that needs itself built, directly or through others, is an error.
    pub fn emit_code_template<'a>(
        &'a self,
        obj_desc: &ObjectDescription,
        type_parameters: &NameMap<String>,
        pack_man: &'a PackageManager,
        namespace: &Namespace,
    ) -> (code: Result<String, EmitError>)
        ensures
            outcome(code) == emitted(
                self@,
                obj_desc@,
                type_parameters.deep_view(),
                pack_man@,
                namespace@,
                seq![self@],
            ),
    {
        let mut active: Vec<&'a Constructor> = Vec::new();
        active.push(self);
        assert(active.deep_view() =~= seq![self@]);
        self.emit_nested(obj_desc, type_parameters, pack_man, namespace, &active)
    }
}

} // verus!
