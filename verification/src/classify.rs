//! Sorting the fields of a struct into method slots and data fields.
//!
//! A field is a method slot where its type is exactly
//! `std::option::Option<unsafe extern "C" fn(..) -> ..>`, not variadic. Any
//! other named field is a data field. A field without a name is neither.

use crate::decl::{
    FieldDeclaration, FieldDeclarationView, MethodArgument, MethodArgumentView, MethodDeclaration,
    MethodDeclarationView, StructDeclaration, StructDeclarationView,
};
use crate::error::Unrecognized;
use crate::names::{
    make_rust_type_name, make_snake_case_value_name, mapped_type_name, snake_of_camel,
};
use crate::syntax::{
    Abi, AbiView, BareFn, BareFnArgView, BareFnView, Field, FieldView, GenericArgument,
    GenericArgumentView, PathArguments, PathArgumentsView, PathSegment, PathSegmentView, TypeExpr,
    TypeExprView, TypeKind, TypeKindView,
};
use crate::text::{option_text, str_eq};
use crate::types::{type_text, type_to_string};
use vstd::prelude::*;

verus! {

/// Whether `abi` names the C calling convention.
pub open spec fn names_c(abi: AbiView) -> bool {
    abi.name == Some("C"@)
}

/// Whether there is a marker `abi` and it names the C calling convention.
pub open spec fn is_c_abi(abi: Option<AbiView>) -> bool {
    match abi {
        Some(marker) => names_c(marker),
        None => false,
    }
}

/// Whether `f` is unsafe, of the C calling convention and not variadic.
pub open spec fn is_foreign_fn(f: BareFnView) -> bool {
    f.unsafety && is_c_abi(f.abi) && !f.variadic
}

/// Whether `segments` are the three of `std::option::Option<..>`, the first two
/// bare and the last with angle brackets.
pub open spec fn is_std_option(segments: Seq<PathSegmentView>) -> bool {
    &&& segments.len() == 3
    &&& segments[0].arguments is Absent
    &&& segments[1].arguments is Absent
    &&& segments[2].arguments is AngleBracketed
    &&& segments[0].ident == "std"@
    &&& segments[1].ident == "option"@
    &&& segments[2].ident == "Option"@
}

/// The function pointer type that is the one argument in `arguments`, where
/// that is what they hold and it is a foreign function.
pub open spec fn single_foreign_fn(arguments: PathArgumentsView) -> Option<BareFnView> {
    match arguments {
        PathArgumentsView::AngleBracketed { args } => if args.len() == 1 {
            match args[0] {
                GenericArgumentView::Type(inner) => match inner.kind {
                    TypeKindView::BareFn(f) => if is_foreign_fn(f) {
                        Some(f)
                    } else {
                        None
                    },
                    _ => None,
                },
                GenericArgumentView::Other => None,
            }
        } else {
            None
        },
        _ => None,
    }
}

/// The function pointer type of a method slot of type `ty`: `ty` must be an
/// unqualified `std::option::Option<F>` with `F` a foreign function.
pub open spec fn slot_signature(ty: TypeExprView) -> Option<BareFnView> {
    match ty.kind {
        TypeKindView::Path { qualified, segments } => if !qualified && is_std_option(segments) {
            single_foreign_fn(segments[2].arguments)
        } else {
            None
        },
        _ => None,
    }
}

/// The argument that is declared under `name` with the type `ty`.
pub open spec fn argument_of(name: Seq<char>, ty: TypeExprView) -> MethodArgumentView {
    MethodArgumentView {
        name,
        rust_name: snake_of_camel(name),
        ty: type_text(ty),
        cef_type: ty.tokens,
    }
}

/// The arguments of a method slot: the named ones of `inputs`, in order.
pub open spec fn slot_arguments(inputs: Seq<BareFnArgView>) -> Seq<MethodArgumentView>
    decreases inputs.len(),
{
    if inputs.len() == 0 {
        Seq::empty()
    } else {
        let before = slot_arguments(inputs.drop_last());
        match inputs.last().name {
            Some(name) => before.push(argument_of(name, inputs.last().ty)),
            None => before,
        }
    }
}

/// The host text of a return type, where there is one.
pub open spec fn output_text(output: Option<TypeExprView>) -> Option<Seq<char>> {
    match output {
        Some(ty) => Some(type_text(ty)),
        None => None,
    }
}

/// The token text of a return type, where there is one.
pub open spec fn output_tokens(output: Option<TypeExprView>) -> Option<Seq<char>> {
    match output {
        Some(ty) => Some(ty.tokens),
        None => None,
    }
}

/// The return type of a function pointer type, where one is written.
pub open spec fn slot_output(f: BareFnView) -> Option<TypeExprView> {
    match f.output {
        Some(ty) => Some(*ty),
        None => None,
    }
}

/// The method slot that `field` declares, where it declares one.
pub open spec fn method_slot(field: FieldView) -> Option<MethodDeclarationView> {
    match (field.ident, slot_signature(field.ty)) {
        (Some(name), Some(f)) => Some(
            MethodDeclarationView {
                name,
                original_name: None,
                args: slot_arguments(f.inputs),
                output: output_text(slot_output(f)),
                original_output: output_tokens(slot_output(f)),
            },
        ),
        _ => None,
    }
}

/// The data field that `field` declares, where it has a name.
pub open spec fn data_field(field: FieldView) -> Option<FieldDeclarationView> {
    match field.ident {
        Some(name) => Some(
            FieldDeclarationView {
                name,
                rust_name: snake_of_camel(name),
                ty: type_text(field.ty),
            },
        ),
        None => None,
    }
}

/// The method slots among `fields`, in order.
pub open spec fn struct_methods(fields: Seq<FieldView>) -> Seq<MethodDeclarationView>
    decreases fields.len(),
{
    if fields.len() == 0 {
        Seq::empty()
    } else {
        let before = struct_methods(fields.drop_last());
        match method_slot(fields.last()) {
            Some(method) => before.push(method),
            None => before,
        }
    }
}

/// The data fields among `fields`, in order: those that are no method slots
/// and have a name.
pub open spec fn struct_fields(fields: Seq<FieldView>) -> Seq<FieldDeclarationView>
    decreases fields.len(),
{
    if fields.len() == 0 {
        Seq::empty()
    } else {
        let before = struct_fields(fields.drop_last());
        match (method_slot(fields.last()), data_field(fields.last())) {
            (None, Some(field)) => before.push(field),
            _ => before,
        }
    }
}

/// The struct that is declared under `ident` with the named fields `fields`.
pub open spec fn struct_of(ident: Seq<char>, fields: Seq<FieldView>) -> StructDeclarationView {
    StructDeclarationView {
        name: ident,
        rust_name: mapped_type_name(ident),
        fields: struct_fields(fields),
        methods: struct_methods(fields),
    }
}

/// Whether `abi` names the C calling convention.
pub fn abi_names_c(abi: &Abi) -> (r: bool)
    ensures
        r == names_c(abi@),
{
    match &abi.name {
        Some(name) => str_eq(name.as_str(), "C"),
        None => false,
    }
}

/// Whether there is a marker `abi` and it names the C calling convention.
pub fn abi_is_c(abi: &Option<Abi>) -> (r: bool)
    ensures
        r == is_c_abi(
            match *abi {
                Some(marker) => Some(marker@),
                None => None,
            },
        ),
{
    match abi {
        Some(marker) => abi_names_c(marker),
        None => false,
    }
}

/// The function pointer type that is the one argument in `arguments`.
fn foreign_fn_in<'a>(segment: &'a PathSegment) -> (r: Option<&'a BareFn>)
    ensures
        match r {
            Some(f) => single_foreign_fn(segment@.arguments) == Some(f@),
            None => single_foreign_fn(segment@.arguments) is None,
        },
{
    match &segment.arguments {
        PathArguments::AngleBracketed { args } => {
            if args.len() != 1 {
                return None;
            }
            proof {
                let views = segment@.arguments->AngleBracketed_args;
                assert(views.len() == 1);
                assert(views[0] == match args[0] {
                    GenericArgument::Type(inner) => GenericArgumentView::Type(inner@),
                    GenericArgument::Other => GenericArgumentView::Other,
                });
            }
            match &args[0] {
                GenericArgument::Type(inner) => match &inner.kind {
                    TypeKind::BareFn(f) => {
                        assert(inner@.kind == TypeKindView::BareFn(f@));
                        if f.unsafety && abi_is_c(&f.abi) && !f.variadic {
                            Some(f)
                        } else {
                            None
                        }
                    },
                    _ => None,
                },
                GenericArgument::Other => None,
            }
        },
        _ => None,
    }
}

/// Whether `segment` is named `ident` and has arguments, or none, as `bare` says.
fn segment_is(segment: &PathSegment, ident: &str, bare: bool) -> (r: bool)
    ensures
        r == (segment@.ident == ident@ && if bare {
            segment@.arguments is Absent
        } else {
            segment@.arguments is AngleBracketed
        }),
{
    let shape = match &segment.arguments {
        PathArguments::Absent => bare,
        PathArguments::AngleBracketed { .. } => !bare,
        PathArguments::Parenthesized => false,
    };
    shape && str_eq(segment.ident.as_str(), ident)
}

/// The function pointer type of a method slot of type `ty`.
pub fn slot_signature_of(ty: &TypeExpr) -> (r: Option<&BareFn>)
    ensures
        match r {
            Some(f) => slot_signature(ty@) == Some(f@),
            None => slot_signature(ty@) is None,
        },
{
    match &ty.kind {
        TypeKind::Path { qualified, segments } => {
            if *qualified || segments.len() != 3 {
                return None;
            }
            proof {
                let views = ty@.kind->Path_segments;
                assert(views[0] == segments[0]@);
                assert(views[1] == segments[1]@);
                assert(views[2] == segments[2]@);
            }
            if segment_is(&segments[0], "std", true) && segment_is(&segments[1], "option", true)
                && segment_is(&segments[2], "Option", false) {
                foreign_fn_in(&segments[2])
            } else {
                None
            }
        },
        _ => None,
    }
}

impl MethodArgument {
    /// The argument that is declared under `name` with the type `ty`.
    pub fn new(name: &str, ty: &TypeExpr) -> (r: MethodArgument)
        ensures
            r@ == argument_of(name@, ty@),
    {
        MethodArgument {
            name: name.to_owned(),
            rust_name: make_snake_case_value_name(name),
            ty: type_to_string(ty),
            cef_type: ty.tokens.clone(),
        }
    }
}

/// The arguments of a method slot: the named ones of `inputs`, in order.
fn slot_arguments_of(f: &BareFn) -> (r: Vec<MethodArgument>)
    ensures
        r@.map_values(|a: MethodArgument| a@) == slot_arguments(f@.inputs),
{
    let inputs = &f.inputs;
    let ghost views = f@.inputs;
    let mut args: Vec<MethodArgument> = Vec::new();
    let mut i: usize = 0;
    while i < inputs.len()
        invariant
            i <= inputs.len(),
            *inputs == f.inputs,
            views == f@.inputs,
            args@.map_values(|a: MethodArgument| a@) == slot_arguments(views.take(i as int)),
        decreases inputs.len() - i,
    {
        proof {
            assert(views.take(i + 1).drop_last() =~= views.take(i as int));
            assert(views.take(i + 1).last() == views[i as int]);
        }
        let ghost before = args@;
        match &inputs[i].name {
            Some(name) => {
                let arg = MethodArgument::new(name.as_str(), &inputs[i].ty);
                args.push(arg);
                assert(args@.map_values(|a: MethodArgument| a@) =~= before.map_values(
                    |a: MethodArgument| a@,
                ).push(arg@));
            },
            None => {},
        }
        i += 1;
    }
    proof {
        assert(views.take(i as int) =~= views);
    }
    args
}

/// The host text and the token text of a return type.
pub fn output_pair(output: Option<&TypeExpr>) -> (r: (Option<String>, Option<String>))
    ensures
        match output {
            Some(ty) => option_text(r.0) == Some(type_text(ty@)) && option_text(r.1) == Some(
                ty@.tokens,
            ),
            None => r.0 is None && r.1 is None,
        },
{
    match output {
        Some(ty) => (Some(type_to_string(ty)), Some(ty.tokens.clone())),
        None => (None, None),
    }
}

impl MethodDeclaration {
    /// The method slot that `field` declares. A field without a name, or whose
    /// type is not exactly `std::option::Option<F>` with `F` an unsafe,
    /// non-variadic function pointer type of the C calling convention, is
    /// refused as [`Unrecognized::FieldType`].
    pub fn try_from(field: &Field) -> (r: Result<MethodDeclaration, Unrecognized>)
        ensures
            match r {
                Ok(method) => method_slot(field@) == Some(method@),
                Err(e) => method_slot(field@) is None && e == Unrecognized::FieldType,
            },
    {
        let name = match &field.ident {
            Some(name) => name.clone(),
            None => {
                return Err(Unrecognized::FieldType);
            },
        };
        let f = match slot_signature_of(&field.ty) {
            Some(f) => f,
            None => {
                return Err(Unrecognized::FieldType);
            },
        };
        let args = slot_arguments_of(f);
        let (output, original_output) = match &f.output {
            Some(ty) => output_pair(Some(&**ty)),
            None => output_pair(None),
        };
        Ok(MethodDeclaration { name, original_name: None, args, output, original_output })
    }
}

impl FieldDeclaration {
    /// The data field that `field` declares. A field without a name is refused
    /// as [`Unrecognized::FieldType`].
    pub fn try_from(field: &Field) -> (r: Result<FieldDeclaration, Unrecognized>)
        ensures
            match r {
                Ok(declared) => data_field(field@) == Some(declared@),
                Err(e) => data_field(field@) is None && e == Unrecognized::FieldType,
            },
    {
        match &field.ident {
            Some(name) => Ok(
                FieldDeclaration {
                    name: name.clone(),
                    rust_name: make_snake_case_value_name(name.as_str()),
                    ty: type_to_string(&field.ty),
                },
            ),
            None => Err(Unrecognized::FieldType),
        }
    }
}

impl StructDeclaration {
    /// The struct that is declared under `ident` with the named fields
    /// `fields`. Each field is tried as a method slot first, then as a data
    /// field; one that is neither is left out.
    pub fn from_fields(ident: &str, fields: &Vec<Field>) -> (r: StructDeclaration)
        ensures
            r@ == struct_of(ident@, fields@.map_values(|f: Field| f@)),
    {
        let ghost views = fields@.map_values(|f: Field| f@);
        let mut declared = StructDeclaration {
            name: ident.to_owned(),
            rust_name: make_rust_type_name(ident),
            fields: Vec::new(),
            methods: Vec::new(),
        };
        proof {
            assert(declared@.fields =~= struct_fields(views.take(0)));
            assert(declared@.methods =~= struct_methods(views.take(0)));
        }
        let mut i: usize = 0;
        while i < fields.len()
            invariant
                i <= fields.len(),
                views == fields@.map_values(|f: Field| f@),
                declared@ == struct_of(ident@, views.take(i as int)),
            decreases fields.len() - i,
        {
            proof {
                assert(views.take(i + 1).drop_last() =~= views.take(i as int));
                assert(views.take(i + 1).last() == fields[i as int]@);
            }
            let ghost before = declared;
            match MethodDeclaration::try_from(&fields[i]) {
                Ok(method) => {
                    declared.methods.push(method);
                    assert(declared@.methods =~= before@.methods.push(method@));
                    assert(declared@.fields =~= before@.fields);
                },
                Err(_) => match FieldDeclaration::try_from(&fields[i]) {
                    Ok(field) => {
                        declared.fields.push(field);
                        assert(declared@.fields =~= before@.fields.push(field@));
                        assert(declared@.methods =~= before@.methods);
                    },
                    Err(_) => {},
                },
            }
            i += 1;
        }
        proof {
            assert(views.take(i as int) =~= views);
        }
        declared
    }
}

} // verus!
