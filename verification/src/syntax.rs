//! The declaration file as the generator reads it: the items, fields and type
//! expressions of a parsed source file, held as plain values.
//!
//! Every type expression carries its own token text, `tokens`. The shapes that
//! the generator does not look into are kept as `Other`.

use vstd::prelude::*;

verus! {

/// A type expression.
#[derive(Debug, PartialEq, Eq)]
pub struct TypeExpr {
    /// The expression as token text.
    pub tokens: String,
    /// Its shape.
    pub kind: TypeKind,
}

/// The shape of a type expression.
#[derive(Debug, PartialEq, Eq)]
pub enum TypeKind {
    /// A path such as `::std::os::raw::c_int`; `qualified` where it has a
    /// qualified self type, as in `<T as Trait>::Item`.
    Path { qualified: bool, segments: Vec<PathSegment> },
    /// A tuple `(A, B)`.
    Tuple { elems: Vec<TypeExpr> },
    /// An array `[T; len]`; `len` is the length expression as token text.
    Array { elem: Box<TypeExpr>, len: String },
    /// A slice `[T]`.
    Slice { elem: Box<TypeExpr> },
    /// A raw pointer `*const T` or `*mut T`.
    Ptr { is_const: bool, elem: Box<TypeExpr> },
    /// A function pointer type.
    BareFn(BareFn),
    /// Any other type.
    Other,
}

/// One segment of a path, with what stands in its brackets.
#[derive(Debug, PartialEq, Eq)]
pub struct PathSegment {
    pub ident: String,
    pub arguments: PathArguments,
}

/// The arguments of a path segment.
#[derive(Debug, PartialEq, Eq)]
pub enum PathArguments {
    /// Nothing, as in `std`.
    Absent,
    /// Angle brackets, as in `Option<T>`.
    AngleBracketed { args: Vec<GenericArgument> },
    /// Round brackets, as in `Fn(A) -> B`.
    Parenthesized,
}

/// One argument between angle brackets.
#[derive(Debug, PartialEq, Eq)]
pub enum GenericArgument {
    /// A type.
    Type(TypeExpr),
    /// A lifetime, a constant or a constraint.
    Other,
}

/// A function pointer type: `unsafe extern "C" fn(a: A, ...) -> R`.
#[derive(Debug, PartialEq, Eq)]
pub struct BareFn {
    /// Whether it is marked `unsafe`.
    pub unsafety: bool,
    /// Its `extern` part, where it has one.
    pub abi: Option<Abi>,
    pub inputs: Vec<BareFnArg>,
    /// Whether the parameter list ends in `...`.
    pub variadic: bool,
    /// The return type, where one is written.
    pub output: Option<Box<TypeExpr>>,
}

/// An `extern` marker; `name` is the value of its string literal, where it has one.
#[derive(Debug, PartialEq, Eq)]
pub struct Abi {
    pub name: Option<String>,
}

/// A parameter of a function pointer type.
#[derive(Debug, PartialEq, Eq)]
pub struct BareFnArg {
    /// Its name, where it has one.
    pub name: Option<String>,
    pub ty: TypeExpr,
}

/// A field of a struct.
#[derive(Debug, PartialEq, Eq)]
pub struct Field {
    /// Its name, where it has one.
    pub ident: Option<String>,
    pub ty: TypeExpr,
}

/// The fields of a struct.
#[derive(Debug, PartialEq, Eq)]
pub enum Fields {
    /// Named fields between braces.
    Named(Vec<Field>),
    /// `len` unnamed fields between round brackets.
    Unnamed { len: usize },
    /// No field list.
    Unit,
}

/// The pattern of a function parameter.
#[derive(Debug, PartialEq, Eq)]
pub enum Pat {
    /// A plain name.
    Ident { ident: String },
    /// Any other pattern.
    Other,
}

/// A parameter of a function declaration.
#[derive(Debug, PartialEq, Eq)]
pub enum FnArg {
    /// A pattern with its type.
    Typed { pat: Pat, ty: TypeExpr },
    /// A `self` parameter.
    Receiver,
}

/// An item of a foreign block.
#[derive(Debug, PartialEq, Eq)]
pub enum ForeignItem {
    /// A function declaration; `output` is the return type, where one is written.
    Fn { ident: String, inputs: Vec<FnArg>, output: Option<TypeExpr> },
    /// Any other item.
    Other,
}

/// A top-level item.
#[derive(Debug, PartialEq, Eq)]
pub enum Item {
    /// `type ident = ty;`
    Type { ident: String, ty: TypeExpr },
    /// `struct ident ...`
    Struct { ident: String, fields: Fields },
    /// `enum ident { ... }`
    Enum { ident: String },
    /// `unsafe extern "..." { ... }`
    ForeignMod { unsafety: bool, abi: Abi, items: Vec<ForeignItem> },
    /// Any other item.
    Other,
}

/// A parsed source file.
#[derive(Debug, PartialEq, Eq)]
pub struct SourceFile {
    pub items: Vec<Item>,
}

/// A [`TypeExpr`] as plain values.
pub struct TypeExprView {
    pub tokens: Seq<char>,
    pub kind: TypeKindView,
}

/// A [`TypeKind`] as plain values.
pub enum TypeKindView {
    Path { qualified: bool, segments: Seq<PathSegmentView> },
    Tuple { elems: Seq<TypeExprView> },
    Array { elem: Box<TypeExprView>, len: Seq<char> },
    Slice { elem: Box<TypeExprView> },
    Ptr { is_const: bool, elem: Box<TypeExprView> },
    BareFn(BareFnView),
    Other,
}

/// A [`PathSegment`] as plain values.
pub struct PathSegmentView {
    pub ident: Seq<char>,
    pub arguments: PathArgumentsView,
}

/// [`PathArguments`] as plain values.
pub enum PathArgumentsView {
    Absent,
    AngleBracketed { args: Seq<GenericArgumentView> },
    Parenthesized,
}

/// A [`GenericArgument`] as plain values.
pub enum GenericArgumentView {
    Type(TypeExprView),
    Other,
}

/// A [`BareFn`] as plain values.
pub struct BareFnView {
    pub unsafety: bool,
    pub abi: Option<AbiView>,
    pub inputs: Seq<BareFnArgView>,
    pub variadic: bool,
    pub output: Option<Box<TypeExprView>>,
}

/// An [`Abi`] as plain values.
pub struct AbiView {
    pub name: Option<Seq<char>>,
}

/// A [`BareFnArg`] as plain values.
pub struct BareFnArgView {
    pub name: Option<Seq<char>>,
    pub ty: TypeExprView,
}

/// A [`Field`] as plain values.
pub struct FieldView {
    pub ident: Option<Seq<char>>,
    pub ty: TypeExprView,
}

/// [`Fields`] as plain values.
pub enum FieldsView {
    Named(Seq<FieldView>),
    Unnamed { len: nat },
    Unit,
}

/// A [`Pat`] as plain values.
pub enum PatView {
    Ident { ident: Seq<char> },
    Other,
}

/// A [`FnArg`] as plain values.
pub enum FnArgView {
    Typed { pat: PatView, ty: TypeExprView },
    Receiver,
}

/// A [`ForeignItem`] as plain values.
pub enum ForeignItemView {
    Fn { ident: Seq<char>, inputs: Seq<FnArgView>, output: Option<TypeExprView> },
    Other,
}

/// An [`Item`] as plain values.
pub enum ItemView {
    Type { ident: Seq<char>, ty: TypeExprView },
    Struct { ident: Seq<char>, fields: FieldsView },
    Enum { ident: Seq<char> },
    ForeignMod { unsafety: bool, abi: AbiView, items: Seq<ForeignItemView> },
    Other,
}

/// A [`SourceFile`] as plain values.
pub struct SourceFileView {
    pub items: Seq<ItemView>,
}

/// The type expression `ty` as plain values.
pub open spec fn type_view(ty: TypeExpr) -> TypeExprView
    decreases ty,
{
    TypeExprView { tokens: ty.tokens@, kind: kind_view(ty.kind) }
}

/// The shape `kind` as plain values.
pub open spec fn kind_view(kind: TypeKind) -> TypeKindView
    decreases kind,
{
    match kind {
        TypeKind::Path { qualified, segments } => TypeKindView::Path {
            qualified,
            segments: Seq::new(
                segments.len() as nat,
                |i: int|
                    if 0 <= i < segments.len() {
                        segment_view(segments[i])
                    } else {
                        arbitrary()
                    },
            ),
        },
        TypeKind::Tuple { elems } => TypeKindView::Tuple {
            elems: Seq::new(
                elems.len() as nat,
                |i: int|
                    if 0 <= i < elems.len() {
                        type_view(elems[i])
                    } else {
                        arbitrary()
                    },
            ),
        },
        TypeKind::Array { elem, len } => TypeKindView::Array {
            elem: Box::new(type_view(*elem)),
            len: len@,
        },
        TypeKind::Slice { elem } => TypeKindView::Slice { elem: Box::new(type_view(*elem)) },
        TypeKind::Ptr { is_const, elem } => TypeKindView::Ptr {
            is_const,
            elem: Box::new(type_view(*elem)),
        },
        TypeKind::BareFn(function) => TypeKindView::BareFn(bare_fn_view(function)),
        TypeKind::Other => TypeKindView::Other,
    }
}

/// The path segment `segment` as plain values.
pub open spec fn segment_view(segment: PathSegment) -> PathSegmentView
    decreases segment,
{
    PathSegmentView {
        ident: segment.ident@,
        arguments: match segment.arguments {
            PathArguments::Absent => PathArgumentsView::Absent,
            PathArguments::AngleBracketed { args } => PathArgumentsView::AngleBracketed {
                args: Seq::new(
                    args.len() as nat,
                    |i: int|
                        if 0 <= i < args.len() {
                            match args[i] {
                                GenericArgument::Type(inner) => GenericArgumentView::Type(
                                    type_view(inner),
                                ),
                                GenericArgument::Other => GenericArgumentView::Other,
                            }
                        } else {
                            arbitrary()
                        },
                ),
            },
            PathArguments::Parenthesized => PathArgumentsView::Parenthesized,
        },
    }
}

/// The function pointer type `function` as plain values.
pub open spec fn bare_fn_view(function: BareFn) -> BareFnView
    decreases function,
{
    BareFnView {
        unsafety: function.unsafety,
        abi: match function.abi {
            Some(abi) => Some(abi@),
            None => None,
        },
        inputs: Seq::new(
            function.inputs.len() as nat,
            |i: int|
                if 0 <= i < function.inputs.len() {
                    BareFnArgView {
                        name: match function.inputs[i].name {
                            Some(name) => Some(name@),
                            None => None,
                        },
                        ty: type_view(function.inputs[i].ty),
                    }
                } else {
                    arbitrary()
                },
        ),
        variadic: function.variadic,
        output: match function.output {
            Some(ty) => Some(Box::new(type_view(*ty))),
            None => None,
        },
    }
}

impl View for Abi {
    type V = AbiView;

    open spec fn view(&self) -> AbiView {
        AbiView {
            name: match self.name {
                Some(name) => Some(name@),
                None => None,
            },
        }
    }
}

impl View for TypeExpr {
    type V = TypeExprView;

    open spec fn view(&self) -> TypeExprView {
        type_view(*self)
    }
}

impl View for TypeKind {
    type V = TypeKindView;

    open spec fn view(&self) -> TypeKindView {
        kind_view(*self)
    }
}

impl View for PathSegment {
    type V = PathSegmentView;

    open spec fn view(&self) -> PathSegmentView {
        segment_view(*self)
    }
}

impl View for BareFn {
    type V = BareFnView;

    open spec fn view(&self) -> BareFnView {
        bare_fn_view(*self)
    }
}

impl View for Field {
    type V = FieldView;

    open spec fn view(&self) -> FieldView {
        FieldView {
            ident: match self.ident {
                Some(ident) => Some(ident@),
                None => None,
            },
            ty: self.ty@,
        }
    }
}

impl View for Fields {
    type V = FieldsView;

    open spec fn view(&self) -> FieldsView {
        match self {
            Fields::Named(fields) => FieldsView::Named(fields@.map_values(|f: Field| f@)),
            Fields::Unnamed { len } => FieldsView::Unnamed { len: *len as nat },
            Fields::Unit => FieldsView::Unit,
        }
    }
}

impl View for FnArg {
    type V = FnArgView;

    open spec fn view(&self) -> FnArgView {
        match self {
            FnArg::Typed { pat, ty } => FnArgView::Typed {
                pat: match pat {
                    Pat::Ident { ident } => PatView::Ident { ident: ident@ },
                    Pat::Other => PatView::Other,
                },
                ty: ty@,
            },
            FnArg::Receiver => FnArgView::Receiver,
        }
    }
}

impl View for ForeignItem {
    type V = ForeignItemView;

    open spec fn view(&self) -> ForeignItemView {
        match self {
            ForeignItem::Fn { ident, inputs, output } => ForeignItemView::Fn {
                ident: ident@,
                inputs: inputs@.map_values(|a: FnArg| a@),
                output: match output {
                    Some(ty) => Some(ty@),
                    None => None,
                },
            },
            ForeignItem::Other => ForeignItemView::Other,
        }
    }
}

impl View for Item {
    type V = ItemView;

    open spec fn view(&self) -> ItemView {
        match self {
            Item::Type { ident, ty } => ItemView::Type { ident: ident@, ty: ty@ },
            Item::Struct { ident, fields } => ItemView::Struct { ident: ident@, fields: fields@ },
            Item::Enum { ident } => ItemView::Enum { ident: ident@ },
            Item::ForeignMod { unsafety, abi, items } => ItemView::ForeignMod {
                unsafety: *unsafety,
                abi: abi@,
                items: items@.map_values(|i: ForeignItem| i@),
            },
            Item::Other => ItemView::Other,
        }
    }
}

impl View for SourceFile {
    type V = SourceFileView;

    open spec fn view(&self) -> SourceFileView {
        SourceFileView { items: self.items@.map_values(|i: Item| i@) }
    }
}

} // verus!
