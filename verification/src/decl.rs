//! The declarations that the generator works on: data fields, method slots and
//! the structs that hold them, and how each is recognised in a parsed field.

use crate::text::{join, lemma_join_take, option_text, str_eq};
use vstd::prelude::*;
use vstd::string::*;

verus! {

/// The name by which a method slot takes its receiver.
pub const RECEIVER: &'static str = "self_";

/// One argument of a method slot or of a global function.
#[derive(Debug, PartialEq, Eq)]
pub struct MethodArgument {
    /// The foreign name.
    pub name: String,
    /// The host name.
    pub rust_name: String,
    /// The host type text.
    pub ty: String,
    /// The foreign type text, kept as it was written.
    pub cef_type: String,
}

/// A method slot of a struct, or a global function.
#[derive(Debug, PartialEq, Eq)]
pub struct MethodDeclaration {
    /// The host name.
    pub name: String,
    /// The foreign name, where it differs from the host name.
    pub original_name: Option<String>,
    /// The arguments in declaration order; a method slot's first is its receiver.
    pub args: Vec<MethodArgument>,
    /// The host text of the return type, where there is one.
    pub output: Option<String>,
    /// The foreign text of the return type, where there is one.
    pub original_output: Option<String>,
}

/// A data field of a struct.
#[derive(Debug, PartialEq, Eq)]
pub struct FieldDeclaration {
    /// The foreign name.
    pub name: String,
    /// The host name.
    pub rust_name: String,
    /// The host type text.
    pub ty: String,
}

/// A struct: its data fields and its method slots, each in declaration order.
#[derive(Debug, PartialEq, Eq)]
pub struct StructDeclaration {
    /// The foreign name.
    pub name: String,
    /// The host name, where the foreign name has the recognised form.
    pub rust_name: Option<String>,
    pub fields: Vec<FieldDeclaration>,
    pub methods: Vec<MethodDeclaration>,
}

/// A [`MethodArgument`] as plain text.
pub struct MethodArgumentView {
    pub name: Seq<char>,
    pub rust_name: Seq<char>,
    pub ty: Seq<char>,
    pub cef_type: Seq<char>,
}

/// A [`MethodDeclaration`] as plain text.
pub struct MethodDeclarationView {
    pub name: Seq<char>,
    pub original_name: Option<Seq<char>>,
    pub args: Seq<MethodArgumentView>,
    pub output: Option<Seq<char>>,
    pub original_output: Option<Seq<char>>,
}

/// A [`FieldDeclaration`] as plain text.
pub struct FieldDeclarationView {
    pub name: Seq<char>,
    pub rust_name: Seq<char>,
    pub ty: Seq<char>,
}

/// A [`StructDeclaration`] as plain text.
pub struct StructDeclarationView {
    pub name: Seq<char>,
    pub rust_name: Option<Seq<char>>,
    pub fields: Seq<FieldDeclarationView>,
    pub methods: Seq<MethodDeclarationView>,
}

impl View for MethodArgument {
    type V = MethodArgumentView;

    open spec fn view(&self) -> MethodArgumentView {
        MethodArgumentView {
            name: self.name@,
            rust_name: self.rust_name@,
            ty: self.ty@,
            cef_type: self.cef_type@,
        }
    }
}

impl View for MethodDeclaration {
    type V = MethodDeclarationView;

    open spec fn view(&self) -> MethodDeclarationView {
        MethodDeclarationView {
            name: self.name@,
            original_name: option_text(self.original_name),
            args: self.args@.map_values(|a: MethodArgument| a@),
            output: option_text(self.output),
            original_output: option_text(self.original_output),
        }
    }
}

impl View for FieldDeclaration {
    type V = FieldDeclarationView;

    open spec fn view(&self) -> FieldDeclarationView {
        FieldDeclarationView { name: self.name@, rust_name: self.rust_name@, ty: self.ty@ }
    }
}

impl View for StructDeclaration {
    type V = StructDeclarationView;

    open spec fn view(&self) -> StructDeclarationView {
        StructDeclarationView {
            name: self.name@,
            rust_name: option_text(self.rust_name),
            fields: self.fields@.map_values(|f: FieldDeclaration| f@),
            methods: self.methods@.map_values(|m: MethodDeclaration| m@),
        }
    }
}

/// The forms in which an argument is written into generated text.
#[derive(Debug, Clone, Copy, PartialEq, Eq, Structural)]
pub enum ArgumentForm {
    /// As a parameter of a host method: `&self` for the receiver, the host
    /// name and host type for any other.
    Parameter,
    /// As a parameter of a foreign function: the host name and the foreign type.
    ForeignParameter,
    /// As a value handed on: the host name, converted.
    Forwarded,
}

impl MethodArgumentView {
    /// The argument, written in the form `form`.
    pub open spec fn text(self, form: ArgumentForm) -> Seq<char> {
        match form {
            ArgumentForm::Parameter => if self.name == RECEIVER@ {
                "&self"@
            } else {
                self.rust_name + ": "@ + self.ty
            },
            ArgumentForm::ForeignParameter => self.rust_name + ": "@ + self.cef_type,
            ArgumentForm::Forwarded => self.rust_name + ".into()"@,
        }
    }
}

/// The arguments `args`, each written in the form `form`.
pub open spec fn argument_texts(args: Seq<MethodArgumentView>, form: ArgumentForm) -> Seq<
    Seq<char>,
> {
    args.map_values(|a: MethodArgumentView| a.text(form))
}

/// The arguments `args` from the place `start` on, each written in the form
/// `form`, with a comma and a blank between each two.
pub open spec fn arguments_text(
    args: Seq<MethodArgumentView>,
    start: int,
    form: ArgumentForm,
) -> Seq<char> {
    if start < args.len() {
        join(argument_texts(args.skip(start), form), ", "@)
    } else {
        Seq::empty()
    }
}

impl MethodDeclarationView {
    /// The return part of a signature: an arrow and the type, or nothing.
    pub open spec fn arrow(output: Option<Seq<char>>) -> Seq<char> {
        match output {
            Some(ty) => " -> "@ + ty,
            None => Seq::empty(),
        }
    }

    /// The signature of the host method: `fn name(parameters) -> output`.
    pub open spec fn signature(self) -> Seq<char> {
        "fn "@ + self.name + "("@ + arguments_text(self.args, 0, ArgumentForm::Parameter) + ")"@
            + Self::arrow(self.output)
    }
}

impl FieldDeclarationView {
    /// The field as a public member of the host struct: `pub name: type,`.
    pub open spec fn member(self) -> Seq<char> {
        "pub "@ + self.rust_name + ": "@ + self.ty + ","@
    }
}

impl MethodArgument {
    /// The argument, written in the form `form`.
    pub fn text(&self, form: ArgumentForm) -> (r: String)
        ensures
            r@ == self@.text(form),
    {
        match form {
            ArgumentForm::Parameter => {
                if str_eq(self.name.as_str(), RECEIVER) {
                    String::from_str("&self")
                } else {
                    let mut out = self.rust_name.clone();
                    out.append(": ");
                    out.append(self.ty.as_str());
                    out
                }
            },
            ArgumentForm::ForeignParameter => {
                let mut out = self.rust_name.clone();
                out.append(": ");
                out.append(self.cef_type.as_str());
                out
            },
            ArgumentForm::Forwarded => {
                let mut out = self.rust_name.clone();
                out.append(".into()");
                out
            },
        }
    }
}

/// The arguments `args` from the place `start` on, each written in the form
/// `form`, with a comma and a blank between each two.
pub fn join_arguments(args: &Vec<MethodArgument>, start: usize, form: ArgumentForm) -> (r: String)
    ensures
        r@ == arguments_text(args@.map_values(|a: MethodArgument| a@), start as int, form),
{
    let ghost views = args@.map_values(|a: MethodArgument| a@);
    let mut out = String::new();
    if start >= args.len() {
        return out;
    }
    let ghost texts = argument_texts(views.skip(start as int), form);
    let mut i: usize = start;
    while i < args.len()
        invariant
            start <= i <= args.len(),
            start < args.len(),
            views == args@.map_values(|a: MethodArgument| a@),
            texts == argument_texts(views.skip(start as int), form),
            out@ == join(texts.take(i - start), ", "@),
        decreases args.len() - i,
    {
        let part = args[i].text(form);
        proof {
            lemma_join_take(texts, ", "@, i - start);
        }
        if i > start {
            out.append(", ");
            out.append(part.as_str());
        } else {
            out = part;
        }
        i += 1;
    }
    proof {
        assert(texts.take(i - start) =~= texts);
    }
    out
}

/// The return part of a signature: an arrow and the type, or nothing.
pub fn arrow(output: &Option<String>) -> (r: String)
    ensures
        r@ == MethodDeclarationView::arrow(option_text(*output)),
{
    match output {
        Some(ty) => {
            let mut out = String::from_str(" -> ");
            out.append(ty.as_str());
            out
        },
        None => String::new(),
    }
}

impl MethodDeclaration {
    /// The signature of the host method: `fn name(parameters) -> output`.
    pub fn to_string(&self) -> (r: String)
        ensures
            r@ == self@.signature(),
    {
        let mut out = String::from_str("fn ");
        out.append(self.name.as_str());
        out.append("(");
        out.append(join_arguments(&self.args, 0, ArgumentForm::Parameter).as_str());
        out.append(")");
        out.append(arrow(&self.output).as_str());
        out
    }
}

impl FieldDeclaration {
    /// The field as a public member of the host struct: `pub name: type,`.
    pub fn to_string(&self) -> (r: String)
        ensures
            r@ == self@.member(),
    {
        let mut out = String::from_str("pub ");
        out.append(self.rust_name.as_str());
        out.append(": ");
        out.append(self.ty.as_str());
        out.append(",");
        out
    }
}

} // verus!
