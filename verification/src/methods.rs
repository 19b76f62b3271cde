//! The parts of a reference-counted wrapper that are written once for each
//! method slot, and the parts of a plain struct that are written once for each
//! field. Each part keeps the order of the declarations.

use crate::blocks::{
    field_from, field_from_text, field_into, field_into_text, member_line, member_line_text,
    slot_line, slot_line_text, trait_method, trait_method_text, trampoline, trampoline_text,
    wrapper_method, wrapper_method_text, STRUCT_PAD,
};
use crate::decl::{
    arguments_text, arrow, join_arguments, ArgumentForm, FieldDeclaration, FieldDeclarationView,
    MethodDeclaration, MethodDeclarationView,
};
use crate::text::{concat, lemma_concat_take, option_text};
use vstd::prelude::*;
use vstd::string::*;

verus! {

/// The body that a trait method has unless it is overridden: the default value
/// of its return type, or nothing where it returns nothing.
pub open spec fn default_body_text(output: Option<Seq<char>>) -> Seq<char> {
    match output {
        Some(_) => " Default::default() "@,
        None => Seq::empty(),
    }
}

/// The conversion of a returned value, or nothing where nothing is returned.
pub open spec fn back_text(output: Option<Seq<char>>) -> Seq<char> {
    match output {
        Some(_) => ".into()"@,
        None => Seq::empty(),
    }
}

/// The trampoline of `method` for the trait `Impl<host>`: its parameters have
/// the foreign types, and every argument after the receiver is handed on.
pub open spec fn method_trampoline_text(method: MethodDeclarationView, host: Seq<char>) -> Seq<
    char,
> {
    trampoline_text(
        STRUCT_PAD@,
        method.name,
        host,
        arguments_text(method.args, 0, ArgumentForm::ForeignParameter),
        MethodDeclarationView::arrow(method.original_output),
        arguments_text(method.args, 1, ArgumentForm::Forwarded),
        back_text(method.original_output),
    )
}

/// The methods of a wrapper, one line for each of `methods`.
pub open spec fn wrapper_method_lines(methods: Seq<MethodDeclarationView>) -> Seq<Seq<char>> {
    methods.map_values(|m: MethodDeclarationView| wrapper_method_text(m.signature()))
}

/// The methods of a trait, one line for each of `methods`.
pub open spec fn trait_method_lines(methods: Seq<MethodDeclarationView>) -> Seq<Seq<char>> {
    methods.map_values(
        |m: MethodDeclarationView| trait_method_text(m.signature(), default_body_text(m.output)),
    )
}

/// The statements that fill the slots, one for each of `methods`.
pub open spec fn slot_lines(methods: Seq<MethodDeclarationView>) -> Seq<Seq<char>> {
    methods.map_values(|m: MethodDeclarationView| slot_line_text(m.name))
}

/// The trampolines, one for each of `methods`.
pub open spec fn trampoline_lines(methods: Seq<MethodDeclarationView>, host: Seq<char>) -> Seq<
    Seq<char>,
> {
    methods.map_values(|m: MethodDeclarationView| method_trampoline_text(m, host))
}

/// The members of a host struct, one line for each of `fields`.
pub open spec fn member_lines(fields: Seq<FieldDeclarationView>) -> Seq<Seq<char>> {
    fields.map_values(|f: FieldDeclarationView| member_line_text(f.member()))
}

/// The fields on the way in, one line for each of `fields`.
pub open spec fn field_from_lines(fields: Seq<FieldDeclarationView>) -> Seq<Seq<char>> {
    fields.map_values(|f: FieldDeclarationView| field_from_text(f.name, f.rust_name))
}

/// The fields on the way out, one line for each of `fields`.
pub open spec fn field_into_lines(fields: Seq<FieldDeclarationView>) -> Seq<Seq<char>> {
    fields.map_values(|f: FieldDeclarationView| field_into_text(f.name, f.rust_name))
}

/// Every method slot has one trampoline and one statement that fills it, and
/// they stand in the order of the slots.
pub proof fn lemma_one_line_for_each_slot(methods: Seq<MethodDeclarationView>, host: Seq<char>)
    ensures
        trampoline_lines(methods, host).len() == methods.len(),
        slot_lines(methods).len() == methods.len(),
        forall|i: int|
            0 <= i < methods.len() ==> #[trigger] trampoline_lines(methods, host)[i]
                == method_trampoline_text(methods[i], host),
        forall|i: int|
            0 <= i < methods.len() ==> #[trigger] slot_lines(methods)[i] == slot_line_text(
                methods[i].name,
            ),
{
}

/// Every data field has one member and one line in each conversion, and they
/// stand in the order of the fields.
pub proof fn lemma_one_line_for_each_field(fields: Seq<FieldDeclarationView>)
    ensures
        member_lines(fields).len() == fields.len(),
        field_from_lines(fields).len() == fields.len(),
        field_into_lines(fields).len() == fields.len(),
        forall|i: int|
            0 <= i < fields.len() ==> #[trigger] member_lines(fields)[i] == member_line_text(
                fields[i].member(),
            ),
        forall|i: int|
            0 <= i < fields.len() ==> #[trigger] field_from_lines(fields)[i] == field_from_text(
                fields[i].name,
                fields[i].rust_name,
            ),
        forall|i: int|
            0 <= i < fields.len() ==> #[trigger] field_into_lines(fields)[i] == field_into_text(
                fields[i].name,
                fields[i].rust_name,
            ),
{
}

/// The body that a trait method has unless it is overridden.
pub fn default_body(output: &Option<String>) -> (r: String)
    ensures
        r@ == default_body_text(option_text(*output)),
{
    match output {
        Some(_) => String::from_str(" Default::default() "),
        None => String::new(),
    }
}

/// The conversion of a returned value, or nothing where nothing is returned.
pub fn back(output: &Option<String>) -> (r: String)
    ensures
        r@ == back_text(option_text(*output)),
{
    match output {
        Some(_) => String::from_str(".into()"),
        None => String::new(),
    }
}

/// The trampoline of `method` for the trait `Impl<host>`.
pub fn method_trampoline(method: &MethodDeclaration, host: &str) -> (r: String)
    ensures
        r@ == method_trampoline_text(method@, host@),
{
    trampoline(
        STRUCT_PAD,
        method.name.as_str(),
        host,
        join_arguments(&method.args, 0, ArgumentForm::ForeignParameter).as_str(),
        arrow(&method.original_output).as_str(),
        join_arguments(&method.args, 1, ArgumentForm::Forwarded).as_str(),
        back(&method.original_output).as_str(),
    )
}

/// The methods of a wrapper, one line for each of `methods`.
pub fn wrapper_methods(methods: &Vec<MethodDeclaration>) -> (r: String)
    ensures
        r@ == concat(wrapper_method_lines(methods@.map_values(|m: MethodDeclaration| m@))),
{
    let ghost lines = wrapper_method_lines(methods@.map_values(|m: MethodDeclaration| m@));
    let mut out = String::new();
    let mut i: usize = 0;
    while i < methods.len()
        invariant
            i <= methods.len(),
            lines == wrapper_method_lines(methods@.map_values(|m: MethodDeclaration| m@)),
            out@ == concat(lines.take(i as int)),
        decreases methods.len() - i,
    {
        proof {
            lemma_concat_take(lines, i as int);
        }
        out.append(wrapper_method(methods[i].to_string().as_str()).as_str());
        i += 1;
    }
    proof {
        assert(lines.take(i as int) =~= lines);
    }
    out
}

/// The methods of a trait, one line for each of `methods`.
pub fn trait_methods(methods: &Vec<MethodDeclaration>) -> (r: String)
    ensures
        r@ == concat(trait_method_lines(methods@.map_values(|m: MethodDeclaration| m@))),
{
    let ghost lines = trait_method_lines(methods@.map_values(|m: MethodDeclaration| m@));
    let mut out = String::new();
    let mut i: usize = 0;
    while i < methods.len()
        invariant
            i <= methods.len(),
            lines == trait_method_lines(methods@.map_values(|m: MethodDeclaration| m@)),
            out@ == concat(lines.take(i as int)),
        decreases methods.len() - i,
    {
        proof {
            lemma_concat_take(lines, i as int);
        }
        let line = trait_method(
            methods[i].to_string().as_str(),
            default_body(&methods[i].output).as_str(),
        );
        out.append(line.as_str());
        i += 1;
    }
    proof {
        assert(lines.take(i as int) =~= lines);
    }
    out
}

/// The statements that fill the slots, one for each of `methods`.
pub fn slots(methods: &Vec<MethodDeclaration>) -> (r: String)
    ensures
        r@ == concat(slot_lines(methods@.map_values(|m: MethodDeclaration| m@))),
{
    let ghost lines = slot_lines(methods@.map_values(|m: MethodDeclaration| m@));
    let mut out = String::new();
    let mut i: usize = 0;
    while i < methods.len()
        invariant
            i <= methods.len(),
            lines == slot_lines(methods@.map_values(|m: MethodDeclaration| m@)),
            out@ == concat(lines.take(i as int)),
        decreases methods.len() - i,
    {
        proof {
            lemma_concat_take(lines, i as int);
        }
        out.append(slot_line(methods[i].name.as_str()).as_str());
        i += 1;
    }
    proof {
        assert(lines.take(i as int) =~= lines);
    }
    out
}

/// The trampolines, one for each of `methods`.
pub fn trampolines(methods: &Vec<MethodDeclaration>, host: &str) -> (r: String)
    ensures
        r@ == concat(trampoline_lines(methods@.map_values(|m: MethodDeclaration| m@), host@)),
{
    let ghost lines = trampoline_lines(methods@.map_values(|m: MethodDeclaration| m@), host@);
    let mut out = String::new();
    let mut i: usize = 0;
    while i < methods.len()
        invariant
            i <= methods.len(),
            lines == trampoline_lines(methods@.map_values(|m: MethodDeclaration| m@), host@),
            out@ == concat(lines.take(i as int)),
        decreases methods.len() - i,
    {
        proof {
            lemma_concat_take(lines, i as int);
        }
        out.append(method_trampoline(&methods[i], host).as_str());
        i += 1;
    }
    proof {
        assert(lines.take(i as int) =~= lines);
    }
    out
}

/// The members of a host struct, one line for each of `fields`.
pub fn members(fields: &Vec<FieldDeclaration>) -> (r: String)
    ensures
        r@ == concat(member_lines(fields@.map_values(|f: FieldDeclaration| f@))),
{
    let ghost lines = member_lines(fields@.map_values(|f: FieldDeclaration| f@));
    let mut out = String::new();
    let mut i: usize = 0;
    while i < fields.len()
        invariant
            i <= fields.len(),
            lines == member_lines(fields@.map_values(|f: FieldDeclaration| f@)),
            out@ == concat(lines.take(i as int)),
        decreases fields.len() - i,
    {
        proof {
            lemma_concat_take(lines, i as int);
        }
        out.append(member_line(fields[i].to_string().as_str()).as_str());
        i += 1;
    }
    proof {
        assert(lines.take(i as int) =~= lines);
    }
    out
}

/// The fields on the way in, one line for each of `fields`.
pub fn fields_from(fields: &Vec<FieldDeclaration>) -> (r: String)
    ensures
        r@ == concat(field_from_lines(fields@.map_values(|f: FieldDeclaration| f@))),
{
    let ghost lines = field_from_lines(fields@.map_values(|f: FieldDeclaration| f@));
    let mut out = String::new();
    let mut i: usize = 0;
    while i < fields.len()
        invariant
            i <= fields.len(),
            lines == field_from_lines(fields@.map_values(|f: FieldDeclaration| f@)),
            out@ == concat(lines.take(i as int)),
        decreases fields.len() - i,
    {
        proof {
            lemma_concat_take(lines, i as int);
        }
        out.append(field_from(fields[i].name.as_str(), fields[i].rust_name.as_str()).as_str());
        i += 1;
    }
    proof {
        assert(lines.take(i as int) =~= lines);
    }
    out
}

/// The fields on the way out, one line for each of `fields`.
pub fn fields_into(fields: &Vec<FieldDeclaration>) -> (r: String)
    ensures
        r@ == concat(field_into_lines(fields@.map_values(|f: FieldDeclaration| f@))),
{
    let ghost lines = field_into_lines(fields@.map_values(|f: FieldDeclaration| f@));
    let mut out = String::new();
    let mut i: usize = 0;
    while i < fields.len()
        invariant
            i <= fields.len(),
            lines == field_into_lines(fields@.map_values(|f: FieldDeclaration| f@)),
            out@ == concat(lines.take(i as int)),
        decreases fields.len() - i,
    {
        proof {
            lemma_concat_take(lines, i as int);
        }
        out.append(field_into(fields[i].name.as_str(), fields[i].rust_name.as_str()).as_str());
        i += 1;
    }
    proof {
        assert(lines.take(i as int) =~= lines);
    }
    out
}

} // verus!
