//! Type expressions as host type text.

use crate::names::{make_rust_type_name, mapped_type_name, resolve_type_name, resolved_type_name};
use crate::syntax::{TypeExpr, TypeExprView, TypeKind, TypeKindView};
use crate::text::{join, lemma_join_push, option_text};
use vstd::prelude::*;
use vstd::string::*;

verus! {

/// The host name of the type that `ty` names, where `ty` is a plain path of the
/// recognised foreign form.
pub open spec fn path_host_name(ty: TypeExprView) -> Option<Seq<char>> {
    match ty.kind {
        TypeKindView::Path { qualified, .. } => if qualified {
            None
        } else {
            mapped_type_name(ty.tokens)
        },
        _ => None,
    }
}

/// The host type text of `ty`.
///
/// A plain path is given its host name, where it has one. Tuples, arrays and
/// slices keep their form around the text of their parts. A pointer to a type
/// with a host name is that name; any other pointer keeps its form. Everything
/// else is its own token text.
pub open spec fn type_text(ty: TypeExprView) -> Seq<char>
    decreases ty, 0nat,
{
    match ty.kind {
        TypeKindView::Path { qualified, .. } => if qualified {
            ty.tokens
        } else {
            resolved_type_name(ty.tokens)
        },
        TypeKindView::Tuple { elems } => "("@ + join(types_text(elems, elems.len()), ", "@) + ")"@,
        TypeKindView::Array { elem, len } => "["@ + type_text(*elem) + "; "@ + len + "]"@,
        TypeKindView::Slice { elem } => "["@ + type_text(*elem) + "]"@,
        TypeKindView::Ptr { is_const, elem } => match path_host_name(*elem) {
            Some(host) => host,
            None => if is_const {
                "*const "@ + type_text(*elem)
            } else {
                "*mut "@ + type_text(*elem)
            },
        },
        _ => ty.tokens,
    }
}

/// The host type texts of the first `n` of `elems`, in order.
pub open spec fn types_text(elems: Seq<TypeExprView>, n: nat) -> Seq<Seq<char>>
    decreases elems, n,
{
    if n == 0 || n > elems.len() {
        Seq::empty()
    } else {
        types_text(elems, (n - 1) as nat).push(type_text(elems[n - 1]))
    }
}

/// The texts of the first `n` types are `n` texts.
pub proof fn lemma_types_text_len(elems: Seq<TypeExprView>, n: nat)
    requires
        n <= elems.len(),
    ensures
        types_text(elems, n).len() == n,
    decreases n,
{
    if n > 0 {
        lemma_types_text_len(elems, (n - 1) as nat);
    }
}

/// The host name of the type that `ty` names, where `ty` is a plain path of the
/// recognised foreign form.
fn host_name_of_path(ty: &TypeExpr) -> (r: Option<String>)
    ensures
        option_text(r) == path_host_name(ty@),
{
    match &ty.kind {
        TypeKind::Path { qualified, .. } => if *qualified {
            None
        } else {
            make_rust_type_name(ty.tokens.as_str())
        },
        _ => None,
    }
}

/// The host type text of `ty`.
pub fn type_to_string(ty: &TypeExpr) -> (r: String)
    ensures
        r@ == type_text(ty@),
    decreases ty,
{
    match &ty.kind {
        TypeKind::Path { qualified, .. } => if *qualified {
            ty.tokens.clone()
        } else {
            resolve_type_name(ty.tokens.as_str())
        },
        TypeKind::Tuple { elems } => {
            let ghost parts = ty@.kind->Tuple_elems;
            let mut out = String::from_str("(");
            let mut i: usize = 0;
            while i < elems.len()
                invariant
                    i <= elems.len(),
                    out@ == "("@ + join(types_text(parts, i as nat), ", "@),
                    ty.kind == (TypeKind::Tuple { elems: *elems }),
                    parts == ty@.kind->Tuple_elems,
                decreases elems.len() - i,
            {
                if i > 0 {
                    out.append(", ");
                }
                assert(decreases_to!(ty => elems[i as int])) by {
                    assert(decreases_to!(ty => ty.kind));
                    assert(decreases_to!(ty.kind => ty.kind->Tuple_elems));
                    assert(decreases_to!(*elems => elems[i as int]));
                }
                let part = type_to_string(&elems[i]);
                proof {
                    lemma_join_push(types_text(parts, i as nat), ", "@, part@);
                    lemma_types_text_len(parts, i as nat);
                    assert(parts[i as int] == elems[i as int]@);
                }
                out.append(part.as_str());
                i += 1;
            }
            out.append(")");
            out
        },
        TypeKind::Array { elem, len } => {
            let mut out = String::from_str("[");
            out.append(type_to_string(elem).as_str());
            out.append("; ");
            out.append(len.as_str());
            out.append("]");
            out
        },
        TypeKind::Slice { elem } => {
            let mut out = String::from_str("[");
            out.append(type_to_string(elem).as_str());
            out.append("]");
            out
        },
        TypeKind::Ptr { is_const, elem } => match host_name_of_path(elem) {
            Some(host) => host,
            None => {
                let mut out = if *is_const {
                    String::from_str("*const ")
                } else {
                    String::from_str("*mut ")
                };
                out.append(type_to_string(elem).as_str());
                out
            },
        },
        _ => ty.tokens.clone(),
    }
}

} // verus!
