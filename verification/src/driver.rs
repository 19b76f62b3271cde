//! One pass from a parsed source file to the generated text.

use crate::bases::{base_links, settles};
use crate::error::Unrecognized;
use crate::syntax::{ItemView, SourceFile};
use crate::tree::{holds_items, struct_decls, ParseTree, ParseTreeView};
use vstd::prelude::*;

verus! {

/// Whether the links between the structs among `items` lead to a root from
/// every struct that has a host name.
pub open spec fn links_settle(items: Seq<ItemView>) -> bool {
    forall|i: int|
        0 <= i < struct_decls(items).len() ==> match (#[trigger] struct_decls(items)[i]).rust_name {
            Some(host) => settles(base_links(struct_decls(items)), host),
            None => true,
        }
}

/// Whether `text` is what is generated for `items` after the prelude `header`:
/// the text of the tree that holds the declarations of `items`.
pub open spec fn is_generated(items: Seq<ItemView>, header: Seq<char>, text: Seq<char>) -> bool {
    exists|tree: ParseTreeView| holds_items(tree, items) && text == tree.text(header)
}

/// The text that is generated from the outcome of parsing a source text.
///
/// Where the source text could not be parsed, `parsed` holds the message of the
/// parser, and the generation fails with [`Unrecognized::Parse`]. Where it
/// could, a text is generated whatever the file holds: what is not recognised
/// in it is left out. The links between its structs must not lead round in a
/// circle.
pub fn generate_bindings(parsed: Result<SourceFile, String>, header: &str) -> (r: Result<
    String,
    Unrecognized,
>)
    requires
        parsed matches Ok(file) ==> links_settle(file@.items),
    ensures
        match parsed {
            Ok(file) => r matches Ok(text) && is_generated(file@.items, header@, text@),
            Err(message) => r == Err::<String, Unrecognized>(Unrecognized::Parse(message)),
        },
{
    let file = match parsed {
        Ok(file) => file,
        Err(message) => {
            return Err(Unrecognized::Parse(message));
        },
    };
    let tree = ParseTree::try_from(&file)?;
    Ok(tree.to_string(header))
}

/// The text that is generated from the outcome of parsing a source text, or
/// `None` where the links between the structs of the file lead round in a
/// circle and no text can be generated.
pub fn try_generate_bindings(parsed: Result<SourceFile, String>, header: &str) -> (r: Option<
    Result<String, Unrecognized>,
>)
    ensures
        match parsed {
            Ok(file) => if links_settle(file@.items) {
                r matches Some(Ok(text)) && is_generated(file@.items, header@, text@)
            } else {
                r is None
            },
            Err(message) => r == Some(Err::<String, Unrecognized>(Unrecognized::Parse(message))),
        },
{
    let file = match parsed {
        Ok(file) => file,
        Err(message) => {
            return Some(Err(Unrecognized::Parse(message)));
        },
    };
    match ParseTree::try_from(&file) {
        Ok(tree) => if tree.bases_settle() {
            Some(Ok(tree.to_string(header)))
        } else {
            None
        },
        Err(e) => Some(Err(e)),
    }
}

} // verus!
