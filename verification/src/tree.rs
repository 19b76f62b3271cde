//! The declarations of one source file, gathered for generation: type aliases,
//! enums, structs with the links between them, and global functions.

use crate::bases::{base_links, BaseTypes};
use crate::classify::{
    abi_names_c, argument_of, names_c, output_pair, output_text, output_tokens, struct_of,
};
use crate::decl::{
    MethodArgument, MethodArgumentView, MethodDeclaration, MethodDeclarationView, StructDeclaration,
    StructDeclarationView,
};
use crate::error::Unrecognized;
use crate::names::{make_global_fn_name, mapped_global_name};
use crate::syntax::{
    AbiView, Fields, FieldsView, FnArg, FnArgView, ForeignItem, ForeignItemView, Item, ItemView,
    Pat, PatView, SourceFile,
};
use crate::table::{lemma_sorted_entries_unique, map_of, strictly_sorted, NameTable};
use crate::types::{type_text, type_to_string};
use vstd::prelude::*;

verus! {

/// The declarations of one source file.
#[derive(Debug, PartialEq, Eq)]
pub struct ParseTree {
    /// The type aliases: from the foreign name of each to the host text of its type.
    pub type_aliases: NameTable,
    /// The foreign names of the enums and of the structs with one unnamed field.
    pub enums: Vec<String>,
    /// The structs with named fields, in declaration order.
    pub structs: Vec<StructDeclaration>,
    /// Which struct extends which.
    pub base_types: BaseTypes,
    /// The functions of the foreign blocks, in declaration order.
    pub globals: Vec<MethodDeclaration>,
}

/// A [`ParseTree`] as plain values.
pub struct ParseTreeView {
    /// The type aliases in the order of their foreign names.
    pub type_aliases: Seq<(Seq<char>, Seq<char>)>,
    pub enums: Seq<Seq<char>>,
    pub structs: Seq<StructDeclarationView>,
    pub base_types: Map<Seq<char>, Seq<char>>,
    pub globals: Seq<MethodDeclarationView>,
}

impl View for ParseTree {
    type V = ParseTreeView;

    open spec fn view(&self) -> ParseTreeView {
        ParseTreeView {
            type_aliases: self.type_aliases.entries(),
            enums: self.enums@.map_values(|name: String| name@),
            structs: self.structs@.map_values(|s: StructDeclaration| s@),
            base_types: self.base_types@,
            globals: self.globals@.map_values(|m: MethodDeclaration| m@),
        }
    }
}

/// The type aliases among `items`, by foreign name; of two aliases with one
/// name the later counts.
pub open spec fn alias_map(items: Seq<ItemView>) -> Map<Seq<char>, Seq<char>>
    decreases items.len(),
{
    if items.len() == 0 {
        Map::empty()
    } else {
        let before = alias_map(items.drop_last());
        match items.last() {
            ItemView::Type { ident, ty } => before.insert(ident, type_text(ty)),
            _ => before,
        }
    }
}

/// The name under which `item` counts as an enum: an enum does, and so does a
/// struct with exactly one unnamed field.
pub open spec fn enum_name(item: ItemView) -> Option<Seq<char>> {
    match item {
        ItemView::Enum { ident } => Some(ident),
        ItemView::Struct { ident, fields } => match fields {
            FieldsView::Unnamed { len } => if len == 1 {
                Some(ident)
            } else {
                None
            },
            _ => None,
        },
        _ => None,
    }
}

/// The names of the enums among `items`, in order.
pub open spec fn enum_names(items: Seq<ItemView>) -> Seq<Seq<char>>
    decreases items.len(),
{
    if items.len() == 0 {
        Seq::empty()
    } else {
        let before = enum_names(items.drop_last());
        match enum_name(items.last()) {
            Some(name) => before.push(name),
            None => before,
        }
    }
}

/// The structs with named fields among `items`, in order.
pub open spec fn struct_decls(items: Seq<ItemView>) -> Seq<StructDeclarationView>
    decreases items.len(),
{
    if items.len() == 0 {
        Seq::empty()
    } else {
        let before = struct_decls(items.drop_last());
        match items.last() {
            ItemView::Struct { ident, fields } => match fields {
                FieldsView::Named(named) => before.push(struct_of(ident, named)),
                _ => before,
            },
            _ => before,
        }
    }
}

/// The arguments of a global function: those of `inputs` that have a type and
/// a plain name, in order.
pub open spec fn fn_arguments(inputs: Seq<FnArgView>) -> Seq<MethodArgumentView>
    decreases inputs.len(),
{
    if inputs.len() == 0 {
        Seq::empty()
    } else {
        let before = fn_arguments(inputs.drop_last());
        match inputs.last() {
            FnArgView::Typed { pat, ty } => match pat {
                PatView::Ident { ident } => before.push(argument_of(ident, ty)),
                PatView::Other => before,
            },
            FnArgView::Receiver => before,
        }
    }
}

/// The functions among the items of one foreign block, in order.
pub open spec fn block_fns(items: Seq<ForeignItemView>) -> Seq<MethodDeclarationView>
    decreases items.len(),
{
    if items.len() == 0 {
        Seq::empty()
    } else {
        let before = block_fns(items.drop_last());
        match items.last() {
            ForeignItemView::Fn { ident, inputs, output } => before.push(
                MethodDeclarationView {
                    name: mapped_global_name(ident).0,
                    original_name: mapped_global_name(ident).1,
                    args: fn_arguments(inputs),
                    output: output_text(output),
                    original_output: output_tokens(output),
                },
            ),
            ForeignItemView::Other => before,
        }
    }
}

/// Whether a foreign block counts: it must be unsafe and of the C calling convention.
pub open spec fn is_foreign_block(unsafety: bool, abi: AbiView) -> bool {
    unsafety && names_c(abi)
}

/// The functions of the foreign blocks among `items`, in order.
pub open spec fn global_fns(items: Seq<ItemView>) -> Seq<MethodDeclarationView>
    decreases items.len(),
{
    if items.len() == 0 {
        Seq::empty()
    } else {
        let before = global_fns(items.drop_last());
        match items.last() {
            ItemView::ForeignMod { unsafety, abi, items: block } => if is_foreign_block(
                unsafety,
                abi,
            ) {
                before + block_fns(block)
            } else {
                before
            },
            _ => before,
        }
    }
}

/// Whether `tree` holds the declarations of `items`, and nothing else.
pub open spec fn holds_items(tree: ParseTreeView, items: Seq<ItemView>) -> bool {
    &&& strictly_sorted(tree.type_aliases)
    &&& map_of(tree.type_aliases) == alias_map(items)
    &&& tree.enums == enum_names(items)
    &&& tree.structs == struct_decls(items)
    &&& tree.base_types == base_links(struct_decls(items))
    &&& tree.globals == global_fns(items)
}

/// The declarations of `items` make one tree: two trees that hold them are one.
pub proof fn lemma_one_tree_holds_items(a: ParseTreeView, b: ParseTreeView, items: Seq<ItemView>)
    requires
        holds_items(a, items),
        holds_items(b, items),
    ensures
        a == b,
{
    lemma_sorted_entries_unique(a.type_aliases, b.type_aliases);
}

/// The arguments of a global function.
fn fn_arguments_of(inputs: &Vec<FnArg>) -> (r: Vec<MethodArgument>)
    ensures
        r@.map_values(|a: MethodArgument| a@) == fn_arguments(inputs@.map_values(|a: FnArg| a@)),
{
    let ghost views = inputs@.map_values(|a: FnArg| a@);
    let mut args: Vec<MethodArgument> = Vec::new();
    let mut i: usize = 0;
    while i < inputs.len()
        invariant
            i <= inputs.len(),
            views == inputs@.map_values(|a: FnArg| a@),
            args@.map_values(|a: MethodArgument| a@) == fn_arguments(views.take(i as int)),
        decreases inputs.len() - i,
    {
        proof {
            assert(views.take(i + 1).drop_last() =~= views.take(i as int));
            assert(views.take(i + 1).last() == inputs[i as int]@);
        }
        let ghost before = args@;
        match &inputs[i] {
            FnArg::Typed { pat, ty } => match pat {
                Pat::Ident { ident } => {
                    let arg = MethodArgument::new(ident.as_str(), ty);
                    args.push(arg);
                    assert(args@.map_values(|a: MethodArgument| a@) =~= before.map_values(
                        |a: MethodArgument| a@,
                    ).push(arg@));
                },
                Pat::Other => {},
            },
            FnArg::Receiver => {},
        }
        i += 1;
    }
    proof {
        assert(views.take(i as int) =~= views);
    }
    args
}

/// Adds the functions of one foreign block to `globals`.
fn push_block_fns(globals: &mut Vec<MethodDeclaration>, block: &Vec<ForeignItem>)
    ensures
        final(globals)@.map_values(|m: MethodDeclaration| m@) == old(globals)@.map_values(
            |m: MethodDeclaration| m@,
        ) + block_fns(block@.map_values(|i: ForeignItem| i@)),
{
    let ghost start = globals@.map_values(|m: MethodDeclaration| m@);
    let ghost views = block@.map_values(|i: ForeignItem| i@);
    let mut i: usize = 0;
    assert(start + block_fns(views.take(0)) =~= start);
    while i < block.len()
        invariant
            i <= block.len(),
            views == block@.map_values(|i: ForeignItem| i@),
            globals@.map_values(|m: MethodDeclaration| m@) == start + block_fns(
                views.take(i as int),
            ),
        decreases block.len() - i,
    {
        proof {
            assert(views.take(i + 1).drop_last() =~= views.take(i as int));
            assert(views.take(i + 1).last() == block[i as int]@);
        }
        let ghost before = globals@;
        match &block[i] {
            ForeignItem::Fn { ident, inputs, output } => {
                let (name, original_name) = make_global_fn_name(ident.as_str());
                let args = fn_arguments_of(inputs);
                let (output, original_output) = match output {
                    Some(ty) => output_pair(Some(ty)),
                    None => output_pair(None),
                };
                let method = MethodDeclaration {
                    name,
                    original_name,
                    args,
                    output,
                    original_output,
                };
                globals.push(method);
                assert(globals@.map_values(|m: MethodDeclaration| m@) =~= before.map_values(
                    |m: MethodDeclaration| m@,
                ).push(method@));
                assert(start + block_fns(views.take(i as int)).push(method@) =~= (start
                    + block_fns(views.take(i as int))).push(method@));
            },
            ForeignItem::Other => {},
        }
        i += 1;
    }
    proof {
        assert(views.take(i as int) =~= views);
    }
}

impl ParseTree {
    /// The invariant of a tree: that of its two tables.
    pub open spec fn wf(&self) -> bool {
        self.type_aliases.wf() && self.base_types.wf()
    }

    /// A tree without declarations.
    pub fn empty() -> (r: ParseTree)
        ensures
            r.wf(),
            holds_items(r@, Seq::empty()),
    {
        let r = ParseTree {
            type_aliases: NameTable::new(),
            enums: Vec::new(),
            structs: Vec::new(),
            base_types: BaseTypes::empty(),
            globals: Vec::new(),
        };
        proof {
            r.type_aliases.lemma_entries();
            assert(r@.enums =~= Seq::empty());
            assert(r@.structs =~= Seq::empty());
            assert(r@.globals =~= Seq::empty());
        }
        r
    }

    /// Gathers the declarations of `file`.
    ///
    /// Four kinds of items count: type aliases; structs with named fields;
    /// enums, and with them the structs with exactly one unnamed field; and the
    /// functions of unsafe foreign blocks of the C calling convention. All other
    /// items are passed over. No file is refused.
    pub fn try_from(file: &SourceFile) -> (r: Result<ParseTree, Unrecognized>)
        ensures
            r matches Ok(tree) && tree.wf() && holds_items(tree@, file@.items),
    {
        let items = &file.items;
        let ghost views = file@.items;
        let mut tree = ParseTree::empty();
        proof {
            tree.type_aliases.lemma_entries();
        }
        let mut i: usize = 0;
        while i < items.len()
            invariant
                i <= items.len(),
                *items == file.items,
                views == file@.items,
                tree.wf(),
                tree.type_aliases@ == alias_map(views.take(i as int)),
                tree@.enums == enum_names(views.take(i as int)),
                tree@.structs == struct_decls(views.take(i as int)),
                tree@.globals == global_fns(views.take(i as int)),
            decreases items.len() - i,
        {
            proof {
                assert(views.take(i + 1).drop_last() =~= views.take(i as int));
                assert(views.take(i + 1).last() == items[i as int]@);
            }
            let ghost before = tree;
            match &items[i] {
                Item::Type { ident, ty } => {
                    tree.type_aliases.insert(ident.clone(), type_to_string(ty));
                },
                Item::Struct { ident, fields } => match fields {
                    Fields::Named(named) => {
                        let declared = StructDeclaration::from_fields(ident.as_str(), named);
                        tree.structs.push(declared);
                        assert(tree@.structs =~= before@.structs.push(declared@));
                    },
                    Fields::Unnamed { len } => if *len == 1 {
                        tree.enums.push(ident.clone());
                        assert(tree@.enums =~= before@.enums.push(ident@));
                    },
                    Fields::Unit => {},
                },
                Item::Enum { ident } => {
                    tree.enums.push(ident.clone());
                    assert(tree@.enums =~= before@.enums.push(ident@));
                },
                Item::ForeignMod { unsafety, abi, items: block } => {
                    if *unsafety && abi_names_c(abi) {
                        push_block_fns(&mut tree.globals, block);
                    }
                },
                Item::Other => {},
            }
            i += 1;
        }
        proof {
            assert(views.take(i as int) =~= views);
            tree.type_aliases.lemma_entries();
        }
        tree.base_types = BaseTypes::new(&tree.structs);
        Ok(tree)
    }
}

} // verus!
