//! Writing the generated text: the type aliases, a wrapper for each struct and
//! each enum, and a wrapper for each global function, in that order.
//!
//! A struct is written in one of three ways. Where its root is the marker type
//! of reference counting and it is not that type itself, it becomes a wrapper
//! with a trait for its methods and a trampoline for each slot. Where it has
//! method slots after all, or no field, or only the placeholder field, it
//! becomes an opaque wrapper around the foreign struct. Where it has data
//! fields only, it becomes a struct with the same fields. A struct without a
//! host name is left out.
//!
//! An enum, and with it a struct of one unnamed field, is written in a fourth
//! way: as a wrapper around the foreign value that can be copied, compared and
//! hashed.

use crate::bases::{lemma_root_of_unlinked, root_of, settles, settles_within, BASE_FIELD};
use crate::blocks::{
    alias_line_text, doc_line, doc_line_text, fields_close, fields_close_text, fields_open_from,
    fields_open_from_text, fields_open_into, fields_open_into_text, global_wrapper,
    global_wrapper_text, impl_as_mut, impl_as_mut_text, impl_as_ref, impl_as_ref_text, impl_default,
    impl_default_text, impl_from, impl_from_text, impl_into, impl_into_text, init_line_text,
    into_raw_close_text, into_raw_open_text, slots_close_text, struct_open, struct_open_text,
    trait_open_text, tuple_struct, tuple_struct_text, wrapper_open_text, STRUCT_PAD, STRUCT_TAIL,
    VALUE_PAD, VALUE_TAIL,
};
use crate::decl::{
    arguments_text, join_arguments, ArgumentForm, MethodDeclaration, MethodDeclarationView,
    StructDeclaration, StructDeclarationView,
};
use crate::methods::{
    back, back_text, field_from_lines, field_into_lines, fields_from, fields_into, member_lines,
    members, slot_lines, trait_method_lines, trampoline_lines, wrapper_method_lines,
};
use crate::names::{mapped_type_name, resolved_type_name};
use crate::text::{concat, lemma_concat_front, repeat_joined, str_eq};
use crate::tree::ParseTreeView;
use vstd::prelude::*;
use vstd::string::*;

verus! {

/// The host name of the marker type of reference counting.
pub const MARKER: &'static str = "BaseRefCounted";

/// The name of the field that stands for "no field".
pub const PLACEHOLDER: &'static str = "_unused";

/// The traits that the wrapper of an enum derives.
pub const ENUM_DERIVE: &'static str = "#[derive(Debug, Copy, Clone, Hash, PartialEq, Eq)]\n";

/// A closing brace on a line of its own.
pub const BRACE_LINE: &'static str = "}\n";

/// The heading of the type aliases.
pub const ALIASES_HEAD: &'static str = "\n// Type aliases\n";

/// The heading of the wrappers of structs.
pub const STRUCTS_HEAD: &'static str = "\n// Struct wrappers\n";

/// The heading of the wrappers of enums.
pub const ENUMS_HEAD: &'static str = "\n// Enum aliases\n";

/// The heading of the wrappers of global functions.
pub const GLOBALS_HEAD: &'static str = "\n// Global function wrappers\n";

/// The ways in which a struct is written.
#[derive(Debug, Clone, Copy, PartialEq, Eq, Structural)]
pub enum Strategy {
    /// As a reference-counted wrapper with a trait and trampolines.
    RefCounted,
    /// As an opaque wrapper around the foreign struct.
    Opaque,
    /// As a struct with the same fields.
    Aggregate,
}

/// Whether the struct with the host name `host` and the root `root` is
/// reference counted: its root is the marker type, and it is not that type itself.
pub open spec fn is_ref_counted(host: Seq<char>, root: Seq<char>) -> bool {
    root == MARKER@ && root != host
}

impl StructDeclarationView {
    /// Whether the struct has the placeholder for its only data field.
    pub open spec fn is_placeholder(self) -> bool {
        self.fields.len() == 1 && self.fields[0].name == PLACEHOLDER@
    }

    /// Whether the struct shows no data of its own: it has method slots, or no
    /// field, or only the placeholder.
    pub open spec fn is_opaque(self) -> bool {
        self.methods.len() > 0 || self.fields.len() == 0 || self.is_placeholder()
    }

    /// The way in which the struct is written, under the host name `host` and
    /// with `root` the root of that name. The three ways are tried in order,
    /// and the last takes whatever the first two leave.
    pub open spec fn strategy(self, host: Seq<char>, root: Seq<char>) -> Strategy {
        if is_ref_counted(host, root) {
            Strategy::RefCounted
        } else if self.is_opaque() {
            Strategy::Opaque
        } else {
            Strategy::Aggregate
        }
    }
}

/// Every struct is written in exactly one way: the way that `strategy` names
/// is the only one whose condition holds once the ways before it are ruled out.
pub proof fn lemma_one_strategy(declared: StructDeclarationView, host: Seq<char>, root: Seq<char>)
    ensures
        declared.strategy(host, root) == Strategy::RefCounted <==> is_ref_counted(host, root),
        declared.strategy(host, root) == Strategy::Opaque <==> !is_ref_counted(host, root)
            && declared.is_opaque(),
        declared.strategy(host, root) == Strategy::Aggregate <==> !is_ref_counted(host, root)
            && !declared.is_opaque(),
        declared.strategy(host, root) == Strategy::Aggregate ==> declared.methods.len() == 0
            && declared.fields.len() > 0,
{
}

/// A reference-counted struct extends something: its trait always has a bound.
pub proof fn lemma_ref_counted_is_linked(links: Map<Seq<char>, Seq<char>>, host: Seq<char>)
    requires
        is_ref_counted(host, root_of(links, host)),
    ensures
        links.contains_key(host),
{
    if !links.contains_key(host) {
        lemma_root_of_unlinked(links, host);
    }
}

/// The bound on the implementor of the trait of a struct that extends `base`:
/// the trait of `base`, or just `Sized` where `base` is the root.
pub open spec fn bound_text(base: Option<Seq<char>>, root: Seq<char>) -> Seq<char> {
    match base {
        Some(name) => if name == root {
            ": Sized"@
        } else {
            ": Impl"@ + name
        },
        None => Seq::empty(),
    }
}

/// The opaque wrapper `host` around the foreign struct `name`.
pub open spec fn opaque_text(name: Seq<char>, host: Seq<char>) -> Seq<char> {
    doc_line_text(STRUCT_PAD@, name) + tuple_struct_text(STRUCT_PAD@, name, host) + impl_from_text(
        STRUCT_PAD@,
        name,
        host,
    ) + impl_into_text(STRUCT_PAD@, name, host) + impl_as_ref_text(STRUCT_PAD@, name, host)
        + impl_as_mut_text(STRUCT_PAD@, name, host) + impl_default_text(STRUCT_PAD@, host)
        + STRUCT_TAIL@
}

/// The wrapper `host` around the foreign enum `name`: a value that can be
/// copied, compared and hashed.
pub open spec fn value_text(name: Seq<char>, host: Seq<char>) -> Seq<char> {
    doc_line_text(VALUE_PAD@, name) + VALUE_PAD@ + ENUM_DERIVE@ + tuple_struct_text(
        VALUE_PAD@,
        name,
        host,
    ) + impl_as_ref_text(VALUE_PAD@, name, host) + impl_as_mut_text(VALUE_PAD@, name, host)
        + impl_from_text(VALUE_PAD@, name, host) + impl_into_text(VALUE_PAD@, name, host)
        + impl_default_text(VALUE_PAD@, host) + VALUE_TAIL@
}

/// The struct `host` with the fields of `declared`, and its conversions field
/// by field, each list in the order of the declaration.
pub open spec fn aggregate_text(declared: StructDeclarationView, host: Seq<char>) -> Seq<char> {
    doc_line_text(Seq::empty(), declared.name) + struct_open_text(host) + concat(
        member_lines(declared.fields),
    ) + BRACE_LINE@ + fields_open_from_text(STRUCT_PAD@, declared.name, host) + concat(
        field_from_lines(declared.fields),
    ) + fields_close_text(STRUCT_PAD@) + fields_open_into_text(STRUCT_PAD@, declared.name, host)
        + concat(field_into_lines(declared.fields)) + fields_close_text(STRUCT_PAD@)
        + impl_default_text(STRUCT_PAD@, host) + STRUCT_TAIL@
}

/// The wrapper of a global function: its host signature around a call of the
/// foreign function with every argument handed on.
pub open spec fn global_text(function: MethodDeclarationView) -> Seq<char> {
    global_wrapper_text(
        VALUE_PAD@,
        VALUE_TAIL@,
        function.signature(),
        match function.original_name {
            Some(name) => name,
            None => function.name,
        },
        arguments_text(function.args, 0, ArgumentForm::Forwarded),
        back_text(function.output),
    )
}

/// The declaration of one alias, or nothing where the alias and its type have
/// one host name.
pub open spec fn alias_text(entry: (Seq<char>, Seq<char>)) -> Seq<char> {
    let name = resolved_type_name(entry.0);
    let ty = resolved_type_name(entry.1);
    if name != ty {
        alias_line_text(name, ty)
    } else {
        Seq::empty()
    }
}

/// The wrapper of the enum `name`, or nothing where `name` has no host name.
pub open spec fn enum_text(name: Seq<char>) -> Seq<char> {
    match mapped_type_name(name) {
        Some(host) => value_text(name, host),
        None => Seq::empty(),
    }
}

impl ParseTreeView {
    /// What `name` extends, where it extends anything.
    pub open spec fn base(self, name: Seq<char>) -> Option<Seq<char>> {
        if self.base_types.contains_key(name) {
            Some(self.base_types[name])
        } else {
            None
        }
    }

    /// Whether the struct at `i` is the first with the host name `host`.
    pub open spec fn is_first_named(self, host: Seq<char>, i: int) -> bool {
        &&& 0 <= i < self.structs.len()
        &&& self.structs[i].rust_name == Some(host)
        &&& forall|j: int| 0 <= j < i ==> (#[trigger] self.structs[j]).rust_name != Some(host)
    }

    /// The place of the first struct with the host name `host`.
    pub open spec fn find_struct(self, host: Seq<char>) -> Option<int> {
        if exists|i: int| self.is_first_named(host, i) {
            Some(choose|i: int| self.is_first_named(host, i))
        } else {
            None
        }
    }

    /// The places of the structs that `name` extends, the nearest first: the
    /// chain of links from `name` is followed for at most `hops` links, and
    /// ends before the root and before a name that no struct has.
    pub open spec fn ancestors(self, name: Seq<char>, root: Seq<char>, hops: nat) -> Seq<int>
        decreases hops,
    {
        if hops == 0 || !self.base_types.contains_key(name) {
            Seq::empty()
        } else {
            let parent = self.base_types[name];
            if parent == root {
                Seq::empty()
            } else {
                match self.find_struct(parent) {
                    Some(i) => seq![i] + self.ancestors(parent, root, (hops - 1) as nat),
                    None => Seq::empty(),
                }
            }
        }
    }

    /// The places of the structs that the struct with the host name `host`
    /// extends, the nearest first.
    pub open spec fn lineage(self, host: Seq<char>) -> Seq<int> {
        self.ancestors(
            host,
            root_of(self.base_types, host),
            choose|hops: nat| settles_within(self.base_types, host, hops),
        )
    }

    /// The calls that fill the slots of `ancestors`, the most distant first.
    /// The record of the ancestor at place `k` of the list lies `k + 1` steps
    /// of the field `base` inside the object.
    pub open spec fn init_lines(self, ancestors: Seq<int>) -> Seq<char>
        decreases ancestors.len(),
    {
        if ancestors.len() == 0 {
            Seq::empty()
        } else {
            init_line_text(
                self.structs[ancestors.last()].name,
                repeat_joined(BASE_FIELD@, "."@, ancestors.len()),
            ) + self.init_lines(ancestors.drop_last())
        }
    }

    /// The reference-counted wrapper `host` of `declared`, whose root is `root`.
    ///
    /// In the function that makes the raw object, the slots of the ancestors
    /// are filled first, from the most distant to the nearest, and the slots of
    /// the struct itself last.
    pub open spec fn ref_counted_text(
        self,
        declared: StructDeclarationView,
        host: Seq<char>,
        root: Seq<char>,
    ) -> Seq<char> {
        wrapper_open_text(STRUCT_PAD@, declared.name, host) + STRUCT_TAIL@ + concat(
            wrapper_method_lines(declared.methods),
        ) + trait_open_text(STRUCT_PAD@, host, bound_text(self.base(host), root)) + STRUCT_TAIL@
            + concat(trait_method_lines(declared.methods)) + into_raw_open_text(
            STRUCT_PAD@,
            declared.name,
        ) + self.init_lines(self.lineage(host)) + into_raw_close_text(
            STRUCT_PAD@,
            declared.name,
            host,
        ) + concat(slot_lines(declared.methods)) + slots_close_text(STRUCT_PAD@, STRUCT_TAIL@)
            + concat(trampoline_lines(declared.methods, host)) + BRACE_LINE@
    }

    /// The wrapper of the struct at `i`, or nothing where it has no host name.
    pub open spec fn struct_text(self, i: int) -> Seq<char> {
        let declared = self.structs[i];
        match declared.rust_name {
            Some(host) => {
                let root = root_of(self.base_types, host);
                match declared.strategy(host, root) {
                    Strategy::RefCounted => self.ref_counted_text(declared, host, root),
                    Strategy::Opaque => opaque_text(declared.name, host),
                    Strategy::Aggregate => aggregate_text(declared, host),
                }
            },
            None => Seq::empty(),
        }
    }

    /// The wrappers of the structs, one text for each struct.
    pub open spec fn struct_texts(self) -> Seq<Seq<char>> {
        Seq::new(self.structs.len(), |i: int| self.struct_text(i))
    }

    /// Whether the links lead to a root from every struct that has a host name.
    pub open spec fn bases_settle(self) -> bool {
        forall|i: int|
            0 <= i < self.structs.len() ==> match (#[trigger] self.structs[i]).rust_name {
                Some(host) => settles(self.base_types, host),
                None => true,
            }
    }

    /// The line that ends the prelude `header`.
    pub open spec fn prelude_text(self, header: Seq<char>) -> Seq<char> {
        header + "\n"@
    }

    /// The type aliases under their heading, in the order of their foreign names.
    pub open spec fn aliases_text(self) -> Seq<char> {
        ALIASES_HEAD@ + concat(
            self.type_aliases.map_values(|entry: (Seq<char>, Seq<char>)| alias_text(entry)),
        )
    }

    /// The wrappers of the structs under their heading, in declaration order.
    pub open spec fn structs_text(self) -> Seq<char> {
        STRUCTS_HEAD@ + concat(self.struct_texts())
    }

    /// The wrappers of the enums under their heading, in declaration order.
    pub open spec fn enums_text(self) -> Seq<char> {
        ENUMS_HEAD@ + concat(self.enums.map_values(|name: Seq<char>| enum_text(name)))
    }

    /// The wrappers of the global functions under their heading, in declaration order.
    pub open spec fn globals_text(self) -> Seq<char> {
        GLOBALS_HEAD@ + concat(
            self.globals.map_values(|function: MethodDeclarationView| global_text(function)),
        )
    }

    /// The whole generated text after the prelude `header`: aliases, structs,
    /// enums and global functions, in this order.
    pub open spec fn text(self, header: Seq<char>) -> Seq<char> {
        self.prelude_text(header) + self.aliases_text() + self.structs_text() + self.enums_text()
            + self.globals_text()
    }
}

/// The name reached from `name` after `steps` links.
pub open spec fn ancestor_name(
    links: Map<Seq<char>, Seq<char>>,
    name: Seq<char>,
    steps: nat,
) -> Seq<char>
    decreases steps,
{
    if steps == 0 {
        name
    } else {
        links[ancestor_name(links, name, (steps - 1) as nat)]
    }
}

/// The call that fills the slots of the ancestor at place `k` of `ancestors`:
/// its record lies `k + 1` steps of the field `base` inside the object.
pub open spec fn ancestor_init_text(tree: ParseTreeView, ancestors: Seq<int>, k: int) -> Seq<char> {
    init_line_text(
        tree.structs[ancestors[k]].name,
        repeat_joined(BASE_FIELD@, "."@, (k + 1) as nat),
    )
}

/// The ancestors do not depend on the number of links allowed, as long as
/// the links end within it.
pub proof fn lemma_ancestors_agree(
    tree: ParseTreeView,
    name: Seq<char>,
    root: Seq<char>,
    a: nat,
    b: nat,
)
    requires
        settles_within(tree.base_types, name, a),
        settles_within(tree.base_types, name, b),
    ensures
        tree.ancestors(name, root, a) == tree.ancestors(name, root, b),
    decreases a,
{
    if tree.base_types.contains_key(name) {
        lemma_ancestors_agree(tree, tree.base_types[name], root, (a - 1) as nat, (b - 1) as nat);
    }
}

/// The ancestor at place `k` of the list is a struct of the tree, and it is
/// named by what is reached from `name` after `k + 1` links: the list follows
/// the links one by one, and never holds the root.
pub proof fn lemma_ancestors_follow_links(
    tree: ParseTreeView,
    name: Seq<char>,
    root: Seq<char>,
    hops: nat,
    k: int,
)
    requires
        0 <= k < tree.ancestors(name, root, hops).len(),
    ensures
        0 <= tree.ancestors(name, root, hops)[k] < tree.structs.len(),
        tree.structs[tree.ancestors(name, root, hops)[k]].rust_name == Some(
            ancestor_name(tree.base_types, name, (k + 1) as nat),
        ),
        ancestor_name(tree.base_types, name, (k + 1) as nat) != root,
    decreases hops,
{
    let parent = tree.base_types[name];
    let i = tree.find_struct(parent)->0;
    let rest = tree.ancestors(parent, root, (hops - 1) as nat);
    assert(tree.ancestors(name, root, hops) == seq![i] + rest);
    assert(tree.is_first_named(parent, i));
    lemma_ancestor_name_shift(tree.base_types, name, k as nat);
    if k > 0 {
        lemma_ancestors_follow_links(tree, parent, root, (hops - 1) as nat, k - 1);
        assert((seq![i] + rest)[k] == rest[k - 1]);
    } else {
        assert(ancestor_name(tree.base_types, parent, 0) == parent);
    }
}

/// What is reached after one link and then `steps` more is what is reached
/// after `steps + 1` links.
pub proof fn lemma_ancestor_name_shift(
    links: Map<Seq<char>, Seq<char>>,
    name: Seq<char>,
    steps: nat,
)
    ensures
        ancestor_name(links, links[name], steps) == ancestor_name(links, name, steps + 1),
    decreases steps,
{
    reveal_with_fuel(ancestor_name, 2);
    if steps > 0 {
        lemma_ancestor_name_shift(links, name, (steps - 1) as nat);
    }
}

/// The calls that fill the slots of the ancestors come one after the other
/// from the most distant ancestor to the nearest, each with as many steps of
/// the field `base` as its place in the list says.
pub proof fn lemma_init_lines_order(tree: ParseTreeView, ancestors: Seq<int>)
    ensures
        tree.init_lines(ancestors) == concat(
            Seq::new(
                ancestors.len(),
                |j: int| ancestor_init_text(tree, ancestors, ancestors.len() - 1 - j),
            ),
        ),
    decreases ancestors.len(),
{
    let n = ancestors.len() as int;
    let lines = Seq::new(ancestors.len(), |j: int| ancestor_init_text(tree, ancestors, n - 1 - j));
    if n > 0 {
        let shorter = ancestors.drop_last();
        let rest = Seq::new(
            shorter.len(),
            |j: int| ancestor_init_text(tree, shorter, shorter.len() - 1 - j),
        );
        lemma_init_lines_order(tree, shorter);
        assert(lines =~= seq![lines[0]] + rest);
        lemma_concat_front(lines[0], rest);
    }
}

/// The bound on the implementor of the trait of a struct that extends `base`.
pub fn bound(base: Option<&str>, root: &str) -> (r: String)
    ensures
        r@ == bound_text(
            match base {
                Some(name) => Some(name@),
                None => None,
            },
            root@,
        ),
{
    match base {
        Some(name) => {
            if str_eq(name, root) {
                String::from_str(": Sized")
            } else {
                let mut out = String::from_str(": Impl");
                out.append(name);
                out
            }
        },
        None => String::new(),
    }
}

/// The opaque wrapper `host` around the foreign struct `name`.
pub fn opaque_wrapper(name: &str, host: &str) -> (r: String)
    ensures
        r@ == opaque_text(name@, host@),
{
    let mut out = doc_line(STRUCT_PAD, name);
    out.append(tuple_struct(STRUCT_PAD, name, host).as_str());
    out.append(impl_from(STRUCT_PAD, name, host).as_str());
    out.append(impl_into(STRUCT_PAD, name, host).as_str());
    out.append(impl_as_ref(STRUCT_PAD, name, host).as_str());
    out.append(impl_as_mut(STRUCT_PAD, name, host).as_str());
    out.append(impl_default(STRUCT_PAD, host).as_str());
    out.append(STRUCT_TAIL);
    out
}

/// The wrapper `host` around the foreign enum `name`.
pub fn value_wrapper(name: &str, host: &str) -> (r: String)
    ensures
        r@ == value_text(name@, host@),
{
    let mut out = doc_line(VALUE_PAD, name);
    out.append(VALUE_PAD);
    out.append(ENUM_DERIVE);
    out.append(tuple_struct(VALUE_PAD, name, host).as_str());
    out.append(impl_as_ref(VALUE_PAD, name, host).as_str());
    out.append(impl_as_mut(VALUE_PAD, name, host).as_str());
    out.append(impl_from(VALUE_PAD, name, host).as_str());
    out.append(impl_into(VALUE_PAD, name, host).as_str());
    out.append(impl_default(VALUE_PAD, host).as_str());
    out.append(VALUE_TAIL);
    out
}

/// The struct `host` with the fields of `declared`, and its conversions.
pub fn aggregate_wrapper(declared: &StructDeclaration, host: &str) -> (r: String)
    ensures
        r@ == aggregate_text(declared@, host@),
{
    let name = declared.name.as_str();
    let mut out = doc_line("", name);
    proof {
        reveal_strlit("");
        assert(""@ =~= Seq::<char>::empty());
    }
    out.append(struct_open(host).as_str());
    out.append(members(&declared.fields).as_str());
    out.append(BRACE_LINE);
    out.append(fields_open_from(STRUCT_PAD, name, host).as_str());
    out.append(fields_from(&declared.fields).as_str());
    out.append(fields_close(STRUCT_PAD).as_str());
    out.append(fields_open_into(STRUCT_PAD, name, host).as_str());
    out.append(fields_into(&declared.fields).as_str());
    out.append(fields_close(STRUCT_PAD).as_str());
    out.append(impl_default(STRUCT_PAD, host).as_str());
    out.append(STRUCT_TAIL);
    out
}

/// The wrapper of a global function.
pub fn global_function(function: &MethodDeclaration) -> (r: String)
    ensures
        r@ == global_text(function@),
{
    let target = match &function.original_name {
        Some(name) => name.as_str(),
        None => function.name.as_str(),
    };
    global_wrapper(
        VALUE_PAD,
        VALUE_TAIL,
        function.to_string().as_str(),
        target,
        join_arguments(&function.args, 0, ArgumentForm::Forwarded).as_str(),
        back(&function.output).as_str(),
    )
}

} // verus!
