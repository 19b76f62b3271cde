//! The functions that write the text of a [`ParseTree`].

use crate::bases::{root_of, settles, settles_within, BASE_FIELD};
use crate::blocks::{
    alias_line, init_line, into_raw_close, into_raw_open, slots_close, trait_open, wrapper_open,
    STRUCT_PAD, STRUCT_TAIL,
};
use crate::decl::{MethodDeclarationView, StructDeclaration};
use crate::emit::{
    aggregate_wrapper, alias_text, bound, enum_text, global_function, global_text, opaque_wrapper,
    value_wrapper, Strategy, ALIASES_HEAD, BRACE_LINE, ENUMS_HEAD, GLOBALS_HEAD, MARKER,
    PLACEHOLDER, STRUCTS_HEAD,
};
use crate::methods::{slots, trait_methods, trampolines, wrapper_methods};
use crate::names::{make_rust_type_name, resolve_type_name};
use crate::text::{concat, lemma_concat_take, repeat_join, str_eq};
use crate::tree::ParseTree;
use vstd::prelude::*;
use vstd::string::*;

verus! {

impl ParseTree {
    /// The place of the first struct with the host name `host`.
    pub fn find_struct(&self, host: &str) -> (r: Option<usize>)
        ensures
            match r {
                Some(i) => self@.is_first_named(host@, i as int),
                None => forall|i: int| !self@.is_first_named(host@, i),
            },
            r matches Some(i) ==> self@.find_struct(host@) == Some(i as int),
            r is None ==> self@.find_struct(host@) is None,
    {
        let mut i: usize = 0;
        while i < self.structs.len()
            invariant
                i <= self.structs.len(),
                forall|j: int|
                    0 <= j < i ==> (#[trigger] self@.structs[j]).rust_name != Some(host@),
            decreases self.structs.len() - i,
        {
            let found = match &self.structs[i].rust_name {
                Some(name) => str_eq(name.as_str(), host),
                None => false,
            };
            if found {
                proof {
                    assert(self@.is_first_named(host@, i as int));
                    let chosen = choose|k: int| self@.is_first_named(host@, k);
                    assert(self@.structs[chosen].rust_name == Some(host@));
                    assert(self@.structs[i as int].rust_name == Some(host@));
                }
                return Some(i);
            }
            i += 1;
        }
        proof {
            assert forall|k: int| !self@.is_first_named(host@, k) by {
                if self@.is_first_named(host@, k) {
                    assert(self@.structs[k].rust_name == Some(host@));
                }
            }
        }
        None
    }

    /// The places of the structs that the struct with the host name `host`
    /// extends, the nearest first; `root` is the root of `host`.
    pub fn lineage(&self, host: &str, root: &str) -> (r: Vec<usize>)
        requires
            self.wf(),
            settles(self@.base_types, host@),
            root@ == root_of(self@.base_types, host@),
        ensures
            r@.map_values(|i: usize| i as int) == self@.lineage(host@),
            forall|k: int| 0 <= k < r@.len() ==> #[trigger] r@[k] < self.structs.len(),
    {
        let ghost tree = self@;
        let ghost mut hops = choose|hops: nat| settles_within(tree.base_types, host@, hops);
        let mut found: Vec<usize> = Vec::new();
        let mut current: &str = host;
        assert(found@.map_values(|i: usize| i as int) + tree.ancestors(host@, root@, hops)
            =~= tree.lineage(host@));
        loop
            invariant
                self.wf(),
                tree == self@,
                settles_within(tree.base_types, current@, hops),
                found@.map_values(|i: usize| i as int) + tree.ancestors(current@, root@, hops)
                    == tree.lineage(host@),
                forall|k: int| 0 <= k < found@.len() ==> #[trigger] found@[k] < self.structs.len(),
            ensures
                found@.map_values(|i: usize| i as int) == tree.lineage(host@),
                forall|k: int| 0 <= k < found@.len() ==> #[trigger] found@[k] < self.structs.len(),
            decreases hops,
        {
            let ghost before = found@.map_values(|i: usize| i as int);
            let parent = match self.base_types.base(current) {
                Some(parent) => parent,
                None => {
                    assert(before + Seq::<int>::empty() =~= before);
                    break ;
                },
            };
            if str_eq(parent, root) {
                assert(before + Seq::<int>::empty() =~= before);
                break ;
            }
            match self.find_struct(parent) {
                Some(i) => {
                    found.push(i);
                    proof {
                        assert(found@.map_values(|i: usize| i as int) =~= before.push(i as int));
                        assert(before.push(i as int) + tree.ancestors(
                            parent@,
                            root@,
                            (hops - 1) as nat,
                        ) =~= before + (seq![i as int] + tree.ancestors(
                            parent@,
                            root@,
                            (hops - 1) as nat,
                        )));
                        hops = (hops - 1) as nat;
                    }
                    current = parent;
                },
                None => {
                    assert(before + Seq::<int>::empty() =~= before);
                    break ;
                },
            }
        }
        found
    }

    /// The calls that fill the slots of `ancestors`, the most distant first.
    pub fn init_lines(&self, ancestors: &Vec<usize>) -> (r: String)
        requires
            forall|k: int|
                0 <= k < ancestors@.len() ==> #[trigger] ancestors@[k] < self.structs.len(),
        ensures
            r@ == self@.init_lines(ancestors@.map_values(|i: usize| i as int)),
    {
        let ghost places = ancestors@.map_values(|i: usize| i as int);
        let mut out = String::new();
        let mut k: usize = ancestors.len();
        assert(places.take(k as int) =~= places);
        assert(out@ + self@.init_lines(places) =~= self@.init_lines(places));
        while k > 0
            invariant
                k <= ancestors.len(),
                places == ancestors@.map_values(|i: usize| i as int),
                forall|j: int|
                    0 <= j < ancestors@.len() ==> #[trigger] ancestors@[j] < self.structs.len(),
                out@ + self@.init_lines(places.take(k as int)) == self@.init_lines(places),
            decreases k,
        {
            let ghost before = out@;
            let declared = &self.structs[ancestors[k - 1]];
            let path = repeat_join(BASE_FIELD, ".", k);
            let line = init_line(declared.name.as_str(), path.as_str());
            out.append(line.as_str());
            proof {
                assert(places.take(k as int).drop_last() =~= places.take(k - 1));
                assert(places.take(k as int).last() == ancestors@[k - 1] as int);
                assert(out@ + self@.init_lines(places.take(k - 1)) =~= before + (line@
                    + self@.init_lines(places.take(k - 1))));
            }
            k -= 1;
        }
        proof {
            assert(places.take(0).len() == 0);
            assert(out@ + Seq::<char>::empty() =~= out@);
        }
        out
    }

    /// The reference-counted wrapper `host` of `declared`, whose root is `root`.
    pub fn ref_counted_wrapper(&self, declared: &StructDeclaration, host: &str, root: &str) -> (r:
        String)
        requires
            self.wf(),
            settles(self@.base_types, host@),
            root@ == root_of(self@.base_types, host@),
        ensures
            r@ == self@.ref_counted_text(declared@, host@, root@),
    {
        let name = declared.name.as_str();
        let mut out = wrapper_open(STRUCT_PAD, name, host);
        out.append(STRUCT_TAIL);
        out.append(wrapper_methods(&declared.methods).as_str());
        let bound = bound(self.base_types.base(host), root);
        out.append(trait_open(STRUCT_PAD, host, bound.as_str()).as_str());
        out.append(STRUCT_TAIL);
        out.append(trait_methods(&declared.methods).as_str());
        out.append(into_raw_open(STRUCT_PAD, name).as_str());
        let ancestors = self.lineage(host, root);
        out.append(self.init_lines(&ancestors).as_str());
        out.append(into_raw_close(STRUCT_PAD, name, host).as_str());
        out.append(slots(&declared.methods).as_str());
        out.append(slots_close(STRUCT_PAD, STRUCT_TAIL).as_str());
        out.append(trampolines(&declared.methods, host).as_str());
        out.append(BRACE_LINE);
        out
    }

    /// The way in which the struct at `i` is written: `None` where it has no
    /// host name and is left out.
    pub fn strategy(&self, i: usize) -> (r: Option<Strategy>)
        requires
            self.wf(),
            i < self.structs.len(),
            self@.structs[i as int].rust_name matches Some(host) ==> settles(
                self@.base_types,
                host,
            ),
        ensures
            match self@.structs[i as int].rust_name {
                Some(host) => r == Some(
                    self@.structs[i as int].strategy(host, root_of(self@.base_types, host)),
                ),
                None => r is None,
            },
    {
        let declared = &self.structs[i];
        match &declared.rust_name {
            Some(host) => {
                let root = self.base_types.root(host.as_str());
                Some(strategy_of(declared, host.as_str(), root.as_str()))
            },
            None => None,
        }
    }

    /// Whether the links lead to a root from every struct that has a host name.
    pub fn bases_settle(&self) -> (r: bool)
        requires
            self.wf(),
        ensures
            r == self@.bases_settle(),
    {
        let mut i: usize = 0;
        while i < self.structs.len()
            invariant
                i <= self.structs.len(),
                self.wf(),
                forall|j: int|
                    0 <= j < i ==> match (#[trigger] self@.structs[j]).rust_name {
                        Some(host) => settles(self@.base_types, host),
                        None => true,
                    },
            decreases self.structs.len() - i,
        {
            proof {
                assert(self@.structs[i as int] == self.structs[i as int]@);
            }
            let settled = match &self.structs[i].rust_name {
                Some(host) => self.base_types.settles(host.as_str()),
                None => true,
            };
            if !settled {
                return false;
            }
            i += 1;
        }
        true
    }

    /// The wrapper of the struct at `i`, or nothing where it has no host name.
    pub fn struct_wrapper(&self, i: usize) -> (r: String)
        requires
            self.wf(),
            i < self.structs.len(),
            self@.structs[i as int].rust_name matches Some(host) ==> settles(
                self@.base_types,
                host,
            ),
        ensures
            r@ == self@.struct_text(i as int),
    {
        let declared = &self.structs[i];
        match &declared.rust_name {
            Some(host) => {
                let root = self.base_types.root(host.as_str());
                match strategy_of(declared, host.as_str(), root.as_str()) {
                    Strategy::RefCounted => self.ref_counted_wrapper(
                        declared,
                        host.as_str(),
                        root.as_str(),
                    ),
                    Strategy::Opaque => opaque_wrapper(declared.name.as_str(), host.as_str()),
                    Strategy::Aggregate => aggregate_wrapper(declared, host.as_str()),
                }
            },
            None => String::new(),
        }
    }

    /// Writes the prelude: `header` and the end of its line.
    pub fn write_prelude(&self, header: &str, out: &mut String)
        ensures
            final(out)@ == old(out)@ + self@.prelude_text(header@),
    {
        let mut text = String::from_str(header);
        text.append("\n");
        out.append(text.as_str());
    }

    /// Writes the type aliases under their heading, in the order of their
    /// foreign names. An alias whose host name is that of its type is left out.
    pub fn write_aliases(&self, out: &mut String)
        ensures
            final(out)@ == old(out)@ + self@.aliases_text(),
    {
        let ghost lines = self@.type_aliases.map_values(
            |entry: (Seq<char>, Seq<char>)| alias_text(entry),
        );
        let mut body = String::new();
        let count = self.type_aliases.len();
        let mut i: usize = 0;
        while i < count
            invariant
                i <= count,
                count == self@.type_aliases.len(),
                lines == self@.type_aliases.map_values(
                    |entry: (Seq<char>, Seq<char>)| alias_text(entry),
                ),
                body@ == concat(lines.take(i as int)),
            decreases count - i,
        {
            proof {
                lemma_concat_take(lines, i as int);
            }
            let entry = self.type_aliases.entry(i);
            let name = resolve_type_name(entry.key.as_str());
            let ty = resolve_type_name(entry.value.as_str());
            if !str_eq(name.as_str(), ty.as_str()) {
                body.append(alias_line(name.as_str(), ty.as_str()).as_str());
            } else {
                assert(body@ + Seq::<char>::empty() =~= body@);
            }
            i += 1;
        }
        proof {
            assert(lines.take(i as int) =~= lines);
        }
        let mut text = String::from_str(ALIASES_HEAD);
        text.append(body.as_str());
        out.append(text.as_str());
    }

    /// Writes the wrappers of the structs under their heading, in declaration
    /// order. A struct without a host name is left out. The links must lead to
    /// a root from every struct that has a host name.
    pub fn write_structs(&self, out: &mut String)
        requires
            self.wf(),
            self@.bases_settle(),
        ensures
            final(out)@ == old(out)@ + self@.structs_text(),
    {
        let ghost texts = self@.struct_texts();
        let mut body = String::new();
        let mut i: usize = 0;
        while i < self.structs.len()
            invariant
                i <= self.structs.len(),
                self.wf(),
                self@.bases_settle(),
                texts == self@.struct_texts(),
                body@ == concat(texts.take(i as int)),
            decreases self.structs.len() - i,
        {
            proof {
                lemma_concat_take(texts, i as int);
                assert(self@.structs[i as int] == self.structs[i as int]@);
            }
            body.append(self.struct_wrapper(i).as_str());
            i += 1;
        }
        proof {
            assert(texts.take(i as int) =~= texts);
        }
        let mut text = String::from_str(STRUCTS_HEAD);
        text.append(body.as_str());
        out.append(text.as_str());
    }

    /// Writes the wrappers of the enums under their heading, in declaration
    /// order. An enum without a host name is left out.
    pub fn write_enums(&self, out: &mut String)
        ensures
            final(out)@ == old(out)@ + self@.enums_text(),
    {
        let ghost lines = self@.enums.map_values(|name: Seq<char>| enum_text(name));
        let mut body = String::new();
        let mut i: usize = 0;
        while i < self.enums.len()
            invariant
                i <= self.enums.len(),
                lines == self@.enums.map_values(|name: Seq<char>| enum_text(name)),
                body@ == concat(lines.take(i as int)),
            decreases self.enums.len() - i,
        {
            proof {
                lemma_concat_take(lines, i as int);
            }
            let name = self.enums[i].as_str();
            match make_rust_type_name(name) {
                Some(host) => {
                    body.append(value_wrapper(name, host.as_str()).as_str());
                },
                None => {
                    assert(body@ + Seq::<char>::empty() =~= body@);
                },
            }
            i += 1;
        }
        proof {
            assert(lines.take(i as int) =~= lines);
        }
        let mut text = String::from_str(ENUMS_HEAD);
        text.append(body.as_str());
        out.append(text.as_str());
    }

    /// Writes the wrappers of the global functions under their heading, in
    /// declaration order.
    pub fn write_globals(&self, out: &mut String)
        ensures
            final(out)@ == old(out)@ + self@.globals_text(),
    {
        let ghost lines = self@.globals.map_values(
            |function: MethodDeclarationView| global_text(function),
        );
        let mut body = String::new();
        let mut i: usize = 0;
        while i < self.globals.len()
            invariant
                i <= self.globals.len(),
                lines == self@.globals.map_values(
                    |function: MethodDeclarationView| global_text(function),
                ),
                body@ == concat(lines.take(i as int)),
            decreases self.globals.len() - i,
        {
            proof {
                lemma_concat_take(lines, i as int);
            }
            body.append(global_function(&self.globals[i]).as_str());
            i += 1;
        }
        proof {
            assert(lines.take(i as int) =~= lines);
        }
        let mut text = String::from_str(GLOBALS_HEAD);
        text.append(body.as_str());
        out.append(text.as_str());
    }

    /// The whole generated text after the prelude `header`: aliases, structs,
    /// enums and global functions, in this order.
    pub fn to_string(&self, header: &str) -> (r: String)
        requires
            self.wf(),
            self@.bases_settle(),
        ensures
            r@ == self@.text(header@),
    {
        let mut out = String::new();
        self.write_prelude(header, &mut out);
        self.write_aliases(&mut out);
        self.write_structs(&mut out);
        self.write_enums(&mut out);
        self.write_globals(&mut out);
        assert(out@ =~= self@.text(header@));
        out
    }
}

/// The way in which `declared` is written, under the host name `host` and with
/// `root` the root of that name.
pub fn strategy_of(declared: &StructDeclaration, host: &str, root: &str) -> (r: Strategy)
    ensures
        r == declared@.strategy(host@, root@),
{
    if str_eq(root, MARKER) && !str_eq(root, host) {
        Strategy::RefCounted
    } else if declared.methods.len() > 0 || declared.fields.len() == 0 || (declared.fields.len()
        == 1 && str_eq(declared.fields[0].name.as_str(), PLACEHOLDER)) {
        Strategy::Opaque
    } else {
        Strategy::Aggregate
    }
}

} // verus!
