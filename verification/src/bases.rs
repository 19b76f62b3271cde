//! Which struct extends which: a struct whose one data field is named `base`
//! extends the type of that field. Following the links from a struct leads to
//! its root, the first type that extends nothing.

use crate::decl::{StructDeclaration, StructDeclarationView};
use crate::table::NameTable;
use crate::text::str_eq;
use vstd::prelude::*;

verus! {

/// The name of the field by which a struct extends another.
pub const BASE_FIELD: &'static str = "base";

/// Whether following `links` from `name` ends after at most `hops` links.
pub open spec fn settles_within(
    links: Map<Seq<char>, Seq<char>>,
    name: Seq<char>,
    hops: nat,
) -> bool
    decreases hops,
{
    !links.contains_key(name) || (hops > 0 && settles_within(links, links[name], (hops - 1) as nat))
}

/// Whether following `links` from `name` ends at all: it does unless the links
/// lead round in a circle.
pub open spec fn settles(links: Map<Seq<char>, Seq<char>>, name: Seq<char>) -> bool {
    exists|hops: nat| settles_within(links, name, hops)
}

/// Whether following `links` ends from every name.
pub open spec fn acyclic(links: Map<Seq<char>, Seq<char>>) -> bool {
    forall|name: Seq<char>| settles(links, name)
}

/// The name reached from `name` after `hops` links, or where the links end
/// before that.
pub open spec fn root_within(
    links: Map<Seq<char>, Seq<char>>,
    name: Seq<char>,
    hops: nat,
) -> Seq<char>
    decreases hops,
{
    if !links.contains_key(name) || hops == 0 {
        name
    } else {
        root_within(links, links[name], (hops - 1) as nat)
    }
}

/// The root of `name`: the name at which following `links` from `name` ends.
pub open spec fn root_of(links: Map<Seq<char>, Seq<char>>, name: Seq<char>) -> Seq<char> {
    root_within(links, name, choose|hops: nat| settles_within(links, name, hops))
}

/// Where the links end within `a` hops and within `b` hops, they end at one name.
pub proof fn lemma_root_within_agrees(
    links: Map<Seq<char>, Seq<char>>,
    name: Seq<char>,
    a: nat,
    b: nat,
)
    requires
        settles_within(links, name, a),
        settles_within(links, name, b),
    ensures
        root_within(links, name, a) == root_within(links, name, b),
    decreases a,
{
    if links.contains_key(name) {
        lemma_root_within_agrees(links, links[name], (a - 1) as nat, (b - 1) as nat);
    }
}

/// The root of a name is the name reached within any number of hops that suffices.
pub proof fn lemma_root_of_within(links: Map<Seq<char>, Seq<char>>, name: Seq<char>, hops: nat)
    requires
        settles_within(links, name, hops),
    ensures
        settles(links, name),
        root_of(links, name) == root_within(links, name, hops),
{
    let chosen = choose|hops: nat| settles_within(links, name, hops);
    lemma_root_within_agrees(links, name, chosen, hops);
}

/// A name that extends nothing is its own root.
pub proof fn lemma_root_of_unlinked(links: Map<Seq<char>, Seq<char>>, name: Seq<char>)
    requires
        !links.contains_key(name),
    ensures
        settles(links, name),
        root_of(links, name) == name,
{
    lemma_root_of_within(links, name, 0);
}

/// A name and what it extends have one root: every name on a chain of links
/// has the root of the chain's last name.
pub proof fn lemma_root_of_linked(links: Map<Seq<char>, Seq<char>>, name: Seq<char>)
    requires
        links.contains_key(name),
        settles(links, name),
    ensures
        settles(links, links[name]),
        root_of(links, name) == root_of(links, links[name]),
{
    let hops = choose|hops: nat| settles_within(links, name, hops);
    lemma_root_of_within(links, links[name], (hops - 1) as nat);
}

/// The root of a name extends nothing, and is its own root.
pub proof fn lemma_root_is_unlinked(links: Map<Seq<char>, Seq<char>>, name: Seq<char>)
    requires
        settles(links, name),
    ensures
        !links.contains_key(root_of(links, name)),
        root_of(links, root_of(links, name)) == root_of(links, name),
{
    let hops = choose|hops: nat| settles_within(links, name, hops);
    lemma_root_within_unlinked(links, name, hops);
    lemma_root_of_unlinked(links, root_of(links, name));
}

proof fn lemma_root_within_unlinked(links: Map<Seq<char>, Seq<char>>, name: Seq<char>, hops: nat)
    requires
        settles_within(links, name, hops),
    ensures
        !links.contains_key(root_within(links, name, hops)),
    decreases hops,
{
    if links.contains_key(name) {
        lemma_root_within_unlinked(links, links[name], (hops - 1) as nat);
    }
}

/// A name that extends something settles just where what it extends settles.
pub proof fn lemma_settles_linked(links: Map<Seq<char>, Seq<char>>, name: Seq<char>)
    requires
        links.contains_key(name),
    ensures
        settles(links, name) == settles(links, links[name]),
{
    if settles(links, name) {
        lemma_root_of_linked(links, name);
    }
    if settles(links, links[name]) {
        let hops = choose|hops: nat| settles_within(links, links[name], hops);
        assert(settles_within(links, name, hops + 1));
    }
}

/// From a set of names that each extend a name of the set, the links never end.
pub proof fn lemma_circle_never_settles(
    links: Map<Seq<char>, Seq<char>>,
    circle: Set<Seq<char>>,
    name: Seq<char>,
    hops: nat,
)
    requires
        forall|member: Seq<char>| #[trigger]
            circle.contains(member) ==> links.contains_key(member) && circle.contains(
                links[member],
            ),
        circle.contains(name),
    ensures
        !settles_within(links, name, hops),
    decreases hops,
{
    if hops > 0 {
        lemma_circle_never_settles(links, circle, links[name], (hops - 1) as nat);
    }
}

/// The name that follows the name at `i` on the path `path` to `end`.
pub open spec fn next_on_path(path: Seq<Seq<char>>, end: Seq<char>, i: int) -> Seq<char> {
    if i + 1 < path.len() {
        path[i + 1]
    } else {
        end
    }
}

/// Whether each name of `path` extends the next, and the last extends `end`.
pub open spec fn is_path(
    links: Map<Seq<char>, Seq<char>>,
    path: Seq<Seq<char>>,
    end: Seq<char>,
) -> bool {
    forall|i: int|
        0 <= i < path.len() ==> links.contains_key(#[trigger] path[i]) && links[path[i]]
            == next_on_path(path, end, i)
}

/// Where a path of links comes back to one of its names, the links from that
/// name never end.
pub proof fn lemma_revisit_never_settles(
    links: Map<Seq<char>, Seq<char>>,
    path: Seq<Seq<char>>,
    at: int,
    end: Seq<char>,
)
    requires
        is_path(links, path, end),
        0 <= at < path.len(),
        path[at] == end,
    ensures
        !settles(links, end),
{
    let circle = Set::new(
        |member: Seq<char>| exists|i: int| at <= i < path.len() && #[trigger] path[i] == member,
    );
    assert forall|member: Seq<char>| #[trigger] circle.contains(member) implies links.contains_key(
        member,
    ) && circle.contains(links[member]) by {
        let i = choose|i: int| at <= i < path.len() && #[trigger] path[i] == member;
        assert(links[path[i]] == next_on_path(path, end, i));
        if i + 1 < path.len() {
            assert(path[i + 1] == links[member]);
        } else {
            assert(path[at] == links[member]);
        }
    }
    assert(circle.contains(path[at]));
    assert forall|hops: nat| !settles_within(links, end, hops) by {
        lemma_circle_never_settles(links, circle, end, hops);
    }
}

/// On a path of links that ends at a name that extends nothing, that name is
/// the root of every name of the path, and its own.
pub proof fn lemma_path_has_one_root(
    links: Map<Seq<char>, Seq<char>>,
    path: Seq<Seq<char>>,
    end: Seq<char>,
    i: int,
)
    requires
        is_path(links, path, end),
        !links.contains_key(end),
        0 <= i < path.len(),
    ensures
        settles(links, path[i]),
        root_of(links, path[i]) == end,
        root_of(links, end) == end,
    decreases path.len() - i,
{
    lemma_root_of_unlinked(links, end);
    assert(links[path[i]] == next_on_path(path, end, i));
    if i + 1 < path.len() {
        lemma_path_has_one_root(links, path, end, i + 1);
    }
    lemma_settles_linked(links, path[i]);
    lemma_root_of_linked(links, path[i]);
}

/// The place of `name` among `names`, where it is one of them.
fn position(names: &Vec<&str>, name: &str) -> (r: Option<usize>)
    ensures
        match r {
            Some(at) => at < names@.len() && names@[at as int]@ == name@,
            None => forall|i: int| 0 <= i < names@.len() ==> (#[trigger] names@[i])@ != name@,
        },
{
    let mut at: usize = 0;
    while at < names.len()
        invariant
            at <= names@.len(),
            forall|i: int| 0 <= i < at ==> (#[trigger] names@[i])@ != name@,
        decreases names@.len() - at,
    {
        if str_eq(names[at], name) {
            return Some(at);
        }
        at += 1;
    }
    None
}

/// The link that `declared` adds: from its host name to the type of its field
/// `base`, where it has a host name and that field is its only data field.
pub open spec fn base_link(declared: StructDeclarationView) -> Option<(Seq<char>, Seq<char>)> {
    if declared.fields.len() == 1 && declared.fields[0].name == BASE_FIELD@ {
        match declared.rust_name {
            Some(host) => Some((host, declared.fields[0].ty)),
            None => None,
        }
    } else {
        None
    }
}

/// The links of `structs`; of two structs with one host name the later counts.
pub open spec fn base_links(structs: Seq<StructDeclarationView>) -> Map<Seq<char>, Seq<char>>
    decreases structs.len(),
{
    if structs.len() == 0 {
        Map::empty()
    } else {
        let before = base_links(structs.drop_last());
        match base_link(structs.last()) {
            Some((host, base)) => before.insert(host, base),
            None => before,
        }
    }
}

/// The links from each struct to the struct it extends.
#[derive(Debug, PartialEq, Eq)]
pub struct BaseTypes {
    links: NameTable,
}

impl View for BaseTypes {
    type V = Map<Seq<char>, Seq<char>>;

    /// The links as a map from a host name to the name it extends.
    closed spec fn view(&self) -> Map<Seq<char>, Seq<char>> {
        self.links@
    }
}

impl BaseTypes {
    /// The invariant of the links.
    pub closed spec fn wf(&self) -> bool {
        self.links.wf()
    }

    /// No links.
    pub fn empty() -> (r: BaseTypes)
        ensures
            r.wf(),
            r@ == Map::<Seq<char>, Seq<char>>::empty(),
    {
        BaseTypes { links: NameTable::new() }
    }

    /// The links of `structs`.
    pub fn new(structs: &Vec<StructDeclaration>) -> (r: BaseTypes)
        ensures
            r.wf(),
            r@ == base_links(structs@.map_values(|s: StructDeclaration| s@)),
    {
        let ghost views = structs@.map_values(|s: StructDeclaration| s@);
        let mut links = NameTable::new();
        let mut i: usize = 0;
        while i < structs.len()
            invariant
                i <= structs.len(),
                views == structs@.map_values(|s: StructDeclaration| s@),
                links.wf(),
                links@ == base_links(views.take(i as int)),
            decreases structs.len() - i,
        {
            proof {
                assert(views.take(i + 1).drop_last() =~= views.take(i as int));
                assert(views.take(i + 1).last() == structs[i as int]@);
            }
            let declared = &structs[i];
            if declared.fields.len() == 1 && str_eq(declared.fields[0].name.as_str(), BASE_FIELD) {
                match &declared.rust_name {
                    Some(host) => {
                        links.insert(host.clone(), declared.fields[0].ty.clone());
                    },
                    None => {},
                }
            }
            i += 1;
        }
        proof {
            assert(views.take(i as int) =~= views);
        }
        BaseTypes { links }
    }

    /// What `name` extends, where it extends anything.
    pub fn base(&self, name: &str) -> (r: Option<&str>)
        requires
            self.wf(),
        ensures
            match r {
                Some(base) => self@.contains_key(name@) && self@[name@] == base@,
                None => !self@.contains_key(name@),
            },
    {
        match self.links.get(name) {
            Some(base) => Some(base.as_str()),
            None => None,
        }
    }

    /// Whether the links from `name` lead to a root, and not round in a circle.
    pub fn settles(&self, name: &str) -> (r: bool)
        requires
            self.wf(),
        ensures
            r == settles(self@, name@),
    {
        let mut seen: Vec<&str> = Vec::new();
        let mut current: &str = name;
        let ghost mut path: Seq<Seq<char>> = Seq::empty();
        loop
            invariant
                self.wf(),
                settles(self@, name@) == settles(self@, current@),
                path == seen@.map_values(|s: &str| s@),
                path.len() <= self.links.entries().len(),
                path.no_duplicates(),
                is_path(self@, path, current@),
            decreases self.links.entries().len() - path.len(),
        {
            let parent = match self.base(current) {
                Some(parent) => parent,
                None => {
                    proof {
                        lemma_root_of_unlinked(self@, current@);
                    }
                    return true;
                },
            };
            match position(&seen, current) {
                Some(at) => {
                    proof {
                        lemma_revisit_never_settles(self@, path, at as int, current@);
                    }
                    return false;
                },
                None => {},
            }
            proof {
                lemma_settles_linked(self@, current@);
                let longer = path.push(current@);
                assert(longer.no_duplicates());
                assert forall|i: int| 0 <= i < longer.len() implies self@.contains_key(
                    #[trigger] longer[i],
                ) by {
                    if i < path.len() {
                        assert(self@.contains_key(path[i]));
                    }
                }
                self.links.lemma_bound(longer);
                assert(is_path(self@, longer, parent@)) by {
                    assert forall|i: int| 0 <= i < longer.len() implies self@.contains_key(
                        #[trigger] longer[i],
                    ) && self@[longer[i]] == next_on_path(longer, parent@, i) by {
                        if i < path.len() {
                            assert(self@[path[i]] == next_on_path(path, current@, i));
                        }
                    }
                }
                path = longer;
            }
            seen.push(current);
            current = parent;
        }
    }

    /// The root of `name`: the first name on the way from `name` along the
    /// links that extends nothing. The links from `name` must not lead round
    /// in a circle.
    pub fn root(&self, name: &str) -> (r: String)
        requires
            self.wf(),
            settles(self@, name@),
        ensures
            r@ == root_of(self@, name@),
            !self@.contains_key(r@),
    {
        let mut current: &str = name;
        let ghost mut hops = choose|hops: nat| settles_within(self@, name@, hops);
        loop
            invariant
                self.wf(),
                settles_within(self@, current@, hops),
                root_of(self@, current@) == root_of(self@, name@),
            decreases hops,
        {
            match self.base(current) {
                Some(base) => {
                    proof {
                        lemma_root_of_linked(self@, current@);
                        hops = (hops - 1) as nat;
                    }
                    current = base;
                },
                None => {
                    proof {
                        lemma_root_of_unlinked(self@, current@);
                    }
                    return current.to_owned();
                },
            }
        }
    }
}

} // verus!
