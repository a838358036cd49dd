//! Selection of the items that the build script keeps from a contract's
//! sources: every item but the `impl` blocks not marked by sylvia's
//! `contract` or `interface` attribute, under the crate's own name or an
//! alias brought in by `use`.
use vstd::prelude::*;
use crate::tokens;

verus! {

/// Entry point of the build script; the work is done by the build front end.
#[derive(Clone, Copy, Debug)]
pub struct Build;

/// The values of a path given as its segments.
pub open spec fn segs(v: Seq<String>) -> Seq<Seq<char>> {
    Seq::new(v.len(), |i: int| v[i]@)
}

/// Whether two paths are the same.
pub fn paths_equal(a: &Vec<String>, b: &Vec<String>) -> (r: bool)
    ensures
        r == (segs(a@) == segs(b@)),
{
    if a.len() != b.len() {
        assert(segs(a@).len() != segs(b@).len());
        return false;
    }
    let mut i: usize = 0;
    while i < a.len()
        invariant
            a.len() == b.len(),
            i <= a.len(),
            forall|j: int| 0 <= j < i ==> a@[j]@ == b@[j]@,
        decreases a.len() - i,
    {
        if !a[i].eq(&b[i]) {
            assert(segs(a@)[i as int] != segs(b@)[i as int]);
            return false;
        }
        i = i + 1;
    }
    assert(segs(a@) =~= segs(b@));
    true
}

/// Whether `p` is among the paths `ps`.
pub open spec fn path_in(ps: Seq<Vec<String>>, p: Seq<Seq<char>>) -> bool {
    exists|i: int| 0 <= i < ps.len() && segs((#[trigger] ps[i])@) == p
}

/// Whether `p` is among the paths `ps`.
pub fn contains_path(ps: &Vec<Vec<String>>, p: &Vec<String>) -> (r: bool)
    ensures
        r == path_in(ps@, segs(p@)),
{
    let mut i: usize = 0;
    while i < ps.len()
        invariant
            i <= ps.len(),
            forall|j: int| 0 <= j < i ==> segs((#[trigger] ps@[j])@) != segs(p@),
        decreases ps.len() - i,
    {
        if paths_equal(&ps[i], p) {
            return true;
        }
        i = i + 1;
    }
    false
}

/// Absolute paths of sylvia's attributes under the name the crate is known by.
#[derive(Debug)]
pub struct Paths {
    pub sylvia: Vec<String>,
    pub contract: Vec<String>,
    pub interface: Vec<String>,
}

impl Paths {
    /// The paths `name`, `name::contract` and `name::interface`.
    pub fn new(sylvia_crate: &String) -> (r: Paths)
        ensures
            segs(r.sylvia@) == seq![sylvia_crate@],
            segs(r.contract@) == seq![sylvia_crate@, "contract"@],
            segs(r.interface@) == seq![sylvia_crate@, "interface"@],
    {
        let mut sylvia: Vec<String> = Vec::new();
        sylvia.push(sylvia_crate.clone());
        let mut contract: Vec<String> = Vec::new();
        contract.push(sylvia_crate.clone());
        contract.push(String::from_str("contract"));
        let mut interface: Vec<String> = Vec::new();
        interface.push(sylvia_crate.clone());
        interface.push(String::from_str("interface"));
        assert(segs(sylvia@) =~= seq![sylvia_crate@]);
        assert(segs(contract@) =~= seq![sylvia_crate@, "contract"@]);
        assert(segs(interface@) =~= seq![sylvia_crate@, "interface"@]);
        Paths { sylvia, contract, interface }
    }

    /// Whether `path` is the `contract` or `interface` attribute.
    pub fn is_sylvia_attribute(&self, path: &Vec<String>) -> (r: bool)
        ensures
            r == (segs(path@) == segs(self.contract@) || segs(path@) == segs(self.interface@)),
    {
        paths_equal(&self.contract, path) || paths_equal(&self.interface, path)
    }
}

/// Names under which `use` items bring sylvia's attributes in.
#[derive(Debug)]
pub struct Aliases {
    pub sylvia: Vec<Vec<String>>,
    pub contract: Vec<Vec<String>>,
    pub interface: Vec<Vec<String>>,
}

impl Aliases {
    /// No alias.
    pub fn new() -> (r: Aliases)
        ensures
            r.sylvia@.len() == 0,
            r.contract@.len() == 0,
            r.interface@.len() == 0,
    {
        Aliases { sylvia: Vec::new(), contract: Vec::new(), interface: Vec::new() }
    }

    /// Whether `path` is an alias of the `contract` or `interface` attribute.
    pub fn is_sylvia_attribute(&self, path: &Vec<String>) -> (r: bool)
        ensures
            r == (path_in(self.contract@, segs(path@)) || path_in(self.interface@, segs(path@))),
    {
        contains_path(&self.contract, path) || contains_path(&self.interface, path)
    }
}

/// An item of a source file: an `impl` block with the paths of its
/// attributes, or any other item.
#[derive(Debug)]
pub enum Item {
    Impl { attrs: Vec<Vec<String>> },
    Other,
}

/// Sylvia's attribute paths and their aliases.
#[derive(Debug)]
pub struct ModFolder {
    pub sylvia_paths: Paths,
    pub aliases: Aliases,
}

impl ModFolder {
    /// Whether `path` names sylvia's `contract` or `interface` attribute.
    pub open spec fn is_sylvia_path(&self, p: Seq<Seq<char>>) -> bool {
        p == segs(self.sylvia_paths.contract@) || p == segs(self.sylvia_paths.interface@) || path_in(
            self.aliases.contract@,
            p,
        ) || path_in(self.aliases.interface@, p)
    }

    /// Whether an item is kept: any item but an `impl` block without one of
    /// sylvia's attributes.
    pub open spec fn keeps(&self, item: Item) -> bool {
        match item {
            Item::Impl { attrs } => exists|j: int| 0 <= j < attrs@.len() && self.is_sylvia_path(segs((#[trigger] attrs@[j])@)),
            Item::Other => true,
        }
    }

    /// With the paths of the crate `sylvia_crate` and no alias.
    pub fn new(sylvia_crate: &String) -> (r: ModFolder)
        ensures
            segs(r.sylvia_paths.contract@) == seq![sylvia_crate@, "contract"@],
            segs(r.sylvia_paths.interface@) == seq![sylvia_crate@, "interface"@],
            r.aliases.contract@.len() == 0,
            r.aliases.interface@.len() == 0,
    {
        ModFolder { sylvia_paths: Paths::new(sylvia_crate), aliases: Aliases::new() }
    }

    /// Whether `path` names sylvia's `contract` or `interface` attribute.
    pub fn is_sylvia_attribute(&self, path: &Vec<String>) -> (r: bool)
        ensures
            r == self.is_sylvia_path(segs(path@)),
    {
        self.sylvia_paths.is_sylvia_attribute(path) || self.aliases.is_sylvia_attribute(path)
    }

    /// Whether the item is kept.
    fn keeps_exec(&self, item: &Item) -> (b: bool)
        ensures
            b == self.keeps(*item),
    {
        match item {
            Item::Impl { attrs } => {
                let mut j: usize = 0;
                while j < attrs.len()
                    invariant
                        j <= attrs.len(),
                        self.keeps(*item) == exists|q: int| 0 <= q < attrs@.len() && self.is_sylvia_path(segs((#[trigger] attrs@[q])@)),
                        forall|q: int| 0 <= q < j ==> !self.is_sylvia_path(segs((#[trigger] attrs@[q])@)),
                    decreases attrs.len() - j,
                {
                    if self.is_sylvia_attribute(&attrs[j]) {
                        return true;
                    }
                    j = j + 1;
                }
                false
            },
            Item::Other => true,
        }
    }

    /// Drops the `impl` blocks not marked by one of sylvia's attributes and
    /// keeps every other item, in order.
    pub fn process_impl_items(&self, items: Vec<Item>) -> (r: Vec<Item>)
        ensures
            r@ == items@.filter(|it: Item| self.keeps(it)),
    {
        let ghost all = items@;
        let ghost f = |it: Item| self.keeps(it);
        let mut rest = items;
        let mut r: Vec<Item> = Vec::new();
        let ghost mut i: int = 0;
        assert(all.take(0) =~= Seq::<Item>::empty());
        proof {
            reveal_with_fuel(Seq::<_>::filter, 1);
        }
        assert(all.take(0).filter(f) =~= Seq::<Item>::empty());
        assert(all.skip(0) =~= all);
        while rest.len() > 0
            invariant
                0 <= i <= all.len(),
                f == (|it: Item| self.keeps(it)),
                rest@ == all.skip(i),
                r@ == all.take(i).filter(f),
            decreases rest.len(),
        {
            let it = rest.remove(0);
            proof {
                assert(all.skip(i)[0] == it);
                assert(all.take(i + 1) =~= all.take(i).push(it));
                all.take(i).lemma_filter_push(it, f);
                assert(all.skip(i + 1) =~= all.skip(i).remove(0));
            }
            if self.keeps_exec(&it) {
                r.push(it);
            }
            proof {
                i = i + 1;
            }
        }
        assert(all.take(i) =~= all);
        r
    }
}


/// Where the content of a module declared in a source file comes from.
#[derive(Debug)]
pub enum ModuleSource {
    /// The declaration is kept as it is.
    Keep,
    /// The file named by the module's `#[path = ".."]` attribute.
    Path(String),
    /// The first of these files that exists; the declaration is kept when
    /// none does.
    FirstExisting(String, String),
}

pub enum ModuleSourceV {
    Keep,
    Path(Seq<char>),
    FirstExisting(Seq<char>, Seq<char>),
}

impl View for ModuleSource {
    type V = ModuleSourceV;

    open spec fn view(&self) -> ModuleSourceV {
        match self {
            ModuleSource::Keep => ModuleSourceV::Keep,
            ModuleSource::Path(p) => ModuleSourceV::Path(p@),
            ModuleSource::FirstExisting(a, b) => ModuleSourceV::FirstExisting(a@, b@),
        }
    }
}

/// The file a `#[path = "file"]` attribute names, from the tokens after its
/// path: `= "file"`.
pub open spec fn path_attr_value(t: Seq<tokens::TokV>) -> Option<Seq<char>> {
    if t.len() == 2 && t[0] == tokens::TokV::Punct('=') && t[1] is Lit {
        let l = t[1]->Lit_0;
        if l.len() >= 2 && l[0] == '"' && l[l.len() - 1] == '"' {
            Some(l.subrange(1, l.len() - 1))
        } else {
            None
        }
    } else {
        None
    }
}

/// Where the content of the module `ident`, declared in the directory
/// `dir`, comes from: only a declaration without a body (`mod x;`) is
/// loaded; from the file its `#[path = ..]` attribute names, else from
/// `dir/x.rs` or `dir/x/mod.rs`; a `path` attribute that does not parse
/// keeps the declaration.
pub open spec fn module_source_spec(has_semi: bool, path_attr: Option<Seq<tokens::TokV>>, dir: Seq<char>, ident: Seq<char>) -> ModuleSourceV {
    if !has_semi {
        ModuleSourceV::Keep
    } else {
        match path_attr {
            Some(t) => match path_attr_value(t) {
                Some(p) => ModuleSourceV::Path(p),
                None => ModuleSourceV::Keep,
            },
            None => ModuleSourceV::FirstExisting(dir + "/"@ + ident + ".rs"@, dir + "/"@ + ident + "/mod.rs"@),
        }
    }
}

/// Where the content of the module `ident` declared in `dir` comes from;
/// `path_attr` are the tokens after the path of its first `path` attribute.
pub fn module_source(has_semi: bool, path_attr: Option<&Vec<tokens::Tok>>, dir: &String, ident: &String) -> (r: ModuleSource)
    ensures
        r@ == module_source_spec(
            has_semi,
            match path_attr {
                Some(t) => Some(tokens::toks(t@)),
                None => None,
            },
            dir@,
            ident@,
        ),
{
    if !has_semi {
        return ModuleSource::Keep;
    }
    match path_attr {
        Some(t) => {
            if t.len() == 2 && t[0].is_punct('=') {
                match &t[1] {
                    tokens::Tok::Lit(l) => {
                        let n = l.unicode_len();
                        if n >= 2 && l.get_char(0) == '"' && l.get_char(n - 1) == '"' {
                            let p = l.as_str().substring_char(1, n - 1);
                            let mut r = String::new();
                            r.append(p);
                            assert(r@ =~= l@.subrange(1, n - 1));
                            return ModuleSource::Path(r);
                        }
                        ModuleSource::Keep
                    },
                    _ => ModuleSource::Keep,
                }
            } else {
                ModuleSource::Keep
            }
        },
        None => {
            let mut a = dir.clone();
            a.append("/");
            a.append(ident.as_str());
            let mut b = String::new();
            b.append(a.as_str());
            a.append(".rs");
            b.append("/mod.rs");
            proof {
                reveal_strlit("/");
                reveal_strlit(".rs");
                reveal_strlit("/mod.rs");
            }
            assert(a@ =~= dir@ + "/"@ + ident@ + ".rs"@);
            assert(b@ =~= dir@ + "/"@ + ident@ + "/mod.rs"@);
            ModuleSource::FirstExisting(a, b)
        },
    }
}

} // verus!
