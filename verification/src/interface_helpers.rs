//! The query and execution helpers of an interface: traits with a method per
//! message, implemented for the interface used as a trait object and for any
//! contract implementing it.
use vstd::prelude::*;
use crate::associated_types::{self, AssociatedTypes, TraitItemType, TraitItemTypeV};
use crate::executor::{self, executor_decls, executor_impls};
use crate::interfaces::lifetime_a;
use crate::msg_type::{self, MsgType};
use crate::querier::{self, querier_decls, querier_impls, types_item};
use crate::reply::{self, MsgVariant, MsgVariantV};
use crate::tokens::{self, Delim, Tok, TokV};

verus! {

/// The token pattern repeated for each associated type of an interface.
#[derive(Clone, Copy, PartialEq, Eq, Structural, Debug)]
pub enum NamePattern {
    /// `N ,`
    Comma,
    /// `N = N ,`
    Binding,
    /// `N = Self :: N ,`
    SelfBinding,
    /// `Self :: N ,`
    SelfArg,
    /// `type N = N ;`
    Definition,
    /// `type N = < Contract as Interface > :: N ;`
    ContractDefinition,
    /// `type N = < ContractT as super :: Interface > :: N ;`
    SuperDefinition,
    /// `< Contract as Interface > :: N ,`
    ContractArg,
}

/// The tokens of `pattern` for the associated type `n` of the interface `iname`.
pub open spec fn pattern(p: NamePattern, iname: Seq<char>, n: Seq<char>) -> Seq<TokV> {
    match p {
        NamePattern::Comma => seq![TokV::Ident(n), tokens::pc(',')],
        NamePattern::Binding => seq![TokV::Ident(n), tokens::pc('='), TokV::Ident(n), tokens::pc(',')],
        NamePattern::SelfBinding => seq![
            TokV::Ident(n),
            tokens::pc('='),
            tokens::id("Self"),
            tokens::pc(':'),
            tokens::pc(':'),
            TokV::Ident(n),
            tokens::pc(','),
        ],
        NamePattern::SelfArg => seq![tokens::id("Self"), tokens::pc(':'), tokens::pc(':'), TokV::Ident(n), tokens::pc(',')],
        NamePattern::Definition => associated_types::type_definition(n),
        NamePattern::ContractDefinition => seq![
            tokens::id("type"),
            TokV::Ident(n),
            tokens::pc('='),
            tokens::pc('<'),
            tokens::id("Contract"),
            tokens::id("as"),
            TokV::Ident(iname),
            tokens::pc('>'),
            tokens::pc(':'),
            tokens::pc(':'),
            TokV::Ident(n),
            tokens::pc(';'),
        ],
        NamePattern::SuperDefinition => seq![
            tokens::id("type"),
            TokV::Ident(n),
            tokens::pc('='),
            tokens::pc('<'),
            tokens::id("ContractT"),
            tokens::id("as"),
            tokens::id("super"),
            tokens::pc(':'),
            tokens::pc(':'),
            TokV::Ident(iname),
            tokens::pc('>'),
            tokens::pc(':'),
            tokens::pc(':'),
            TokV::Ident(n),
            tokens::pc(';'),
        ],
        NamePattern::ContractArg => seq![
            tokens::pc('<'),
            tokens::id("Contract"),
            tokens::id("as"),
            TokV::Ident(iname),
            tokens::pc('>'),
            tokens::pc(':'),
            tokens::pc(':'),
            TokV::Ident(n),
            tokens::pc(','),
        ],
    }
}

/// The pattern for each associated type, one after the other.
pub open spec fn patterns(p: NamePattern, iname: Seq<char>, ns: Seq<Seq<char>>) -> Seq<TokV> {
    tokens::concat(Seq::new(ns.len(), |i: int| pattern(p, iname, ns[i])))
}

/// `type N [:] bounds ;`: the declaration of an associated type of the interface.
pub open spec fn trait_type_decl(t: TraitItemTypeV) -> Seq<TokV> {
    seq![tokens::id("type"), TokV::Ident(t.ident)] + (if t.colon { seq![tokens::pc(':')] } else { Seq::empty() }) + t.bounds
        + seq![tokens::pc(';')]
}

/// The declarations of the associated types, one after the other.
pub open spec fn trait_type_decls(ts: Seq<TraitItemTypeV>) -> Seq<TokV> {
    tokens::concat(Seq::new(ts.len(), |i: int| trait_type_decl(ts[i])))
}

/// `where N1 : Bounds , ..` over the associated types, or nothing when there are none.
pub open spec fn assoc_where(ts: Seq<TraitItemTypeV>) -> Seq<TokV> {
    if ts.len() == 0 {
        Seq::empty()
    } else {
        seq![tokens::id("where")] + associated_types::comma_join(Seq::new(ts.len(), |k: int| associated_types::where_predicate(ts[k])))
    }
}

/// The tokens of `pattern` for the associated type `n`.
fn pattern_tokens(p: NamePattern, iname: &String, n: &String) -> (r: Vec<Tok>)
    ensures
        tokens::toks(r@) == pattern(p, iname@, n@),
{
    let mut r: Vec<Tok> = Vec::new();
    match p {
        NamePattern::Comma => {
            tokens::push_tok(&mut r, Tok::Ident(n.clone()));
            tokens::push_punct(&mut r, ',');
        },
        NamePattern::Binding => {
            tokens::push_tok(&mut r, Tok::Ident(n.clone()));
            tokens::push_punct(&mut r, '=');
            tokens::push_tok(&mut r, Tok::Ident(n.clone()));
            tokens::push_punct(&mut r, ',');
        },
        NamePattern::SelfBinding => {
            tokens::push_tok(&mut r, Tok::Ident(n.clone()));
            tokens::push_punct(&mut r, '=');
            tokens::push_ident(&mut r, "Self");
            tokens::push_punct(&mut r, ':');
            tokens::push_punct(&mut r, ':');
            tokens::push_tok(&mut r, Tok::Ident(n.clone()));
            tokens::push_punct(&mut r, ',');
        },
        NamePattern::SelfArg => {
            tokens::push_ident(&mut r, "Self");
            tokens::push_punct(&mut r, ':');
            tokens::push_punct(&mut r, ':');
            tokens::push_tok(&mut r, Tok::Ident(n.clone()));
            tokens::push_punct(&mut r, ',');
        },
        NamePattern::Definition => {
            tokens::push_ident(&mut r, "type");
            tokens::push_tok(&mut r, Tok::Ident(n.clone()));
            tokens::push_punct(&mut r, '=');
            tokens::push_tok(&mut r, Tok::Ident(n.clone()));
            tokens::push_punct(&mut r, ';');
        },
        NamePattern::ContractDefinition => {
            tokens::push_ident(&mut r, "type");
            tokens::push_tok(&mut r, Tok::Ident(n.clone()));
            tokens::push_punct(&mut r, '=');
            tokens::push_punct(&mut r, '<');
            tokens::push_ident(&mut r, "Contract");
            tokens::push_ident(&mut r, "as");
            tokens::push_tok(&mut r, Tok::Ident(iname.clone()));
            tokens::push_punct(&mut r, '>');
            tokens::push_punct(&mut r, ':');
            tokens::push_punct(&mut r, ':');
            tokens::push_tok(&mut r, Tok::Ident(n.clone()));
            tokens::push_punct(&mut r, ';');
        },
        NamePattern::SuperDefinition => {
            tokens::push_ident(&mut r, "type");
            tokens::push_tok(&mut r, Tok::Ident(n.clone()));
            tokens::push_punct(&mut r, '=');
            tokens::push_punct(&mut r, '<');
            tokens::push_ident(&mut r, "ContractT");
            tokens::push_ident(&mut r, "as");
            tokens::push_ident(&mut r, "super");
            tokens::push_punct(&mut r, ':');
            tokens::push_punct(&mut r, ':');
            tokens::push_tok(&mut r, Tok::Ident(iname.clone()));
            tokens::push_punct(&mut r, '>');
            tokens::push_punct(&mut r, ':');
            tokens::push_punct(&mut r, ':');
            tokens::push_tok(&mut r, Tok::Ident(n.clone()));
            tokens::push_punct(&mut r, ';');
        },
        NamePattern::ContractArg => {
            tokens::push_punct(&mut r, '<');
            tokens::push_ident(&mut r, "Contract");
            tokens::push_ident(&mut r, "as");
            tokens::push_tok(&mut r, Tok::Ident(iname.clone()));
            tokens::push_punct(&mut r, '>');
            tokens::push_punct(&mut r, ':');
            tokens::push_punct(&mut r, ':');
            tokens::push_tok(&mut r, Tok::Ident(n.clone()));
            tokens::push_punct(&mut r, ',');
        },
    }
    assert(tokens::toks(r@) =~= pattern(p, iname@, n@));
    r
}

/// Appends the pattern `p` for each associated type of `at`.
pub(crate) fn push_patterns(dst: &mut Vec<Tok>, at: &AssociatedTypes, p: NamePattern, iname: &String)
    ensures
        tokens::toks(final(dst)@) == tokens::toks(old(dst)@) + patterns(p, iname@, at.names()),
{
    let ghost ns = at.names();
    let ghost want = Seq::new(ns.len(), |i: int| pattern(p, iname@, ns[i]));
    let ghost start = tokens::toks(dst@);
    let mut k: usize = 0;
    assert(want.take(0) =~= Seq::<Seq<TokV>>::empty());
    assert(tokens::toks(dst@) =~= start + tokens::concat(want.take(0)));
    while k < at.0.len()
        invariant
            ns == at.names(),
            want == Seq::new(ns.len(), |i: int| pattern(p, iname@, ns[i])),
            k <= at.0.len(),
            tokens::toks(dst@) == start + tokens::concat(want.take(k as int)),
        decreases at.0.len() - k,
    {
        let t = pattern_tokens(p, iname, &at.0[k].ident);
        tokens::extend_toks(dst, &t);
        assert(want.take(k + 1).drop_last() =~= want.take(k as int));
        assert(tokens::toks(dst@) =~= start + tokens::concat(want.take(k + 1)));
        k = k + 1;
    }
    assert(want.take(k as int) =~= want);
}

/// The values of a sequence of names.
pub open spec fn names_view(v: Seq<String>) -> Seq<Seq<char>> {
    Seq::new(v.len(), |i: int| v[i]@)
}

/// Appends the pattern `p` for each of `names`.
pub(crate) fn push_name_patterns(dst: &mut Vec<Tok>, names: &Vec<String>, p: NamePattern, iname: &String)
    ensures
        tokens::toks(final(dst)@) == tokens::toks(old(dst)@) + patterns(p, iname@, names_view(names@)),
{
    let ghost ns = names_view(names@);
    let ghost want = Seq::new(ns.len(), |i: int| pattern(p, iname@, ns[i]));
    let ghost start = tokens::toks(dst@);
    let mut k: usize = 0;
    assert(want.take(0) =~= Seq::<Seq<TokV>>::empty());
    assert(tokens::toks(dst@) =~= start + tokens::concat(want.take(0)));
    while k < names.len()
        invariant
            ns == names_view(names@),
            want == Seq::new(ns.len(), |i: int| pattern(p, iname@, ns[i])),
            k <= names.len(),
            tokens::toks(dst@) == start + tokens::concat(want.take(k as int)),
        decreases names.len() - k,
    {
        let t = pattern_tokens(p, iname, &names[k]);
        tokens::extend_toks(dst, &t);
        assert(want.take(k + 1).drop_last() =~= want.take(k as int));
        assert(tokens::toks(dst@) =~= start + tokens::concat(want.take(k + 1)));
        k = k + 1;
    }
    assert(want.take(k as int) =~= want);
}

/// Appends the declarations of the associated types of `at`.
pub(crate) fn push_trait_type_decls(dst: &mut Vec<Tok>, at: &AssociatedTypes)
    ensures
        tokens::toks(final(dst)@) == tokens::toks(old(dst)@) + trait_type_decls(at.types()),
{
    let ghost ts = at.types();
    let ghost want = Seq::new(ts.len(), |i: int| trait_type_decl(ts[i]));
    let ghost start = tokens::toks(dst@);
    let mut k: usize = 0;
    assert(want.take(0) =~= Seq::<Seq<TokV>>::empty());
    assert(tokens::toks(dst@) =~= start + tokens::concat(want.take(0)));
    while k < at.0.len()
        invariant
            ts == at.types(),
            want == Seq::new(ts.len(), |i: int| trait_type_decl(ts[i])),
            k <= at.0.len(),
            tokens::toks(dst@) == start + tokens::concat(want.take(k as int)),
        decreases at.0.len() - k,
    {
        let ghost before = tokens::toks(dst@);
        let t: &TraitItemType = at.0[k];
        tokens::push_ident(dst, "type");
        tokens::push_tok(dst, Tok::Ident(t.ident.clone()));
        if t.colon {
            tokens::push_punct(dst, ':');
        }
        tokens::extend_toks(dst, &t.bounds);
        tokens::push_punct(dst, ';');
        assert(ts[k as int] == t@);
        assert(tokens::toks(dst@) =~= before + want[k as int]);
        assert(want.take(k + 1).drop_last() =~= want.take(k as int));
        assert(tokens::toks(dst@) =~= start + tokens::concat(want.take(k + 1)));
        k = k + 1;
    }
    assert(want.take(k as int) =~= want);
}

/// Appends the where clause over the associated types of `at`, if any.
pub(crate) fn push_assoc_where(dst: &mut Vec<Tok>, at: &AssociatedTypes)
    ensures
        tokens::toks(final(dst)@) == tokens::toks(old(dst)@) + assoc_where(at.types()),
{
    let ghost ts = at.types();
    match at.as_where_clause() {
        Some(w) => {
            assert(Seq::new(at.0@.len(), |k: int| associated_types::where_predicate(at.0@[k]@)) =~= Seq::new(
                ts.len(),
                |k: int| associated_types::where_predicate(ts[k]),
            ));
            tokens::extend_toks(dst, &w);
        },
        None => {
            assert(tokens::toks(dst@) =~= tokens::toks(old(dst)@) + assoc_where(ts));
        },
    }
}

/// `< dyn Interface < Error = ( ) , N1 = Self :: N1 , .. > as InterfaceMessagesApi >`
pub open spec fn iface_messages_api(iname: Seq<char>, ns: Seq<Seq<char>>) -> Seq<TokV> {
    seq![
        tokens::pc('<'),
        tokens::id("dyn"),
        TokV::Ident(iname),
        tokens::pc('<'),
        tokens::id("Error"),
        tokens::pc('='),
        TokV::Open(Delim::Paren),
        TokV::Close(Delim::Paren),
        tokens::pc(','),
    ] + patterns(NamePattern::SelfBinding, iname, ns) + seq![
        tokens::pc('>'),
        tokens::id("as"),
        tokens::id("InterfaceMessagesApi"),
        tokens::pc('>'),
    ]
}

/// `< dyn Interface < Error = ( ) , N1 = Self :: N1 , .. > as InterfaceMessagesApi > :: Query`
pub open spec fn iface_query_api(iname: Seq<char>, ns: Seq<Seq<char>>) -> Seq<TokV> {
    iface_messages_api(iname, ns) + seq![
        tokens::pc(':'),
        tokens::pc(':'),
        TokV::Ident(msg_type::accessor_name(MsgType::Query, false)),
    ]
}

/// Appends the messages of the interface `iname` with the associated types of `at`
/// standing for the ones of `Self`.
pub(crate) fn push_iface_messages_api(dst: &mut Vec<Tok>, at: &AssociatedTypes, iname: &String)
    ensures
        tokens::toks(final(dst)@) == tokens::toks(old(dst)@) + iface_messages_api(iname@, at.names()),
{
    let ghost s0 = tokens::toks(dst@);
    tokens::push_punct(dst, '<');
    tokens::push_ident(dst, "dyn");
    tokens::push_tok(dst, Tok::Ident(iname.clone()));
    tokens::push_punct(dst, '<');
    tokens::push_ident(dst, "Error");
    tokens::push_punct(dst, '=');
    tokens::push_tok(dst, Tok::Open(Delim::Paren));
    tokens::push_tok(dst, Tok::Close(Delim::Paren));
    tokens::push_punct(dst, ',');
    push_patterns(dst, at, NamePattern::SelfBinding, iname);
    tokens::push_punct(dst, '>');
    tokens::push_ident(dst, "as");
    tokens::push_ident(dst, "InterfaceMessagesApi");
    tokens::push_punct(dst, '>');
    assert(tokens::toks(dst@) =~= s0 + iface_messages_api(iname@, at.names()));
}

/// `pub trait Querier { associated types ; query method declarations }`
pub open spec fn iface_querier_trait(ts: Seq<TraitItemTypeV>, vs: Seq<MsgVariantV>, sylvia: Seq<TokV>) -> Seq<TokV> {
    seq![tokens::id("pub"), tokens::id("trait"), tokens::id("Querier"), TokV::Open(Delim::Brace)] + trait_type_decls(ts)
        + querier_decls(vs, sylvia) + seq![TokV::Close(Delim::Brace)]
}

/// `impl < 'a , C : sylvia :: cw_std :: CustomQuery ,`
pub open spec fn querier_impl_start(sylvia: Seq<TokV>) -> Seq<TokV> {
    seq![tokens::id("impl"), tokens::pc('<')] + lifetime_a() + seq![tokens::pc(','), tokens::id("C"), tokens::pc(':')]
        + msg_type::cw_std_item(sylvia, "CustomQuery") + seq![tokens::pc(',')]
}

/// `Querier for sylvia :: types :: BoundQuerier < 'a , C ,`
pub open spec fn querier_for_bound(sylvia: Seq<TokV>) -> Seq<TokV> {
    seq![tokens::id("Querier"), tokens::id("for")] + types_item(sylvia, "BoundQuerier") + seq![tokens::pc('<')] + lifetime_a()
        + seq![tokens::pc(','), tokens::id("C"), tokens::pc(',')]
}

/// The implementation of the query helpers on the bound querier of the
/// interface as a trait object, its associated types standing for themselves:
/// `impl < 'a , C : .. , N1 , .. > Querier for sylvia :: types :: BoundQuerier <
/// 'a , C , dyn Interface < N1 = N1 , .. > > where .. { type N1 = N1 ; .. methods }`
pub open spec fn iface_querier_dyn_impl(
    iname: Seq<char>,
    ts: Seq<TraitItemTypeV>,
    ns: Seq<Seq<char>>,
    vs: Seq<MsgVariantV>,
    sylvia: Seq<TokV>,
) -> Seq<TokV> {
    querier_impl_start(sylvia) + patterns(NamePattern::Comma, iname, ns) + seq![tokens::pc('>')] + querier_for_bound(sylvia)
        + seq![tokens::id("dyn"), TokV::Ident(iname), tokens::pc('<')] + patterns(NamePattern::Binding, iname, ns) + seq![
        tokens::pc('>'),
        tokens::pc('>'),
    ] + assoc_where(ts) + seq![TokV::Open(Delim::Brace)] + patterns(NamePattern::Definition, iname, ns) + querier_impls(
        vs,
        sylvia,
        iface_query_api(iname, ns),
    ) + seq![TokV::Close(Delim::Brace)]
}

/// The implementation of the query helpers on the bound querier of any
/// contract implementing the interface:
/// `impl < 'a , C : .. , Contract : Interface > Querier for sylvia :: types :: BoundQuerier <
/// 'a , C , Contract > { type N1 = < Contract as Interface > :: N1 ; .. methods }`
pub open spec fn iface_querier_contract_impl(iname: Seq<char>, ns: Seq<Seq<char>>, vs: Seq<MsgVariantV>, sylvia: Seq<TokV>) -> Seq<TokV> {
    querier_impl_start(sylvia) + seq![tokens::id("Contract"), tokens::pc(':'), TokV::Ident(iname), tokens::pc('>')]
        + querier_for_bound(sylvia) + seq![tokens::id("Contract"), tokens::pc('>'), TokV::Open(Delim::Brace)] + patterns(
        NamePattern::ContractDefinition,
        iname,
        ns,
    ) + querier_impls(vs, sylvia, iface_query_api(iname, ns)) + seq![TokV::Close(Delim::Brace)]
}

/// The query helpers of an interface: the trait `Querier`, its implementation
/// for the interface as a trait object, and for any contract implementing it.
pub open spec fn iface_querier_tokens(
    iname: Seq<char>,
    ts: Seq<TraitItemTypeV>,
    ns: Seq<Seq<char>>,
    vs: Seq<MsgVariantV>,
    sylvia: Seq<TokV>,
) -> Seq<TokV> {
    iface_querier_trait(ts, vs, sylvia) + iface_querier_dyn_impl(iname, ts, ns, vs, sylvia) + iface_querier_contract_impl(
        iname,
        ns,
        vs,
        sylvia,
    )
}

/// Generator of the query helpers of an interface.
pub struct Querier<'a> {
    /// The interface's queries.
    pub variants: &'a Vec<MsgVariant>,
    /// Its associated types.
    pub associated_types: &'a AssociatedTypes<'a>,
    /// Its name.
    pub interface_name: &'a String,
}

impl<'a> Querier<'a> {
    /// The generator for the queries `variants` of the interface
    /// `interface_name` with the associated types `associated_types`.
    pub fn new(variants: &'a Vec<MsgVariant>, associated_types: &'a AssociatedTypes<'a>, interface_name: &'a String) -> (r: Querier<'a>)
        ensures
            r.variants == variants,
            r.associated_types == associated_types,
            r.interface_name == interface_name,
    {
        Querier { variants, associated_types, interface_name }
    }

    /// The tokens of the query path of a message of the interface.
    fn emit_api_path(&self) -> (r: Vec<Tok>)
        ensures
            tokens::toks(r@) == iface_query_api(self.interface_name@, self.associated_types.names()),
    {
        let mut r: Vec<Tok> = Vec::new();
        push_iface_messages_api(&mut r, self.associated_types, self.interface_name);
        tokens::push_punct(&mut r, ':');
        tokens::push_punct(&mut r, ':');
        let acc = match MsgType::Query.as_accessor_name(false) {
            Some(a) => a,
            None => String::new(),
        };
        tokens::push_tok(&mut r, Tok::Ident(acc));
        assert(tokens::toks(r@) =~= iface_query_api(self.interface_name@, self.associated_types.names()));
        r
    }

    fn emit_trait(&self, sylvia: &Vec<Tok>) -> (r: Vec<Tok>)
        ensures
            tokens::toks(r@) == iface_querier_trait(self.associated_types.types(), reply::variants_view(self.variants@), tokens::toks(sylvia@)),
    {
        let mut r: Vec<Tok> = Vec::new();
        tokens::push_ident(&mut r, "pub");
        tokens::push_ident(&mut r, "trait");
        tokens::push_ident(&mut r, "Querier");
        tokens::push_tok(&mut r, Tok::Open(Delim::Brace));
        push_trait_type_decls(&mut r, self.associated_types);
        querier::push_querier_decls(&mut r, self.variants, sylvia);
        tokens::push_tok(&mut r, Tok::Close(Delim::Brace));
        assert(tokens::toks(r@) =~= iface_querier_trait(self.associated_types.types(), reply::variants_view(self.variants@), tokens::toks(sylvia@)));
        r
    }

    fn emit_dyn_impl(&self, sylvia: &Vec<Tok>, api_path: &Vec<Tok>) -> (r: Vec<Tok>)
        requires
            tokens::toks(api_path@) == iface_query_api(self.interface_name@, self.associated_types.names()),
        ensures
            tokens::toks(r@) == iface_querier_dyn_impl(
                self.interface_name@,
                self.associated_types.types(),
                self.associated_types.names(),
                reply::variants_view(self.variants@),
                tokens::toks(sylvia@),
            ),
    {
        let mut r: Vec<Tok> = Vec::new();
        push_querier_impl_start(&mut r, sylvia);
        push_patterns(&mut r, self.associated_types, NamePattern::Comma, self.interface_name);
        tokens::push_punct(&mut r, '>');
        push_querier_for_bound(&mut r, sylvia);
        tokens::push_ident(&mut r, "dyn");
        tokens::push_tok(&mut r, Tok::Ident(self.interface_name.clone()));
        tokens::push_punct(&mut r, '<');
        push_patterns(&mut r, self.associated_types, NamePattern::Binding, self.interface_name);
        tokens::push_punct(&mut r, '>');
        tokens::push_punct(&mut r, '>');
        push_assoc_where(&mut r, self.associated_types);
        tokens::push_tok(&mut r, Tok::Open(Delim::Brace));
        push_patterns(&mut r, self.associated_types, NamePattern::Definition, self.interface_name);
        querier::push_querier_impls(&mut r, self.variants, sylvia, api_path);
        tokens::push_tok(&mut r, Tok::Close(Delim::Brace));
        assert(tokens::toks(r@) =~= iface_querier_dyn_impl(
            self.interface_name@,
            self.associated_types.types(),
            self.associated_types.names(),
            reply::variants_view(self.variants@),
            tokens::toks(sylvia@),
        ));
        r
    }

    fn emit_contract_impl(&self, sylvia: &Vec<Tok>, api_path: &Vec<Tok>) -> (r: Vec<Tok>)
        requires
            tokens::toks(api_path@) == iface_query_api(self.interface_name@, self.associated_types.names()),
        ensures
            tokens::toks(r@) == iface_querier_contract_impl(
                self.interface_name@,
                self.associated_types.names(),
                reply::variants_view(self.variants@),
                tokens::toks(sylvia@),
            ),
    {
        let mut r: Vec<Tok> = Vec::new();
        push_querier_impl_start(&mut r, sylvia);
        tokens::push_ident(&mut r, "Contract");
        tokens::push_punct(&mut r, ':');
        tokens::push_tok(&mut r, Tok::Ident(self.interface_name.clone()));
        tokens::push_punct(&mut r, '>');
        push_querier_for_bound(&mut r, sylvia);
        tokens::push_ident(&mut r, "Contract");
        tokens::push_punct(&mut r, '>');
        tokens::push_tok(&mut r, Tok::Open(Delim::Brace));
        push_patterns(&mut r, self.associated_types, NamePattern::ContractDefinition, self.interface_name);
        querier::push_querier_impls(&mut r, self.variants, sylvia, api_path);
        tokens::push_tok(&mut r, Tok::Close(Delim::Brace));
        assert(tokens::toks(r@) =~= iface_querier_contract_impl(
            self.interface_name@,
            self.associated_types.names(),
            reply::variants_view(self.variants@),
            tokens::toks(sylvia@),
        ));
        r
    }

    /// The query helpers of the interface: the trait, its implementation for
    /// the interface as a trait object, and for any contract implementing it.
    pub fn emit_querier_trait(&self, sylvia: &Vec<Tok>) -> (r: Vec<Tok>)
        ensures
            tokens::toks(r@) == iface_querier_tokens(
                self.interface_name@,
                self.associated_types.types(),
                self.associated_types.names(),
                reply::variants_view(self.variants@),
                tokens::toks(sylvia@),
            ),
    {
        let api_path = self.emit_api_path();
        let mut r = self.emit_trait(sylvia);
        let d = self.emit_dyn_impl(sylvia, &api_path);
        let c = self.emit_contract_impl(sylvia, &api_path);
        tokens::extend_toks(&mut r, &d);
        tokens::extend_toks(&mut r, &c);
        r
    }
}

/// Appends `impl < 'a , C : sylvia :: cw_std :: CustomQuery ,`.
fn push_querier_impl_start(dst: &mut Vec<Tok>, sylvia: &Vec<Tok>)
    ensures
        tokens::toks(final(dst)@) == tokens::toks(old(dst)@) + querier_impl_start(tokens::toks(sylvia@)),
{
    let ghost s0 = tokens::toks(dst@);
    tokens::push_ident(dst, "impl");
    tokens::push_punct(dst, '<');
    tokens::push_punct(dst, '\'');
    tokens::push_ident(dst, "a");
    tokens::push_punct(dst, ',');
    tokens::push_ident(dst, "C");
    tokens::push_punct(dst, ':');
    msg_type::push_cw_std_item(dst, sylvia, "CustomQuery");
    tokens::push_punct(dst, ',');
    assert(tokens::toks(dst@) =~= s0 + querier_impl_start(tokens::toks(sylvia@)));
}

/// Appends `Querier for sylvia :: types :: BoundQuerier < 'a , C ,`.
fn push_querier_for_bound(dst: &mut Vec<Tok>, sylvia: &Vec<Tok>)
    ensures
        tokens::toks(final(dst)@) == tokens::toks(old(dst)@) + querier_for_bound(tokens::toks(sylvia@)),
{
    let ghost s0 = tokens::toks(dst@);
    tokens::push_ident(dst, "Querier");
    tokens::push_ident(dst, "for");
    querier::push_types_item(dst, sylvia, "BoundQuerier");
    tokens::push_punct(dst, '<');
    tokens::push_punct(dst, '\'');
    tokens::push_ident(dst, "a");
    tokens::push_punct(dst, ',');
    tokens::push_ident(dst, "C");
    tokens::push_punct(dst, ',');
    assert(tokens::toks(dst@) =~= s0 + querier_for_bound(tokens::toks(sylvia@)));
}

/// `< Api < Self :: N1 , .. > as sylvia :: types :: InterfaceApi > :: Exec`, without
/// the angle brackets after `Api` when there are no associated types.
pub open spec fn iface_exec_api(iname: Seq<char>, ns: Seq<Seq<char>>, sylvia: Seq<TokV>) -> Seq<TokV> {
    seq![tokens::pc('<'), tokens::id("Api")] + (if ns.len() == 0 {
        Seq::empty()
    } else {
        seq![tokens::pc('<')] + patterns(NamePattern::SelfArg, iname, ns) + seq![tokens::pc('>')]
    }) + seq![tokens::id("as")] + types_item(sylvia, "InterfaceApi") + seq![
        tokens::pc('>'),
        tokens::pc(':'),
        tokens::pc(':'),
        TokV::Ident(msg_type::accessor_name(MsgType::Exec, false)),
    ]
}

/// `pub trait Executor { associated types ; execution method declarations }`
pub open spec fn iface_executor_trait(ts: Seq<TraitItemTypeV>, vs: Seq<MsgVariantV>, sylvia: Seq<TokV>) -> Seq<TokV> {
    seq![tokens::id("pub"), tokens::id("trait"), tokens::id("Executor"), TokV::Open(Delim::Brace)] + trait_type_decls(ts)
        + executor_decls(vs, sylvia) + seq![TokV::Close(Delim::Brace)]
}

/// `Executor for sylvia :: types :: ExecutorBuilder < ( sylvia :: types :: EmptyExecutorBuilderState ,`
pub open spec fn executor_for_builder(sylvia: Seq<TokV>) -> Seq<TokV> {
    seq![tokens::id("Executor"), tokens::id("for")] + types_item(sylvia, "ExecutorBuilder") + seq![
        tokens::pc('<'),
        TokV::Open(Delim::Paren),
    ] + types_item(sylvia, "EmptyExecutorBuilderState") + seq![tokens::pc(',')]
}

/// The implementation of the execution helpers on the empty executor
/// builder of the interface as a trait object:
/// `impl < N1 , .. > Executor for sylvia :: types :: ExecutorBuilder < ( ..EmptyExecutorBuilderState ,
/// dyn Interface < N1 = N1 , .. > ) > where .. { type N1 = N1 ; .. methods }`
pub open spec fn iface_executor_dyn_impl(
    iname: Seq<char>,
    ts: Seq<TraitItemTypeV>,
    ns: Seq<Seq<char>>,
    vs: Seq<MsgVariantV>,
    sylvia: Seq<TokV>,
) -> Seq<TokV> {
    seq![tokens::id("impl"), tokens::pc('<')] + patterns(NamePattern::Comma, iname, ns) + seq![tokens::pc('>')]
        + executor_for_builder(sylvia) + seq![tokens::id("dyn"), TokV::Ident(iname), tokens::pc('<')] + patterns(
        NamePattern::Binding,
        iname,
        ns,
    ) + seq![tokens::pc('>'), TokV::Close(Delim::Paren), tokens::pc('>')] + assoc_where(ts) + seq![TokV::Open(Delim::Brace)]
        + patterns(NamePattern::Definition, iname, ns) + executor_impls(vs, sylvia, iface_exec_api(iname, ns, sylvia)) + seq![
        TokV::Close(Delim::Brace),
    ]
}

/// The implementation of the execution helpers on the empty executor
/// builder of any contract implementing the interface:
/// `impl < Contract : Interface > Executor for sylvia :: types :: ExecutorBuilder < ( ..EmptyExecutorBuilderState ,
/// Contract ) > { type N1 = < Contract as Interface > :: N1 ; .. methods }`
pub open spec fn iface_executor_contract_impl(iname: Seq<char>, ns: Seq<Seq<char>>, vs: Seq<MsgVariantV>, sylvia: Seq<TokV>) -> Seq<TokV> {
    seq![tokens::id("impl"), tokens::pc('<'), tokens::id("Contract"), tokens::pc(':'), TokV::Ident(iname), tokens::pc('>')]
        + executor_for_builder(sylvia) + seq![tokens::id("Contract"), TokV::Close(Delim::Paren), tokens::pc('>'), TokV::Open(Delim::Brace)]
        + patterns(NamePattern::ContractDefinition, iname, ns) + executor_impls(vs, sylvia, iface_exec_api(iname, ns, sylvia))
        + seq![TokV::Close(Delim::Brace)]
}

/// The execution helpers of an interface: the trait `Executor`, its
/// implementation for the interface as a trait object, and for any contract
/// implementing it.
pub open spec fn iface_executor_tokens(
    iname: Seq<char>,
    ts: Seq<TraitItemTypeV>,
    ns: Seq<Seq<char>>,
    vs: Seq<MsgVariantV>,
    sylvia: Seq<TokV>,
) -> Seq<TokV> {
    iface_executor_trait(ts, vs, sylvia) + iface_executor_dyn_impl(iname, ts, ns, vs, sylvia) + iface_executor_contract_impl(
        iname,
        ns,
        vs,
        sylvia,
    )
}

/// Appends `Executor for sylvia :: types :: ExecutorBuilder < ( sylvia :: types :: EmptyExecutorBuilderState ,`.
fn push_executor_for_builder(dst: &mut Vec<Tok>, sylvia: &Vec<Tok>)
    ensures
        tokens::toks(final(dst)@) == tokens::toks(old(dst)@) + executor_for_builder(tokens::toks(sylvia@)),
{
    let ghost s0 = tokens::toks(dst@);
    tokens::push_ident(dst, "Executor");
    tokens::push_ident(dst, "for");
    querier::push_types_item(dst, sylvia, "ExecutorBuilder");
    tokens::push_punct(dst, '<');
    tokens::push_tok(dst, Tok::Open(Delim::Paren));
    querier::push_types_item(dst, sylvia, "EmptyExecutorBuilderState");
    tokens::push_punct(dst, ',');
    assert(tokens::toks(dst@) =~= s0 + executor_for_builder(tokens::toks(sylvia@)));
}

/// Generator of the execution helpers of an interface.
pub struct InterfaceExecutor<'a> {
    /// The interface's execute messages.
    pub variants: &'a Vec<MsgVariant>,
    /// Its associated types.
    pub associated_types: &'a AssociatedTypes<'a>,
    /// Its name.
    pub interface_name: &'a String,
}

impl<'a> InterfaceExecutor<'a> {
    /// The generator for the execute messages `variants` of the interface
    /// `interface_name` with the associated types `associated_types`.
    pub fn new(variants: &'a Vec<MsgVariant>, associated_types: &'a AssociatedTypes<'a>, interface_name: &'a String) -> (r: InterfaceExecutor<'a>)
        ensures
            r.variants == variants,
            r.associated_types == associated_types,
            r.interface_name == interface_name,
    {
        InterfaceExecutor { variants, associated_types, interface_name }
    }

    fn emit_api_path(&self, sylvia: &Vec<Tok>) -> (r: Vec<Tok>)
        ensures
            tokens::toks(r@) == iface_exec_api(self.interface_name@, self.associated_types.names(), tokens::toks(sylvia@)),
    {
        let mut r: Vec<Tok> = Vec::new();
        tokens::push_punct(&mut r, '<');
        tokens::push_ident(&mut r, "Api");
        let ghost s1 = tokens::toks(r@);
        if self.associated_types.0.len() > 0 {
            tokens::push_punct(&mut r, '<');
            push_patterns(&mut r, self.associated_types, NamePattern::SelfArg, self.interface_name);
            tokens::push_punct(&mut r, '>');
        }
        tokens::push_ident(&mut r, "as");
        querier::push_types_item(&mut r, sylvia, "InterfaceApi");
        tokens::push_punct(&mut r, '>');
        tokens::push_punct(&mut r, ':');
        tokens::push_punct(&mut r, ':');
        let acc = match MsgType::Exec.as_accessor_name(false) {
            Some(a) => a,
            None => String::new(),
        };
        tokens::push_tok(&mut r, Tok::Ident(acc));
        assert(tokens::toks(r@) =~= iface_exec_api(self.interface_name@, self.associated_types.names(), tokens::toks(sylvia@)));
        r
    }

    fn emit_trait(&self, sylvia: &Vec<Tok>) -> (r: Vec<Tok>)
        ensures
            tokens::toks(r@) == iface_executor_trait(self.associated_types.types(), reply::variants_view(self.variants@), tokens::toks(sylvia@)),
    {
        let mut r: Vec<Tok> = Vec::new();
        tokens::push_ident(&mut r, "pub");
        tokens::push_ident(&mut r, "trait");
        tokens::push_ident(&mut r, "Executor");
        tokens::push_tok(&mut r, Tok::Open(Delim::Brace));
        push_trait_type_decls(&mut r, self.associated_types);
        executor::push_executor_decls(&mut r, self.variants, sylvia);
        tokens::push_tok(&mut r, Tok::Close(Delim::Brace));
        assert(tokens::toks(r@) =~= iface_executor_trait(self.associated_types.types(), reply::variants_view(self.variants@), tokens::toks(sylvia@)));
        r
    }

    fn emit_dyn_impl(&self, sylvia: &Vec<Tok>, api_path: &Vec<Tok>) -> (r: Vec<Tok>)
        requires
            tokens::toks(api_path@) == iface_exec_api(self.interface_name@, self.associated_types.names(), tokens::toks(sylvia@)),
        ensures
            tokens::toks(r@) == iface_executor_dyn_impl(
                self.interface_name@,
                self.associated_types.types(),
                self.associated_types.names(),
                reply::variants_view(self.variants@),
                tokens::toks(sylvia@),
            ),
    {
        let mut r: Vec<Tok> = Vec::new();
        tokens::push_ident(&mut r, "impl");
        tokens::push_punct(&mut r, '<');
        push_patterns(&mut r, self.associated_types, NamePattern::Comma, self.interface_name);
        tokens::push_punct(&mut r, '>');
        push_executor_for_builder(&mut r, sylvia);
        tokens::push_ident(&mut r, "dyn");
        tokens::push_tok(&mut r, Tok::Ident(self.interface_name.clone()));
        tokens::push_punct(&mut r, '<');
        push_patterns(&mut r, self.associated_types, NamePattern::Binding, self.interface_name);
        tokens::push_punct(&mut r, '>');
        tokens::push_tok(&mut r, Tok::Close(Delim::Paren));
        tokens::push_punct(&mut r, '>');
        push_assoc_where(&mut r, self.associated_types);
        tokens::push_tok(&mut r, Tok::Open(Delim::Brace));
        push_patterns(&mut r, self.associated_types, NamePattern::Definition, self.interface_name);
        executor::push_executor_impls(&mut r, self.variants, sylvia, api_path);
        tokens::push_tok(&mut r, Tok::Close(Delim::Brace));
        assert(tokens::toks(r@) =~= iface_executor_dyn_impl(
            self.interface_name@,
            self.associated_types.types(),
            self.associated_types.names(),
            reply::variants_view(self.variants@),
            tokens::toks(sylvia@),
        ));
        r
    }

    fn emit_contract_impl(&self, sylvia: &Vec<Tok>, api_path: &Vec<Tok>) -> (r: Vec<Tok>)
        requires
            tokens::toks(api_path@) == iface_exec_api(self.interface_name@, self.associated_types.names(), tokens::toks(sylvia@)),
        ensures
            tokens::toks(r@) == iface_executor_contract_impl(
                self.interface_name@,
                self.associated_types.names(),
                reply::variants_view(self.variants@),
                tokens::toks(sylvia@),
            ),
    {
        let mut r: Vec<Tok> = Vec::new();
        tokens::push_ident(&mut r, "impl");
        tokens::push_punct(&mut r, '<');
        tokens::push_ident(&mut r, "Contract");
        tokens::push_punct(&mut r, ':');
        tokens::push_tok(&mut r, Tok::Ident(self.interface_name.clone()));
        tokens::push_punct(&mut r, '>');
        push_executor_for_builder(&mut r, sylvia);
        tokens::push_ident(&mut r, "Contract");
        tokens::push_tok(&mut r, Tok::Close(Delim::Paren));
        tokens::push_punct(&mut r, '>');
        tokens::push_tok(&mut r, Tok::Open(Delim::Brace));
        push_patterns(&mut r, self.associated_types, NamePattern::ContractDefinition, self.interface_name);
        executor::push_executor_impls(&mut r, self.variants, sylvia, api_path);
        tokens::push_tok(&mut r, Tok::Close(Delim::Brace));
        assert(tokens::toks(r@) =~= iface_executor_contract_impl(
            self.interface_name@,
            self.associated_types.names(),
            reply::variants_view(self.variants@),
            tokens::toks(sylvia@),
        ));
        r
    }

    /// The execution helpers of the interface: the trait, its implementation
    /// for the interface as a trait object, and for any contract implementing it.
    pub fn emit_executor_trait(&self, sylvia: &Vec<Tok>) -> (r: Vec<Tok>)
        ensures
            tokens::toks(r@) == iface_executor_tokens(
                self.interface_name@,
                self.associated_types.types(),
                self.associated_types.names(),
                reply::variants_view(self.variants@),
                tokens::toks(sylvia@),
            ),
    {
        let api_path = self.emit_api_path(sylvia);
        let mut r = self.emit_trait(sylvia);
        let d = self.emit_dyn_impl(sylvia, &api_path);
        let c = self.emit_contract_impl(sylvia, &api_path);
        tokens::extend_toks(&mut r, &d);
        tokens::extend_toks(&mut r, &c);
        r
    }
}

/// For each query of the interface, the generated `Querier` trait declares a
/// method, and both of its implementations define that method.
pub proof fn iface_querier_method_per_query(
    iname: Seq<char>,
    ts: Seq<TraitItemTypeV>,
    ns: Seq<Seq<char>>,
    vs: Seq<MsgVariantV>,
    sylvia: Seq<TokV>,
    k: int,
)
    requires
        0 <= k < vs.len(),
    ensures
        tokens::is_infix(querier::querier_decl(vs[k], sylvia), iface_querier_trait(ts, vs, sylvia)),
        tokens::is_infix(querier::querier_impl(vs[k], sylvia, iface_query_api(iname, ns)), iface_querier_dyn_impl(iname, ts, ns, vs, sylvia)),
        tokens::is_infix(querier::querier_impl(vs[k], sylvia, iface_query_api(iname, ns)), iface_querier_contract_impl(iname, ns, vs, sylvia)),
{
    let api = iface_query_api(iname, ns);
    let x = querier::querier_decl(vs[k], sylvia);
    let y = querier::querier_impl(vs[k], sylvia, api);
    tokens::lemma_concat_part(Seq::new(vs.len(), |i: int| querier::querier_decl(vs[i], sylvia)), k);
    tokens::lemma_concat_part(Seq::new(vs.len(), |i: int| querier::querier_impl(vs[i], sylvia, api)), k);
    let close = seq![TokV::Close(Delim::Brace)];
    let h1 = seq![tokens::id("pub"), tokens::id("trait"), tokens::id("Querier"), TokV::Open(Delim::Brace)] + trait_type_decls(ts);
    tokens::lemma_infix_within(x, querier_decls(vs, sylvia), h1, close);
    assert(h1 + querier_decls(vs, sylvia) + close =~= iface_querier_trait(ts, vs, sylvia));
    let h2 = querier_impl_start(sylvia) + patterns(NamePattern::Comma, iname, ns) + seq![tokens::pc('>')] + querier_for_bound(sylvia)
        + seq![tokens::id("dyn"), TokV::Ident(iname), tokens::pc('<')] + patterns(NamePattern::Binding, iname, ns) + seq![
        tokens::pc('>'),
        tokens::pc('>'),
    ] + assoc_where(ts) + seq![TokV::Open(Delim::Brace)] + patterns(NamePattern::Definition, iname, ns);
    tokens::lemma_infix_within(y, querier_impls(vs, sylvia, api), h2, close);
    assert(h2 + querier_impls(vs, sylvia, api) + close =~= iface_querier_dyn_impl(iname, ts, ns, vs, sylvia));
    let h3 = querier_impl_start(sylvia) + seq![tokens::id("Contract"), tokens::pc(':'), TokV::Ident(iname), tokens::pc('>')]
        + querier_for_bound(sylvia) + seq![tokens::id("Contract"), tokens::pc('>'), TokV::Open(Delim::Brace)] + patterns(
        NamePattern::ContractDefinition,
        iname,
        ns,
    );
    tokens::lemma_infix_within(y, querier_impls(vs, sylvia, api), h3, close);
    assert(h3 + querier_impls(vs, sylvia, api) + close =~= iface_querier_contract_impl(iname, ns, vs, sylvia));
}

/// For each execute message of the interface, the generated `Executor` trait
/// declares a method, and both of its implementations define that method.
pub proof fn iface_executor_method_per_message(
    iname: Seq<char>,
    ts: Seq<TraitItemTypeV>,
    ns: Seq<Seq<char>>,
    vs: Seq<MsgVariantV>,
    sylvia: Seq<TokV>,
    k: int,
)
    requires
        0 <= k < vs.len(),
    ensures
        tokens::is_infix(executor::executor_decl(vs[k], sylvia), iface_executor_trait(ts, vs, sylvia)),
        tokens::is_infix(
            executor::executor_impl(vs[k], sylvia, iface_exec_api(iname, ns, sylvia)),
            iface_executor_dyn_impl(iname, ts, ns, vs, sylvia),
        ),
        tokens::is_infix(
            executor::executor_impl(vs[k], sylvia, iface_exec_api(iname, ns, sylvia)),
            iface_executor_contract_impl(iname, ns, vs, sylvia),
        ),
{
    let api = iface_exec_api(iname, ns, sylvia);
    let x = executor::executor_decl(vs[k], sylvia);
    let y = executor::executor_impl(vs[k], sylvia, api);
    tokens::lemma_concat_part(Seq::new(vs.len(), |i: int| executor::executor_decl(vs[i], sylvia)), k);
    tokens::lemma_concat_part(Seq::new(vs.len(), |i: int| executor::executor_impl(vs[i], sylvia, api)), k);
    let close = seq![TokV::Close(Delim::Brace)];
    let h1 = seq![tokens::id("pub"), tokens::id("trait"), tokens::id("Executor"), TokV::Open(Delim::Brace)] + trait_type_decls(ts);
    tokens::lemma_infix_within(x, executor_decls(vs, sylvia), h1, close);
    assert(h1 + executor_decls(vs, sylvia) + close =~= iface_executor_trait(ts, vs, sylvia));
    let h2 = seq![tokens::id("impl"), tokens::pc('<')] + patterns(NamePattern::Comma, iname, ns) + seq![tokens::pc('>')]
        + executor_for_builder(sylvia) + seq![tokens::id("dyn"), TokV::Ident(iname), tokens::pc('<')] + patterns(
        NamePattern::Binding,
        iname,
        ns,
    ) + seq![tokens::pc('>'), TokV::Close(Delim::Paren), tokens::pc('>')] + assoc_where(ts) + seq![TokV::Open(Delim::Brace)]
        + patterns(NamePattern::Definition, iname, ns);
    tokens::lemma_infix_within(y, executor_impls(vs, sylvia, api), h2, close);
    assert(h2 + executor_impls(vs, sylvia, api) + close =~= iface_executor_dyn_impl(iname, ts, ns, vs, sylvia));
    let h3 = seq![tokens::id("impl"), tokens::pc('<'), tokens::id("Contract"), tokens::pc(':'), TokV::Ident(iname), tokens::pc('>')]
        + executor_for_builder(sylvia) + seq![tokens::id("Contract"), TokV::Close(Delim::Paren), tokens::pc('>'), TokV::Open(Delim::Brace)]
        + patterns(NamePattern::ContractDefinition, iname, ns);
    tokens::lemma_infix_within(y, executor_impls(vs, sylvia, api), h3, close);
    assert(h3 + executor_impls(vs, sylvia, api) + close =~= iface_executor_contract_impl(iname, ns, vs, sylvia));
}

} // verus!
