//! The `InterfaceMessagesApi` of an interface: the message types of each
//! kind, for any contract implementing the interface and for the interface
//! as a trait object.
use vstd::prelude::*;
use crate::associated_types::{comma_join, AssociatedTypes};
use crate::interface_helpers::{self, names_view, patterns, NamePattern};
use crate::tokens::{self, Delim, Tok, TokV};

verus! {

/// The associated types of the interface that the messages of each kind use.
pub struct UsedNames {
    pub execute: Vec<String>,
    pub query: Vec<String>,
    pub sudo: Vec<String>,
}

/// `pub trait InterfaceMessagesApi { type Exec ; type Query ; type Sudo ; }`
pub open spec fn messages_api_trait() -> Seq<TokV> {
    seq![
        tokens::id("pub"),
        tokens::id("trait"),
        tokens::id("InterfaceMessagesApi"),
        TokV::Open(Delim::Brace),
        tokens::id("type"),
        tokens::id("Exec"),
        tokens::pc(';'),
        tokens::id("type"),
        tokens::id("Query"),
        tokens::pc(';'),
        tokens::id("type"),
        tokens::id("Sudo"),
        tokens::pc(';'),
        TokV::Close(Delim::Brace),
    ]
}

/// `type Kind = KindMsg < args > ;`
pub open spec fn msg_alias(kind: &str, msg: &str, args: Seq<TokV>) -> Seq<TokV> {
    seq![tokens::id("type"), tokens::id(kind), tokens::pc('='), tokens::id(msg), tokens::pc('<')] + args + seq![
        tokens::pc('>'),
        tokens::pc(';'),
    ]
}

/// The three message types, each over the pattern `p` of the names it uses.
pub open spec fn msg_aliases(p: NamePattern, iname: Seq<char>, ex: Seq<Seq<char>>, q: Seq<Seq<char>>, su: Seq<Seq<char>>) -> Seq<TokV> {
    msg_alias("Exec", "ExecMsg", patterns(p, iname, ex)) + msg_alias("Query", "QueryMsg", patterns(p, iname, q)) + msg_alias(
        "Sudo",
        "SudoMsg",
        patterns(p, iname, su),
    )
}

/// `impl < Contract : Interface > InterfaceMessagesApi for Contract { .. }`, the
/// messages over the associated types of the contract.
pub open spec fn contract_messages_api(iname: Seq<char>, ex: Seq<Seq<char>>, q: Seq<Seq<char>>, su: Seq<Seq<char>>) -> Seq<TokV> {
    seq![
        tokens::id("impl"),
        tokens::pc('<'),
        tokens::id("Contract"),
        tokens::pc(':'),
        TokV::Ident(iname),
        tokens::pc('>'),
        tokens::id("InterfaceMessagesApi"),
        tokens::id("for"),
        tokens::id("Contract"),
        TokV::Open(Delim::Brace),
    ] + msg_aliases(NamePattern::ContractArg, iname, ex, q, su) + seq![TokV::Close(Delim::Brace)]
}

/// `impl < 'sv_iface_msg_api , Error , N1 , N2 > InterfaceMessagesApi for dyn Interface <
/// Error = Error , N1 = N1 , .. > + 'sv_iface_msg_api { .. }`, the messages over
/// the parameters standing for the associated types.
pub open spec fn dyn_messages_api(
    iname: Seq<char>,
    ns: Seq<Seq<char>>,
    ex: Seq<Seq<char>>,
    q: Seq<Seq<char>>,
    su: Seq<Seq<char>>,
) -> Seq<TokV> {
    seq![
        tokens::id("impl"),
        tokens::pc('<'),
        tokens::pc('\''),
        tokens::id("sv_iface_msg_api"),
        tokens::pc(','),
        tokens::id("Error"),
        tokens::pc(','),
    ] + comma_join(Seq::new(ns.len(), |i: int| seq![TokV::Ident(ns[i])])) + seq![
        tokens::pc('>'),
        tokens::id("InterfaceMessagesApi"),
        tokens::id("for"),
        tokens::id("dyn"),
        TokV::Ident(iname),
        tokens::pc('<'),
        tokens::id("Error"),
        tokens::pc('='),
        tokens::id("Error"),
        tokens::pc(','),
    ] + patterns(NamePattern::Binding, iname, ns) + seq![
        tokens::pc('>'),
        tokens::pc('+'),
        tokens::pc('\''),
        tokens::id("sv_iface_msg_api"),
        TokV::Open(Delim::Brace),
    ] + msg_aliases(NamePattern::Comma, iname, ex, q, su) + seq![TokV::Close(Delim::Brace)]
}

/// The `InterfaceMessagesApi` trait and its implementations.
pub open spec fn messages_api_tokens(
    iname: Seq<char>,
    ns: Seq<Seq<char>>,
    ex: Seq<Seq<char>>,
    q: Seq<Seq<char>>,
    su: Seq<Seq<char>>,
) -> Seq<TokV> {
    messages_api_trait() + contract_messages_api(iname, ex, q, su) + dyn_messages_api(iname, ns, ex, q, su)
}

/// Appends `type Kind = KindMsg < names in the pattern p > ;`.
fn push_msg_alias(dst: &mut Vec<Tok>, kind: &str, msg: &str, p: NamePattern, iname: &String, names: &Vec<String>)
    ensures
        tokens::toks(final(dst)@) == tokens::toks(old(dst)@) + msg_alias(kind, msg, patterns(p, iname@, names_view(names@))),
{
    let ghost s0 = tokens::toks(dst@);
    tokens::push_ident(dst, "type");
    tokens::push_ident(dst, kind);
    tokens::push_punct(dst, '=');
    tokens::push_ident(dst, msg);
    tokens::push_punct(dst, '<');
    interface_helpers::push_name_patterns(dst, names, p, iname);
    tokens::push_punct(dst, '>');
    tokens::push_punct(dst, ';');
    assert(tokens::toks(dst@) =~= s0 + msg_alias(kind, msg, patterns(p, iname@, names_view(names@))));
}

/// Appends the names of the associated types of `at`, separated by commas.
fn push_name_list(dst: &mut Vec<Tok>, at: &AssociatedTypes)
    ensures
        tokens::toks(final(dst)@) == tokens::toks(old(dst)@) + comma_join(
            Seq::new(at.names().len(), |i: int| seq![TokV::Ident(at.names()[i])]),
        ),
{
    let ghost ns = at.names();
    let ghost want = Seq::new(ns.len(), |i: int| seq![TokV::Ident(ns[i])]);
    let ghost start = tokens::toks(dst@);
    let mut k: usize = 0;
    assert(want.take(0) =~= Seq::<Seq<TokV>>::empty());
    assert(tokens::toks(dst@) =~= start + comma_join(want.take(0)));
    while k < at.0.len()
        invariant
            ns == at.names(),
            want == Seq::new(ns.len(), |i: int| seq![TokV::Ident(ns[i])]),
            k <= at.0.len(),
            tokens::toks(dst@) == start + comma_join(want.take(k as int)),
        decreases at.0.len() - k,
    {
        if k > 0 {
            tokens::push_punct(dst, ',');
        }
        tokens::push_tok(dst, Tok::Ident(at.0[k].ident.clone()));
        assert(want.take(k + 1).drop_last() =~= want.take(k as int));
        assert(want.take(k + 1).last() == seq![TokV::Ident(ns[k as int])]);
        assert(tokens::toks(dst@) =~= start + comma_join(want.take(k + 1)));
        k = k + 1;
    }
    assert(want.take(k as int) =~= want);
}

/// Generator of the `InterfaceMessagesApi` of an interface.
pub struct Api<'a> {
    /// The interface's name.
    pub interface_name: &'a String,
    /// Its associated types.
    pub associated_types: &'a AssociatedTypes<'a>,
    /// The associated types the messages of each kind use.
    pub used: UsedNames,
}

impl<'a> Api<'a> {
    /// The generator for the interface `interface_name` with the associated
    /// types `associated_types`, of which the messages of each kind use `used`.
    pub fn new(interface_name: &'a String, associated_types: &'a AssociatedTypes<'a>, used: UsedNames) -> (r: Api<'a>)
        ensures
            r.interface_name == interface_name,
            r.associated_types == associated_types,
            r.used == used,
    {
        Api { interface_name, associated_types, used }
    }

    fn emit_aliases(&self, p: NamePattern) -> (r: Vec<Tok>)
        ensures
            tokens::toks(r@) == msg_aliases(
                p,
                self.interface_name@,
                names_view(self.used.execute@),
                names_view(self.used.query@),
                names_view(self.used.sudo@),
            ),
    {
        let mut r: Vec<Tok> = Vec::new();
        push_msg_alias(&mut r, "Exec", "ExecMsg", p, self.interface_name, &self.used.execute);
        push_msg_alias(&mut r, "Query", "QueryMsg", p, self.interface_name, &self.used.query);
        push_msg_alias(&mut r, "Sudo", "SudoMsg", p, self.interface_name, &self.used.sudo);
        assert(tokens::toks(r@) =~= msg_aliases(
            p,
            self.interface_name@,
            names_view(self.used.execute@),
            names_view(self.used.query@),
            names_view(self.used.sudo@),
        ));
        r
    }

    fn emit_contract_impl(&self) -> (r: Vec<Tok>)
        ensures
            tokens::toks(r@) == contract_messages_api(
                self.interface_name@,
                names_view(self.used.execute@),
                names_view(self.used.query@),
                names_view(self.used.sudo@),
            ),
    {
        let mut r: Vec<Tok> = Vec::new();
        tokens::push_ident(&mut r, "impl");
        tokens::push_punct(&mut r, '<');
        tokens::push_ident(&mut r, "Contract");
        tokens::push_punct(&mut r, ':');
        tokens::push_tok(&mut r, Tok::Ident(self.interface_name.clone()));
        tokens::push_punct(&mut r, '>');
        tokens::push_ident(&mut r, "InterfaceMessagesApi");
        tokens::push_ident(&mut r, "for");
        tokens::push_ident(&mut r, "Contract");
        tokens::push_tok(&mut r, Tok::Open(Delim::Brace));
        let a = self.emit_aliases(NamePattern::ContractArg);
        tokens::extend_toks(&mut r, &a);
        tokens::push_tok(&mut r, Tok::Close(Delim::Brace));
        assert(tokens::toks(r@) =~= contract_messages_api(
            self.interface_name@,
            names_view(self.used.execute@),
            names_view(self.used.query@),
            names_view(self.used.sudo@),
        ));
        r
    }

    fn emit_dyn_impl(&self) -> (r: Vec<Tok>)
        ensures
            tokens::toks(r@) == dyn_messages_api(
                self.interface_name@,
                self.associated_types.names(),
                names_view(self.used.execute@),
                names_view(self.used.query@),
                names_view(self.used.sudo@),
            ),
    {
        let ghost ns = self.associated_types.names();
        let mut r: Vec<Tok> = vec![
            Tok::ident("impl"),
            Tok::Punct('<'),
            Tok::Punct('\''),
            Tok::ident("sv_iface_msg_api"),
            Tok::Punct(','),
            Tok::ident("Error"),
            Tok::Punct(','),
        ];
        push_name_list(&mut r, self.associated_types);
        tokens::push_punct(&mut r, '>');
        tokens::push_ident(&mut r, "InterfaceMessagesApi");
        tokens::push_ident(&mut r, "for");
        tokens::push_ident(&mut r, "dyn");
        tokens::push_tok(&mut r, Tok::Ident(self.interface_name.clone()));
        tokens::push_punct(&mut r, '<');
        tokens::push_ident(&mut r, "Error");
        tokens::push_punct(&mut r, '=');
        tokens::push_ident(&mut r, "Error");
        tokens::push_punct(&mut r, ',');
        interface_helpers::push_patterns(&mut r, self.associated_types, NamePattern::Binding, self.interface_name);
        tokens::push_punct(&mut r, '>');
        tokens::push_punct(&mut r, '+');
        tokens::push_punct(&mut r, '\'');
        tokens::push_ident(&mut r, "sv_iface_msg_api");
        tokens::push_tok(&mut r, Tok::Open(Delim::Brace));
        let a = self.emit_aliases(NamePattern::Comma);
        tokens::extend_toks(&mut r, &a);
        tokens::push_tok(&mut r, Tok::Close(Delim::Brace));
        assert(tokens::toks(r@) =~= dyn_messages_api(
            self.interface_name@,
            ns,
            names_view(self.used.execute@),
            names_view(self.used.query@),
            names_view(self.used.sudo@),
        ));
        r
    }

    /// The `InterfaceMessagesApi` trait of the interface and its implementations.
    pub fn emit(&self) -> (r: Vec<Tok>)
        ensures
            tokens::toks(r@) == messages_api_tokens(
                self.interface_name@,
                self.associated_types.names(),
                names_view(self.used.execute@),
                names_view(self.used.query@),
                names_view(self.used.sudo@),
            ),
    {
        let mut r: Vec<Tok> = vec![
            Tok::ident("pub"),
            Tok::ident("trait"),
            Tok::ident("InterfaceMessagesApi"),
            Tok::Open(Delim::Brace),
            Tok::ident("type"),
            Tok::ident("Exec"),
            Tok::Punct(';'),
            Tok::ident("type"),
            Tok::ident("Query"),
            Tok::Punct(';'),
            Tok::ident("type"),
            Tok::ident("Sudo"),
            Tok::Punct(';'),
            Tok::Close(Delim::Brace),
        ];
        assert(tokens::toks(r@) =~= messages_api_trait());
        let c = self.emit_contract_impl();
        let d = self.emit_dyn_impl();
        tokens::extend_toks(&mut r, &c);
        tokens::extend_toks(&mut r, &d);
        r
    }
}

} // verus!
