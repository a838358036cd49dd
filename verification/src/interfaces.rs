//! The interfaces a contract implements, declared by `#[sv::messages(..)]` (or `#[messages(..)]`).
use vstd::prelude::*;
use crate::diag::Diag;
use crate::msg_type::{self, MsgType};
use crate::parser::{self, Attribute, AttributeV, ContractMessageAttr, ContractMessageAttrV};
use crate::tokens::{self, Tok, TokV, Delim, ParseError};
use crate::associated_types::{self, comma_join};
use crate::entry_points::angle_args;

verus! {

/// The interfaces read from the attributes `as_`, with the errors and
/// warnings met on the way.
pub open spec fn interfaces_scan(as_: Seq<AttributeV>) -> (Seq<ContractMessageAttrV>, Seq<Diag>)
    decreases as_.len(),
{
    if as_.len() == 0 {
        (Seq::empty(), Seq::empty())
    } else {
        let (is, diags) = interfaces_scan(as_.drop_last());
        let k = (as_.len() - 1) as usize;
        let a = as_.last();
        if !parser::attr_named(a, "messages"@) {
            (is, diags)
        } else {
            match a.args {
                None => (is, diags.push(Diag::AttrParse { attr: k, error: ParseError::ExpectedList })),
                Some(ts) => match parser::p_contract_message_attr(ts) {
                    Err(e) => (is, diags.push(Diag::AttrParse { attr: k, error: e })),
                    Ok((i, w)) => (is.push(i), if w { diags.push(Diag::RedundantAs { attr: k, interface: is.len() as usize }) } else { diags }),
                },
            }
        }
    }
}

/// The values of a sequence of interfaces.
pub open spec fn interfaces_view(v: Seq<ContractMessageAttr>) -> Seq<ContractMessageAttrV> {
    Seq::new(v.len(), |i: int| v[i]@)
}

/// The interfaces of a contract.
#[derive(Debug)]
pub struct Interfaces {
    pub interfaces: Vec<ContractMessageAttr>,
}

/// The generic arguments of the interfaces, in order.
pub open spec fn all_generics(is: Seq<ContractMessageAttrV>) -> Seq<Seq<TokV>>
    decreases is.len(),
{
    if is.len() == 0 {
        Seq::empty()
    } else {
        all_generics(is.drop_last()) + is.last().generics
    }
}

/// `& module :: sv :: name ( )`
pub open spec fn messages_call(module: Seq<TokV>, name: Seq<char>) -> Seq<TokV> {
    seq![TokV::Punct('&')] + module + tokens::colon2() + seq![TokV::Ident("sv"@)] + tokens::colon2() + seq![
        TokV::Ident(name),
        TokV::Open(tokens::Delim::Paren),
        TokV::Close(tokens::Delim::Paren),
    ]
}

/// The name of the function listing the messages of a kind: `execute_messages`, ...
pub open spec fn messages_fn_name(ty: MsgType) -> Seq<char> {
    msg_type::ep_name(ty) + "_messages"@
}

impl Interfaces {
    /// The interfaces declared by the `messages` attributes among `attrs`;
    /// reports attributes that do not parse, and redundant `as` names.
    pub fn new(attrs: &Vec<Attribute>) -> (r: (Interfaces, Vec<Diag>))
        ensures
            interfaces_view(r.0.interfaces@) == interfaces_scan(parser::attrs_view(attrs@)).0,
            r.1@ == interfaces_scan(parser::attrs_view(attrs@)).1,
    {
        let ghost av = parser::attrs_view(attrs@);
        let mut is: Vec<ContractMessageAttr> = Vec::new();
        let mut diags: Vec<Diag> = Vec::new();
        let mut k: usize = 0;
        assert(interfaces_view(is@) =~= Seq::<ContractMessageAttrV>::empty());
        while k < attrs.len()
            invariant
                av == parser::attrs_view(attrs@),
                k <= attrs.len(),
                interfaces_scan(av.take(k as int)).1 == diags@,
                interfaces_scan(av.take(k as int)).0 == interfaces_view(is@),
            decreases attrs.len() - k,
        {
            assert(av.take(k + 1).drop_last() =~= av.take(k as int));
            assert(av.take(k + 1).last() == attrs@[k as int]@);
            let a = &attrs[k];
            if parser::attr_is_named(a, "messages") {
                match &a.args {
                    None => {
                        diags.push(Diag::AttrParse { attr: k, error: ParseError::ExpectedList });
                    },
                    Some(ts) => match ContractMessageAttr::parse(ts) {
                        Err(e) => {
                            diags.push(Diag::AttrParse { attr: k, error: e });
                        },
                        Ok((i, w)) => {
                            let ghost prev = is@;
                            let ghost iv = i@;
                            let n = is.len();
                            is.push(i);
                            assert(interfaces_view(is@) =~= interfaces_view(prev).push(iv));
                            if w {
                                diags.push(Diag::RedundantAs { attr: k, interface: n });
                            }
                        },
                    },
                }
            }
            k = k + 1;
        }
        assert(av.take(k as int) =~= av);
        (Interfaces { interfaces: is }, diags)
    }

    /// The interface of an interface implementation: the single declared
    /// one. With several, each one after the first is reported and there is none.
    pub fn get_only_interface(&self) -> (r: (Option<&ContractMessageAttr>, Vec<Diag>))
        ensures
            self.interfaces.len() == 0 ==> r.0 is None && r.1@.len() == 0,
            self.interfaces.len() == 1 ==> r.0 == Some(&self.interfaces@[0]) && r.1@.len() == 0,
            self.interfaces.len() > 1 ==> r.0 is None && r.1@ == Seq::new(
                (self.interfaces.len() - 1) as nat,
                |i: int| Diag::MessagesRedefined { attr: (i + 1) as usize, first: 0 },
            ),
    {
        let mut diags: Vec<Diag> = Vec::new();
        let n = self.interfaces.len();
        if n == 0 {
            (None, diags)
        } else if n == 1 {
            (Some(&self.interfaces[0]), diags)
        } else {
            let mut i: usize = 1;
            while i < n
                invariant
                    n == self.interfaces.len(),
                    1 <= i <= n,
                    diags@ == Seq::new((i - 1) as nat, |q: int| Diag::MessagesRedefined { attr: (q + 1) as usize, first: 0 }),
                decreases n - i,
            {
                diags.push(Diag::MessagesRedefined { attr: i, first: 0 });
                assert(diags@ =~= Seq::new(i as nat, |q: int| Diag::MessagesRedefined { attr: (q + 1) as usize, first: 0 }));
                i = i + 1;
            }
            (None, diags)
        }
    }

    /// The generic arguments of all the interfaces, in order.
    pub fn as_generic_args(&self) -> (r: Vec<Vec<Tok>>)
        ensures
            parser::toks2(r@) == all_generics(interfaces_view(self.interfaces@)),
    {
        let ghost iv = interfaces_view(self.interfaces@);
        let mut r: Vec<Vec<Tok>> = Vec::new();
        let mut i: usize = 0;
        assert(iv.take(0) =~= Seq::<ContractMessageAttrV>::empty());
        assert(parser::toks2(r@) =~= Seq::<Seq<TokV>>::empty());
        while i < self.interfaces.len()
            invariant
                iv == interfaces_view(self.interfaces@),
                i <= self.interfaces.len(),
                parser::toks2(r@) == all_generics(iv.take(i as int)),
            decreases self.interfaces.len() - i,
        {
            assert(iv.take(i + 1).drop_last() =~= iv.take(i as int));
            assert(iv.take(i + 1).last() == self.interfaces@[i as int]@);
            let g = &self.interfaces[i].generics;
            let ghost base = parser::toks2(r@);
            let mut j: usize = 0;
            while j < g.len()
                invariant
                    j <= g.len(),
                    parser::toks2(r@) == base + parser::toks2(g@).take(j as int),
                decreases g.len() - j,
            {
                let ghost prev = r@;
                r.push(tokens::copy_toks(&g[j]));
                assert(parser::toks2(r@) =~= parser::toks2(prev).push(tokens::toks(g@[j as int]@)));
                assert(parser::toks2(g@).take(j + 1) =~= parser::toks2(g@).take(j as int).push(tokens::toks(g@[j as int]@)));
                j = j + 1;
            }
            assert(parser::toks2(g@).take(j as int) =~= parser::toks2(g@));
            i = i + 1;
        }
        assert(iv.take(i as int) =~= iv);
        r
    }

    /// For each interface, `& module :: sv :: {entry point}_messages ( )`,
    /// the call listing its messages of kind `msg_ty`.
    pub fn emit_messages_call(&self, msg_ty: &MsgType) -> (r: Vec<Vec<Tok>>)
        ensures
            r@.len() == self.interfaces.len(),
            forall|i: int|
                0 <= i < r@.len() ==> tokens::toks((#[trigger] r@[i])@) == messages_call(
                    tokens::toks(self.interfaces@[i].module@),
                    messages_fn_name(*msg_ty),
                ),
    {
        let mut r: Vec<Vec<Tok>> = Vec::new();
        let mut i: usize = 0;
        while i < self.interfaces.len()
            invariant
                i <= self.interfaces.len(),
                r@.len() == i,
                forall|q: int|
                    0 <= q < i ==> tokens::toks((#[trigger] r@[q])@) == messages_call(
                        tokens::toks(self.interfaces@[q].module@),
                        messages_fn_name(*msg_ty),
                    ),
            decreases self.interfaces.len() - i,
        {
            let c = messages_call_exec(&self.interfaces[i], *msg_ty);
            r.push(c);
            i = i + 1;
        }
        r
    }
}

/// `< args >`, or nothing without arguments.
pub open spec fn opt_angle_args(g: Seq<Seq<TokV>>) -> Seq<TokV> {
    if g.len() == 0 {
        Seq::empty()
    } else {
        angle_args(g)
    }
}

/// `g1 , g2 , .. ,`: each sequence followed by a comma.
pub open spec fn each_with_comma(gs: Seq<Seq<TokV>>) -> Seq<TokV>
    decreases gs.len(),
{
    if gs.len() == 0 {
        Seq::empty()
    } else {
        each_with_comma(gs.drop_last()) + gs.last() + seq![tokens::pc(',')]
    }
}

/// The lifetime `'a`.
pub open spec fn lifetime_a() -> Seq<TokV> {
    seq![tokens::pc('\''), tokens::id("a")]
}

/// `module :: sv :: item`
pub open spec fn sv_item(module: Seq<TokV>, item: Seq<char>) -> Seq<TokV> {
    module + tokens::colon2() + seq![tokens::id("sv")] + tokens::colon2() + seq![TokV::Ident(item)]
}

/// `< module :: sv :: Api < generics > as sylvia :: types :: InterfaceApi >`
pub open spec fn interface_api(sylvia: Seq<TokV>, i: ContractMessageAttrV) -> Seq<TokV> {
    seq![tokens::pc('<')] + sv_item(i.module, "Api"@) + opt_angle_args(i.generics) + seq![tokens::id("as")] + sylvia
        + tokens::colon2() + seq![tokens::id("types")] + tokens::colon2() + seq![tokens::id("InterfaceApi"), tokens::pc('>')]
}

/// The variant of the contract's message of kind `ty` wrapping the
/// interface's message: `Variant ( <Api as InterfaceApi> :: Kind )`.
pub open spec fn glue_variant(sylvia: Seq<TokV>, i: ContractMessageAttrV, ty: MsgType) -> Seq<TokV> {
    seq![TokV::Ident(i.variant), TokV::Open(Delim::Paren)] + interface_api(sylvia, i) + tokens::colon2() + seq![
        TokV::Ident(msg_type::accessor_name(ty, false)),
        TokV::Close(Delim::Paren),
    ]
}

/// `<Api as InterfaceApi> :: Kind :: response_schemas_impl ( )`
pub open spec fn response_schemas_call(sylvia: Seq<TokV>, i: ContractMessageAttrV, ty: MsgType) -> Seq<TokV> {
    interface_api(sylvia, i) + tokens::colon2() + seq![TokV::Ident(msg_type::accessor_name(ty, false))] + tokens::colon2()
        + seq![tokens::id("response_schemas_impl"), TokV::Open(Delim::Paren), TokV::Close(Delim::Paren)]
}

/// `Self :: variant`
pub open spec fn self_variant(variant: Seq<char>) -> Seq<TokV> {
    seq![tokens::id("Self")] + tokens::colon2() + seq![TokV::Ident(variant)]
}

/// The deserialization attempt of the contract's message for one
/// interface: when the received message name is one of the interface's
/// messages of kind `ty`, the value is deserialized into the interface's
/// variant and returned, or the error is.
pub open spec fn deserialization_attempt(i: ContractMessageAttrV, ty: MsgType) -> Seq<TokV> {
    seq![tokens::id("let"), tokens::id("msgs"), tokens::pc('=')] + messages_call(i.module, messages_fn_name(ty)) + seq![
        tokens::pc(';'),
        tokens::id("if"),
        tokens::id("msgs"),
        tokens::pc('.'),
        tokens::id("into_iter"),
        TokV::Open(Delim::Paren),
        TokV::Close(Delim::Paren),
        tokens::pc('.'),
        tokens::id("any"),
        TokV::Open(Delim::Paren),
        tokens::pc('|'),
        tokens::id("msg"),
        tokens::pc('|'),
        tokens::id("msg"),
        tokens::pc('='),
        tokens::pc('='),
        tokens::pc('&'),
        tokens::id("recv_msg_name"),
        TokV::Close(Delim::Paren),
        TokV::Open(Delim::Brace),
        tokens::id("match"),
        tokens::id("val"),
        tokens::pc('.'),
        tokens::id("deserialize_into"),
        TokV::Open(Delim::Paren),
        TokV::Close(Delim::Paren),
        TokV::Open(Delim::Brace),
        tokens::id("Ok"),
        TokV::Open(Delim::Paren),
        tokens::id("msg"),
        TokV::Close(Delim::Paren),
        tokens::pc('='),
        tokens::pc('>'),
        tokens::id("return"),
        tokens::id("Ok"),
        TokV::Open(Delim::Paren),
    ] + self_variant(i.variant) + seq![
        TokV::Open(Delim::Paren),
        tokens::id("msg"),
        TokV::Close(Delim::Paren),
        TokV::Close(Delim::Paren),
        tokens::pc(','),
        tokens::id("Err"),
        TokV::Open(Delim::Paren),
        tokens::id("err"),
        TokV::Close(Delim::Paren),
        tokens::pc('='),
        tokens::pc('>'),
        tokens::id("return"),
        tokens::id("Err"),
        TokV::Open(Delim::Paren),
        tokens::id("D"),
        tokens::pc(':'),
        tokens::pc(':'),
        tokens::id("Error"),
        tokens::pc(':'),
        tokens::pc(':'),
        tokens::id("custom"),
        TokV::Open(Delim::Paren),
        tokens::id("err"),
        TokV::Close(Delim::Paren),
        TokV::Close(Delim::Paren),
        tokens::pc('.'),
        tokens::id("map"),
        TokV::Open(Delim::Paren),
    ] + self_variant(i.variant) + seq![
        TokV::Close(Delim::Paren),
        tokens::pc(','),
        TokV::Close(Delim::Brace),
        tokens::pc(';'),
        TokV::Close(Delim::Brace),
    ]
}

/// `Name < 'a , [C ,] g1 , g2 , .. , >`: a type of the contract's module
/// over the lifetime, the custom query when `with_c`, and the contract's generics.
pub open spec fn local_generic_type(name: Seq<char>, with_c: bool, cg: Seq<Seq<TokV>>) -> Seq<TokV> {
    seq![TokV::Ident(name), tokens::pc('<')] + lifetime_a() + seq![tokens::pc(',')] + (if with_c {
        seq![tokens::id("C"), tokens::pc(',')]
    } else {
        Seq::empty()
    }) + each_with_comma(cg) + seq![tokens::pc('>')]
}

/// `impl < params > From < & 'a local > for target { fn from ( arg : & 'a local ) -> Self { body } }`
pub open spec fn from_impl(params: Seq<TokV>, local: Seq<TokV>, target: Seq<TokV>, arg: Seq<char>, body: Seq<TokV>) -> Seq<TokV> {
    seq![tokens::id("impl"), tokens::pc('<')] + params + seq![tokens::pc('>'), tokens::id("From"), tokens::pc('<'), tokens::pc('&')]
        + lifetime_a() + local + seq![tokens::pc('>'), tokens::id("for")] + target + seq![
        TokV::Open(Delim::Brace),
        tokens::id("fn"),
        tokens::id("from"),
        TokV::Open(Delim::Paren),
        TokV::Ident(arg),
        tokens::pc(':'),
        tokens::pc('&'),
    ] + lifetime_a() + local + seq![
        TokV::Close(Delim::Paren),
        tokens::pc('-'),
        tokens::pc('>'),
        tokens::id("Self"),
        TokV::Open(Delim::Brace),
    ] + body + seq![TokV::Close(Delim::Brace), TokV::Close(Delim::Brace)]
}

/// `'a , C : sylvia :: cw_std :: CustomQuery , g1 , .. ,`
pub open spec fn querier_params(sylvia: Seq<TokV>, cg: Seq<Seq<TokV>>) -> Seq<TokV> {
    lifetime_a() + seq![tokens::pc(','), tokens::id("C"), tokens::pc(':')] + msg_type::cw_std_item(sylvia, "CustomQuery")
        + seq![tokens::pc(',')] + each_with_comma(cg)
}

/// `module :: sv :: BoundQuerier < 'a , C , generics >`
pub open spec fn querier_target(i: ContractMessageAttrV) -> Seq<TokV> {
    sv_item(i.module, "BoundQuerier"@) + seq![tokens::pc('<')] + lifetime_a() + seq![
        tokens::pc(','),
        tokens::id("C"),
        tokens::pc(','),
    ] + comma_join(i.generics) + seq![tokens::pc('>')]
}

/// `Self :: borrowed ( querier . contract ( ) , querier . querier ( ) )`
pub open spec fn querier_body() -> Seq<TokV> {
    self_variant("borrowed"@) + seq![
        TokV::Open(Delim::Paren),
        tokens::id("querier"),
        tokens::pc('.'),
        tokens::id("contract"),
        TokV::Open(Delim::Paren),
        TokV::Close(Delim::Paren),
        tokens::pc(','),
        tokens::id("querier"),
        tokens::pc('.'),
        tokens::id("querier"),
        TokV::Open(Delim::Paren),
        TokV::Close(Delim::Paren),
        TokV::Close(Delim::Paren),
    ]
}

/// The conversion from the contract's bound querier to the interface's:
/// `impl<'a, C: CustomQuery, ..> From<&'a BoundQuerier<'a, C, ..>> for
/// module::sv::BoundQuerier<'a, C, generics> { fn from(querier: ..) -> Self {
/// Self::borrowed(querier.contract(), querier.querier()) } }`.
pub open spec fn querier_from_impl(sylvia: Seq<TokV>, i: ContractMessageAttrV, cg: Seq<Seq<TokV>>) -> Seq<TokV> {
    from_impl(
        querier_params(sylvia, cg),
        local_generic_type("BoundQuerier"@, true, cg),
        querier_target(i),
        "querier"@,
        querier_body(),
    )
}

/// `'a , g1 , .. ,`
pub open spec fn remote_params(cg: Seq<Seq<TokV>>) -> Seq<TokV> {
    lifetime_a() + seq![tokens::pc(',')] + each_with_comma(cg)
}

/// `module :: sv :: Remote < 'a , generics >`
pub open spec fn remote_target(i: ContractMessageAttrV) -> Seq<TokV> {
    sv_item(i.module, "Remote"@) + seq![tokens::pc('<')] + lifetime_a() + seq![tokens::pc(',')] + comma_join(i.generics)
        + seq![tokens::pc('>')]
}

/// `module :: sv :: Remote :: borrowed ( remote . as_ref ( ) )`
pub open spec fn remote_body(i: ContractMessageAttrV) -> Seq<TokV> {
    sv_item(i.module, "Remote"@) + tokens::colon2() + seq![
        tokens::id("borrowed"),
        TokV::Open(Delim::Paren),
        tokens::id("remote"),
        tokens::pc('.'),
        tokens::id("as_ref"),
        TokV::Open(Delim::Paren),
        TokV::Close(Delim::Paren),
        TokV::Close(Delim::Paren),
    ]
}

/// The conversion from the contract's remote to the interface's:
/// `impl<'a, ..> From<&'a Remote<'a, ..>> for module::sv::Remote<'a, generics>
/// { fn from(remote: ..) -> Self { module::sv::Remote::borrowed(remote.as_ref()) } }`.
pub open spec fn remote_from_impl(i: ContractMessageAttrV, cg: Seq<Seq<TokV>>) -> Seq<TokV> {
    from_impl(remote_params(cg), local_generic_type("Remote"@, false, cg), remote_target(i), "remote"@, remote_body(i))
}

/// Appends `'a`.
fn push_lifetime_a(dst: &mut Vec<Tok>)
    ensures
        tokens::toks(final(dst)@) == tokens::toks(old(dst)@) + lifetime_a(),
{
    tokens::push_punct(dst, '\'');
    tokens::push_ident(dst, "a");
    assert(tokens::toks(dst@) =~= tokens::toks(old(dst)@) + lifetime_a());
}

/// Appends each token sequence of `gs` followed by a comma.
pub(crate) fn push_each_with_comma(dst: &mut Vec<Tok>, gs: &Vec<Vec<Tok>>)
    ensures
        tokens::toks(final(dst)@) == tokens::toks(old(dst)@) + each_with_comma(parser::toks2(gs@)),
{
    let ghost start = tokens::toks(dst@);
    let ghost ps = parser::toks2(gs@);
    let mut k: usize = 0;
    assert(ps.take(0) =~= Seq::<Seq<TokV>>::empty());
    assert(tokens::toks(dst@) =~= start + each_with_comma(ps.take(0)));
    while k < gs.len()
        invariant
            ps == parser::toks2(gs@),
            k <= gs.len(),
            tokens::toks(dst@) == start + each_with_comma(ps.take(k as int)),
        decreases gs.len() - k,
    {
        tokens::extend_toks(dst, &gs[k]);
        tokens::push_punct(dst, ',');
        assert(ps.take(k + 1).drop_last() =~= ps.take(k as int));
        assert(ps.take(k + 1).last() == tokens::toks(gs@[k as int]@));
        assert(tokens::toks(dst@) =~= start + each_with_comma(ps.take(k + 1)));
        k = k + 1;
    }
    assert(ps.take(k as int) =~= ps);
}

/// Appends `module :: sv :: item`.
fn push_sv_item(dst: &mut Vec<Tok>, module: &Vec<Tok>, item: &str)
    ensures
        tokens::toks(final(dst)@) == tokens::toks(old(dst)@) + sv_item(tokens::toks(module@), item@),
{
    tokens::extend_toks(dst, module);
    tokens::push_punct(dst, ':');
    tokens::push_punct(dst, ':');
    tokens::push_ident(dst, "sv");
    tokens::push_punct(dst, ':');
    tokens::push_punct(dst, ':');
    tokens::push_ident(dst, item);
    assert(tokens::toks(dst@) =~= tokens::toks(old(dst)@) + sv_item(tokens::toks(module@), item@));
}

/// Appends `Self :: variant`.
fn push_self_variant(dst: &mut Vec<Tok>, variant: &String)
    ensures
        tokens::toks(final(dst)@) == tokens::toks(old(dst)@) + self_variant(variant@),
{
    tokens::push_ident(dst, "Self");
    tokens::push_punct(dst, ':');
    tokens::push_punct(dst, ':');
    tokens::push_tok(dst, Tok::Ident(variant.clone()));
    assert(tokens::toks(dst@) =~= tokens::toks(old(dst)@) + self_variant(variant@));
}

/// Appends `< module :: sv :: Api < generics > as sylvia :: types :: InterfaceApi >`.
pub(crate) fn push_interface_api(dst: &mut Vec<Tok>, sylvia: &Vec<Tok>, i: &ContractMessageAttr)
    ensures
        tokens::toks(final(dst)@) == tokens::toks(old(dst)@) + interface_api(tokens::toks(sylvia@), i@),
{
    let ghost s0 = tokens::toks(dst@);
    tokens::push_punct(dst, '<');
    push_sv_item(dst, &i.module, "Api");
    let ghost s1 = tokens::toks(dst@);
    if i.generics.len() > 0 {
        tokens::push_punct(dst, '<');
        associated_types::push_comma_joined(dst, &i.generics);
        tokens::push_punct(dst, '>');
    }
    assert(tokens::toks(dst@) =~= s1 + opt_angle_args(i@.generics));
    tokens::push_ident(dst, "as");
    tokens::extend_toks(dst, sylvia);
    tokens::push_punct(dst, ':');
    tokens::push_punct(dst, ':');
    tokens::push_ident(dst, "types");
    tokens::push_punct(dst, ':');
    tokens::push_punct(dst, ':');
    tokens::push_ident(dst, "InterfaceApi");
    tokens::push_punct(dst, '>');
    assert(tokens::toks(dst@) =~= s0 + interface_api(tokens::toks(sylvia@), i@));
}

/// Appends `Name < 'a , [C ,] g1 , .. , >`.
fn push_local_generic_type(dst: &mut Vec<Tok>, name: &str, with_c: bool, cg: &Vec<Vec<Tok>>)
    ensures
        tokens::toks(final(dst)@) == tokens::toks(old(dst)@) + local_generic_type(name@, with_c, parser::toks2(cg@)),
{
    let ghost s0 = tokens::toks(dst@);
    tokens::push_ident(dst, name);
    tokens::push_punct(dst, '<');
    push_lifetime_a(dst);
    tokens::push_punct(dst, ',');
    if with_c {
        tokens::push_ident(dst, "C");
        tokens::push_punct(dst, ',');
    }
    let ghost s1 = tokens::toks(dst@);
    push_each_with_comma(dst, cg);
    tokens::push_punct(dst, '>');
    assert(tokens::toks(dst@) =~= s0 + local_generic_type(name@, with_c, parser::toks2(cg@)));
}

/// The glue variant of one interface.
fn glue_variant_exec(sylvia: &Vec<Tok>, i: &ContractMessageAttr, ty: MsgType) -> (r: Vec<Tok>)
    ensures
        tokens::toks(r@) == glue_variant(tokens::toks(sylvia@), i@, ty),
{
    let mut r: Vec<Tok> = Vec::new();
    tokens::push_tok(&mut r, Tok::Ident(i.variant.clone()));
    tokens::push_tok(&mut r, Tok::Open(Delim::Paren));
    push_interface_api(&mut r, sylvia, i);
    tokens::push_punct(&mut r, ':');
    tokens::push_punct(&mut r, ':');
    let acc = match ty.as_accessor_name(false) {
        Some(a) => a,
        None => String::new(),
    };
    tokens::push_tok(&mut r, Tok::Ident(acc));
    tokens::push_tok(&mut r, Tok::Close(Delim::Paren));
    assert(tokens::toks(r@) =~= glue_variant(tokens::toks(sylvia@), i@, ty));
    r
}

/// The response schemas call of one interface.
fn response_schemas_call_exec(sylvia: &Vec<Tok>, i: &ContractMessageAttr, ty: MsgType) -> (r: Vec<Tok>)
    ensures
        tokens::toks(r@) == response_schemas_call(tokens::toks(sylvia@), i@, ty),
{
    let mut r: Vec<Tok> = Vec::new();
    push_interface_api(&mut r, sylvia, i);
    tokens::push_punct(&mut r, ':');
    tokens::push_punct(&mut r, ':');
    let acc = match ty.as_accessor_name(false) {
        Some(a) => a,
        None => String::new(),
    };
    tokens::push_tok(&mut r, Tok::Ident(acc));
    tokens::push_punct(&mut r, ':');
    tokens::push_punct(&mut r, ':');
    tokens::push_ident(&mut r, "response_schemas_impl");
    tokens::push_tok(&mut r, Tok::Open(Delim::Paren));
    tokens::push_tok(&mut r, Tok::Close(Delim::Paren));
    assert(tokens::toks(r@) =~= response_schemas_call(tokens::toks(sylvia@), i@, ty));
    r
}

/// `& module :: sv :: {kind}_messages ( )` for one interface.
fn messages_call_exec(i: &ContractMessageAttr, ty: MsgType) -> (r: Vec<Tok>)
    ensures
        tokens::toks(r@) == messages_call(i@.module, messages_fn_name(ty)),
{
    let mut name = ty.emit_ep_name();
    name.append("_messages");
    let mut c: Vec<Tok> = Vec::new();
    tokens::push_punct(&mut c, '&');
    tokens::extend_toks(&mut c, &i.module);
    tokens::push_punct(&mut c, ':');
    tokens::push_punct(&mut c, ':');
    tokens::push_ident(&mut c, "sv");
    tokens::push_punct(&mut c, ':');
    tokens::push_punct(&mut c, ':');
    tokens::push_tok(&mut c, Tok::Ident(name));
    tokens::push_tok(&mut c, Tok::Open(Delim::Paren));
    tokens::push_tok(&mut c, Tok::Close(Delim::Paren));
    assert(tokens::toks(c@) =~= messages_call(i@.module, messages_fn_name(ty)));
    c
}

/// The deserialization attempt for one interface.
fn deserialization_attempt_exec(i: &ContractMessageAttr, ty: MsgType) -> (r: Vec<Tok>)
    ensures
        tokens::toks(r@) == deserialization_attempt(i@, ty),
{
    let mut r: Vec<Tok> = Vec::new();
    let dst = &mut r;
    tokens::push_ident(dst, "let");
    tokens::push_ident(dst, "msgs");
    tokens::push_punct(dst, '=');
    let call = messages_call_exec(i, ty);
    tokens::extend_toks(dst, &call);
    let c1: Vec<Tok> = vec![Tok::Punct(';'), Tok::ident("if"), Tok::ident("msgs"), Tok::Punct('.'), Tok::ident("into_iter"), Tok::Open(Delim::Paren), Tok::Close(Delim::Paren), Tok::Punct('.'), Tok::ident("any"), Tok::Open(Delim::Paren), Tok::Punct('|'), Tok::ident("msg"), Tok::Punct('|'), Tok::ident("msg"), Tok::Punct('='), Tok::Punct('='), Tok::Punct('&'), Tok::ident("recv_msg_name"), Tok::Close(Delim::Paren), Tok::Open(Delim::Brace), Tok::ident("match"), Tok::ident("val"), Tok::Punct('.'), Tok::ident("deserialize_into"), Tok::Open(Delim::Paren), Tok::Close(Delim::Paren), Tok::Open(Delim::Brace), Tok::ident("Ok"), Tok::Open(Delim::Paren), Tok::ident("msg"), Tok::Close(Delim::Paren), Tok::Punct('='), Tok::Punct('>'), Tok::ident("return"), Tok::ident("Ok"), Tok::Open(Delim::Paren)];
    assert(tokens::toks(c1@) =~= seq![tokens::pc(';'), tokens::id("if"), tokens::id("msgs"), tokens::pc('.'), tokens::id("into_iter"), TokV::Open(Delim::Paren), TokV::Close(Delim::Paren), tokens::pc('.'), tokens::id("any"), TokV::Open(Delim::Paren), tokens::pc('|'), tokens::id("msg"), tokens::pc('|'), tokens::id("msg"), tokens::pc('='), tokens::pc('='), tokens::pc('&'), tokens::id("recv_msg_name"), TokV::Close(Delim::Paren), TokV::Open(Delim::Brace), tokens::id("match"), tokens::id("val"), tokens::pc('.'), tokens::id("deserialize_into"), TokV::Open(Delim::Paren), TokV::Close(Delim::Paren), TokV::Open(Delim::Brace), tokens::id("Ok"), TokV::Open(Delim::Paren), tokens::id("msg"), TokV::Close(Delim::Paren), tokens::pc('='), tokens::pc('>'), tokens::id("return"), tokens::id("Ok"), TokV::Open(Delim::Paren)]);
    tokens::extend_toks(dst, &c1);
    push_self_variant(dst, &i.variant);
    let c2: Vec<Tok> = vec![Tok::Open(Delim::Paren), Tok::ident("msg"), Tok::Close(Delim::Paren), Tok::Close(Delim::Paren), Tok::Punct(','), Tok::ident("Err"), Tok::Open(Delim::Paren), Tok::ident("err"), Tok::Close(Delim::Paren), Tok::Punct('='), Tok::Punct('>'), Tok::ident("return"), Tok::ident("Err"), Tok::Open(Delim::Paren), Tok::ident("D"), Tok::Punct(':'), Tok::Punct(':'), Tok::ident("Error"), Tok::Punct(':'), Tok::Punct(':'), Tok::ident("custom"), Tok::Open(Delim::Paren), Tok::ident("err"), Tok::Close(Delim::Paren), Tok::Close(Delim::Paren), Tok::Punct('.'), Tok::ident("map"), Tok::Open(Delim::Paren)];
    assert(tokens::toks(c2@) =~= seq![TokV::Open(Delim::Paren), tokens::id("msg"), TokV::Close(Delim::Paren), TokV::Close(Delim::Paren), tokens::pc(','), tokens::id("Err"), TokV::Open(Delim::Paren), tokens::id("err"), TokV::Close(Delim::Paren), tokens::pc('='), tokens::pc('>'), tokens::id("return"), tokens::id("Err"), TokV::Open(Delim::Paren), tokens::id("D"), tokens::pc(':'), tokens::pc(':'), tokens::id("Error"), tokens::pc(':'), tokens::pc(':'), tokens::id("custom"), TokV::Open(Delim::Paren), tokens::id("err"), TokV::Close(Delim::Paren), TokV::Close(Delim::Paren), tokens::pc('.'), tokens::id("map"), TokV::Open(Delim::Paren)]);
    tokens::extend_toks(dst, &c2);
    push_self_variant(dst, &i.variant);
    let c3: Vec<Tok> = vec![Tok::Close(Delim::Paren), Tok::Punct(','), Tok::Close(Delim::Brace), Tok::Punct(';'), Tok::Close(Delim::Brace)];
    assert(tokens::toks(c3@) =~= seq![TokV::Close(Delim::Paren), tokens::pc(','), TokV::Close(Delim::Brace), tokens::pc(';'), TokV::Close(Delim::Brace)]);
    tokens::extend_toks(dst, &c3);
    assert(tokens::toks(dst@) =~= deserialization_attempt(i@, ty));
    r
}

/// Appends `impl < params > From < & 'a local > for target { fn from ( arg : & 'a local ) -> Self { body } }`.
fn push_from_impl(dst: &mut Vec<Tok>, params: &Vec<Tok>, local: &Vec<Tok>, target: &Vec<Tok>, arg: &str, body: &Vec<Tok>)
    ensures
        tokens::toks(final(dst)@) == tokens::toks(old(dst)@) + from_impl(
            tokens::toks(params@),
            tokens::toks(local@),
            tokens::toks(target@),
            arg@,
            tokens::toks(body@),
        ),
{
    let ghost s0 = tokens::toks(dst@);
    tokens::push_ident(dst, "impl");
    tokens::push_punct(dst, '<');
    tokens::extend_toks(dst, params);
    let k1: Vec<Tok> = vec![Tok::Punct('>'), Tok::ident("From"), Tok::Punct('<'), Tok::Punct('&')];
    assert(tokens::toks(k1@) =~= seq![tokens::pc('>'), tokens::id("From"), tokens::pc('<'), tokens::pc('&')]);
    tokens::extend_toks(dst, &k1);
    push_lifetime_a(dst);
    tokens::extend_toks(dst, local);
    tokens::push_punct(dst, '>');
    tokens::push_ident(dst, "for");
    tokens::extend_toks(dst, target);
    let k2: Vec<Tok> = vec![Tok::Open(Delim::Brace), Tok::ident("fn"), Tok::ident("from"), Tok::Open(Delim::Paren), Tok::ident(arg), Tok::Punct(':'), Tok::Punct('&')];
    assert(tokens::toks(k2@) =~= seq![TokV::Open(Delim::Brace), tokens::id("fn"), tokens::id("from"), TokV::Open(Delim::Paren), TokV::Ident(arg@), tokens::pc(':'), tokens::pc('&')]);
    tokens::extend_toks(dst, &k2);
    push_lifetime_a(dst);
    tokens::extend_toks(dst, local);
    let k3: Vec<Tok> = vec![Tok::Close(Delim::Paren), Tok::Punct('-'), Tok::Punct('>'), Tok::ident("Self"), Tok::Open(Delim::Brace)];
    assert(tokens::toks(k3@) =~= seq![TokV::Close(Delim::Paren), tokens::pc('-'), tokens::pc('>'), tokens::id("Self"), TokV::Open(Delim::Brace)]);
    tokens::extend_toks(dst, &k3);
    tokens::extend_toks(dst, body);
    tokens::push_tok(dst, Tok::Close(Delim::Brace));
    tokens::push_tok(dst, Tok::Close(Delim::Brace));
    assert(tokens::toks(dst@) =~= s0 + from_impl(
        tokens::toks(params@),
        tokens::toks(local@),
        tokens::toks(target@),
        arg@,
        tokens::toks(body@),
    ));
}

/// The conversion of bound queriers for one interface.
fn querier_from_impl_exec(sylvia: &Vec<Tok>, i: &ContractMessageAttr, cg: &Vec<Vec<Tok>>) -> (r: Vec<Tok>)
    ensures
        tokens::toks(r@) == querier_from_impl(tokens::toks(sylvia@), i@, parser::toks2(cg@)),
{
    let mut params: Vec<Tok> = Vec::new();
    push_lifetime_a(&mut params);
    tokens::push_punct(&mut params, ',');
    tokens::push_ident(&mut params, "C");
    tokens::push_punct(&mut params, ':');
    crate::msg_type::push_cw_std_item(&mut params, sylvia, "CustomQuery");
    tokens::push_punct(&mut params, ',');
    push_each_with_comma(&mut params, cg);
    assert(tokens::toks(params@) =~= querier_params(tokens::toks(sylvia@), parser::toks2(cg@)));
    let mut local: Vec<Tok> = Vec::new();
    push_local_generic_type(&mut local, "BoundQuerier", true, cg);
    let mut target: Vec<Tok> = Vec::new();
    push_sv_item(&mut target, &i.module, "BoundQuerier");
    tokens::push_punct(&mut target, '<');
    push_lifetime_a(&mut target);
    tokens::push_punct(&mut target, ',');
    tokens::push_ident(&mut target, "C");
    tokens::push_punct(&mut target, ',');
    associated_types::push_comma_joined(&mut target, &i.generics);
    tokens::push_punct(&mut target, '>');
    proof {
        reveal_strlit("BoundQuerier");
        reveal_strlit("borrowed");
        reveal_strlit("querier");
    }
    assert(tokens::toks(target@) =~= querier_target(i@));
    let body: Vec<Tok> = vec![
        Tok::ident("Self"),
        Tok::Punct(':'),
        Tok::Punct(':'),
        Tok::ident("borrowed"),
        Tok::Open(Delim::Paren),
        Tok::ident("querier"),
        Tok::Punct('.'),
        Tok::ident("contract"),
        Tok::Open(Delim::Paren),
        Tok::Close(Delim::Paren),
        Tok::Punct(','),
        Tok::ident("querier"),
        Tok::Punct('.'),
        Tok::ident("querier"),
        Tok::Open(Delim::Paren),
        Tok::Close(Delim::Paren),
        Tok::Close(Delim::Paren),
    ];
    assert(tokens::toks(body@) =~= querier_body());
    let mut r: Vec<Tok> = Vec::new();
    push_from_impl(&mut r, &params, &local, &target, "querier", &body);
    assert(tokens::toks(r@) =~= querier_from_impl(tokens::toks(sylvia@), i@, parser::toks2(cg@)));
    r
}

/// The conversion of remotes for one interface.
fn remote_from_impl_exec(i: &ContractMessageAttr, cg: &Vec<Vec<Tok>>) -> (r: Vec<Tok>)
    ensures
        tokens::toks(r@) == remote_from_impl(i@, parser::toks2(cg@)),
{
    let mut params: Vec<Tok> = Vec::new();
    push_lifetime_a(&mut params);
    tokens::push_punct(&mut params, ',');
    push_each_with_comma(&mut params, cg);
    assert(tokens::toks(params@) =~= remote_params(parser::toks2(cg@)));
    let mut local: Vec<Tok> = Vec::new();
    push_local_generic_type(&mut local, "Remote", false, cg);
    let mut target: Vec<Tok> = Vec::new();
    push_sv_item(&mut target, &i.module, "Remote");
    tokens::push_punct(&mut target, '<');
    push_lifetime_a(&mut target);
    tokens::push_punct(&mut target, ',');
    associated_types::push_comma_joined(&mut target, &i.generics);
    tokens::push_punct(&mut target, '>');
    proof {
        reveal_strlit("Remote");
        reveal_strlit("remote");
    }
    assert(tokens::toks(target@) =~= remote_target(i@));
    let mut body: Vec<Tok> = Vec::new();
    push_sv_item(&mut body, &i.module, "Remote");
    let k1: Vec<Tok> = vec![
        Tok::Punct(':'),
        Tok::Punct(':'),
        Tok::ident("borrowed"),
        Tok::Open(Delim::Paren),
        Tok::ident("remote"),
        Tok::Punct('.'),
        Tok::ident("as_ref"),
        Tok::Open(Delim::Paren),
        Tok::Close(Delim::Paren),
        Tok::Close(Delim::Paren),
    ];
    assert(tokens::toks(k1@) =~= tokens::colon2() + seq![
        tokens::id("borrowed"),
        TokV::Open(Delim::Paren),
        tokens::id("remote"),
        tokens::pc('.'),
        tokens::id("as_ref"),
        TokV::Open(Delim::Paren),
        TokV::Close(Delim::Paren),
        TokV::Close(Delim::Paren),
    ]);
    tokens::extend_toks(&mut body, &k1);
    assert(tokens::toks(body@) =~= remote_body(i@));
    let mut r: Vec<Tok> = Vec::new();
    push_from_impl(&mut r, &params, &local, &target, "remote", &body);
    assert(tokens::toks(r@) =~= remote_from_impl(i@, parser::toks2(cg@)));
    r
}

impl Interfaces {
    /// For each interface, the variant of the contract's message of kind
    /// `msg_ty` wrapping the interface's message.
    pub fn emit_glue_message_variants(&self, sylvia: &Vec<Tok>, msg_ty: &MsgType) -> (r: Vec<Vec<Tok>>)
        ensures
            r@.len() == self.interfaces.len(),
            forall|i: int| 0 <= i < r@.len() ==> tokens::toks((#[trigger] r@[i])@) == glue_variant(tokens::toks(sylvia@), self.interfaces@[i]@, *msg_ty),
    {
        let mut r: Vec<Vec<Tok>> = Vec::new();
        let mut k: usize = 0;
        while k < self.interfaces.len()
            invariant
                k <= self.interfaces.len(),
                r@.len() == k,
                forall|i: int| 0 <= i < k ==> tokens::toks((#[trigger] r@[i])@) == glue_variant(tokens::toks(sylvia@), self.interfaces@[i]@, *msg_ty),
            decreases self.interfaces.len() - k,
        {
            let item = glue_variant_exec(sylvia, &self.interfaces[k], *msg_ty);
            r.push(item);
            k = k + 1;
        }
        r
    }

    /// For each interface, the call giving the response schemas of its
    /// messages of kind `msg_ty`.
    pub fn emit_response_schemas_calls(&self, sylvia: &Vec<Tok>, msg_ty: &MsgType) -> (r: Vec<Vec<Tok>>)
        ensures
            r@.len() == self.interfaces.len(),
            forall|i: int| 0 <= i < r@.len() ==> tokens::toks((#[trigger] r@[i])@) == response_schemas_call(tokens::toks(sylvia@), self.interfaces@[i]@, *msg_ty),
    {
        let mut r: Vec<Vec<Tok>> = Vec::new();
        let mut k: usize = 0;
        while k < self.interfaces.len()
            invariant
                k <= self.interfaces.len(),
                r@.len() == k,
                forall|i: int| 0 <= i < k ==> tokens::toks((#[trigger] r@[i])@) == response_schemas_call(tokens::toks(sylvia@), self.interfaces@[i]@, *msg_ty),
            decreases self.interfaces.len() - k,
        {
            let item = response_schemas_call_exec(sylvia, &self.interfaces[k], *msg_ty);
            r.push(item);
            k = k + 1;
        }
        r
    }

    /// For each interface, the attempt to deserialize a received message of
    /// kind `msg_ty` into the interface's variant.
    pub fn emit_deserialization_attempts(&self, msg_ty: &MsgType) -> (r: Vec<Vec<Tok>>)
        ensures
            r@.len() == self.interfaces.len(),
            forall|i: int| 0 <= i < r@.len() ==> tokens::toks((#[trigger] r@[i])@) == deserialization_attempt(self.interfaces@[i]@, *msg_ty),
    {
        let mut r: Vec<Vec<Tok>> = Vec::new();
        let mut k: usize = 0;
        while k < self.interfaces.len()
            invariant
                k <= self.interfaces.len(),
                r@.len() == k,
                forall|i: int| 0 <= i < k ==> tokens::toks((#[trigger] r@[i])@) == deserialization_attempt(self.interfaces@[i]@, *msg_ty),
            decreases self.interfaces.len() - k,
        {
            let item = deserialization_attempt_exec(&self.interfaces[k], *msg_ty);
            r.push(item);
            k = k + 1;
        }
        r
    }

    /// For each interface, the conversion from the contract's bound querier,
    /// over the contract's generics `contract_generics`.
    pub fn emit_querier_from_impl(&self, sylvia: &Vec<Tok>, contract_generics: &Vec<Vec<Tok>>) -> (r: Vec<Vec<Tok>>)
        ensures
            r@.len() == self.interfaces.len(),
            forall|i: int| 0 <= i < r@.len() ==> tokens::toks((#[trigger] r@[i])@) == querier_from_impl(tokens::toks(sylvia@), self.interfaces@[i]@, parser::toks2(contract_generics@)),
    {
        let mut r: Vec<Vec<Tok>> = Vec::new();
        let mut k: usize = 0;
        while k < self.interfaces.len()
            invariant
                k <= self.interfaces.len(),
                r@.len() == k,
                forall|i: int| 0 <= i < k ==> tokens::toks((#[trigger] r@[i])@) == querier_from_impl(tokens::toks(sylvia@), self.interfaces@[i]@, parser::toks2(contract_generics@)),
            decreases self.interfaces.len() - k,
        {
            let item = querier_from_impl_exec(sylvia, &self.interfaces[k], contract_generics);
            r.push(item);
            k = k + 1;
        }
        r
    }

    /// For each interface, the conversion from the contract's remote, over
    /// the contract's generics `contract_generics`.
    pub fn emit_remote_from_impl(&self, contract_generics: &Vec<Vec<Tok>>) -> (r: Vec<Vec<Tok>>)
        ensures
            r@.len() == self.interfaces.len(),
            forall|i: int| 0 <= i < r@.len() ==> tokens::toks((#[trigger] r@[i])@) == remote_from_impl(self.interfaces@[i]@, parser::toks2(contract_generics@)),
    {
        let mut r: Vec<Vec<Tok>> = Vec::new();
        let mut k: usize = 0;
        while k < self.interfaces.len()
            invariant
                k <= self.interfaces.len(),
                r@.len() == k,
                forall|i: int| 0 <= i < k ==> tokens::toks((#[trigger] r@[i])@) == remote_from_impl(self.interfaces@[i]@, parser::toks2(contract_generics@)),
            decreases self.interfaces.len() - k,
        {
            let item = remote_from_impl_exec(&self.interfaces[k], contract_generics);
            r.push(item);
            k = k + 1;
        }
        r
    }
}

} // verus!
