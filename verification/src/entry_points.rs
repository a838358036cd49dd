//! Which entry points and multitest dispatchers a contract gets.
use vstd::prelude::*;
use crate::case::{self, TextCase};
use crate::diag::Diag;
use crate::msg_type::{self, MsgType};
use crate::parser::{self, Attribute, ContractErrorAttr, EntryPointArgs, Method, OverrideEntryPoints, OverrideEntryPointV};
use crate::associated_types::{self, comma_join};
use crate::tokens::{self, Tok, TokV, Delim};

verus! {

/// Checked arguments of the `entry_points` macro.
#[derive(Debug)]
pub struct EntryPointInput {
    pub args: EntryPointArgs,
}

/// The number of concrete types given by `entry_points(generics<..>)`.
pub open spec fn given_generics(args: EntryPointArgs) -> nat {
    match args.generics {
        Some(g) => g@.len(),
        None => 0,
    }
}

/// Errors on the use of `entry_points`: a number of concrete types other
/// than the number of generics, and not exactly one instantiation message.
pub open spec fn entry_point_diags(args: EntryPointArgs, n_generics: usize, n_instantiate: usize) -> Seq<Diag> {
    (if given_generics(args) != n_generics { seq![Diag::MissingConcreteTypes] } else { Seq::empty() }) + (if n_instantiate
        != 1 {
        seq![Diag::MissingInstantiationMessage]
    } else {
        Seq::empty()
    })
}

impl EntryPointInput {
    /// Checks the arguments against the contract: `n_generics` generic
    /// parameters and `n_instantiate` methods marked as instantiation messages.
    pub fn new(args: EntryPointArgs, n_generics: usize, n_instantiate: usize) -> (r: (EntryPointInput, Vec<Diag>))
        ensures
            r.1@ == entry_point_diags(args, n_generics, n_instantiate),
            r.0.args == args,
    {
        let mut diags: Vec<Diag> = Vec::new();
        let given = match &args.generics {
            Some(g) => g.len(),
            None => 0,
        };
        if given != n_generics {
            diags.push(Diag::MissingConcreteTypes);
        }
        if n_instantiate != 1 {
            diags.push(Diag::MissingInstantiationMessage);
        }
        assert(diags@ =~= entry_point_diags(args, n_generics, n_instantiate));
        (EntryPointInput { args }, diags)
    }
}

/// Whether an entry point of kind `ty` is overridden.
pub open spec fn overridden(eps: Seq<OverrideEntryPointV>, ty: MsgType) -> bool {
    parser::first_override(eps, ty) is Some
}

/// The default entry points generated: instantiate, execute, query and sudo
/// unless overridden; migrate when the contract has a migration message and
/// it is not overridden; reply when the contract has a reply handler and it
/// is not overridden.
pub open spec fn entry_points_plan(eps: Seq<OverrideEntryPointV>, has_migrate: bool, has_reply: bool) -> Seq<MsgType> {
    let keep = |ty: MsgType| if overridden(eps, ty) { Seq::<MsgType>::empty() } else { seq![ty] };
    keep(MsgType::Instantiate) + keep(MsgType::Exec) + keep(MsgType::Query) + keep(MsgType::Sudo) + (if has_migrate
        && !overridden(eps, MsgType::Migrate) {
        seq![MsgType::Migrate]
    } else {
        Seq::empty()
    }) + (if has_reply && !overridden(eps, MsgType::Reply) {
        seq![MsgType::Reply]
    } else {
        Seq::empty()
    })
}

/// The kinds of the default entry points to generate, in order.
pub fn emit_entry_points(overrides: &OverrideEntryPoints, has_migrate: bool, has_reply: bool) -> (r: Vec<MsgType>)
    ensures
        r@ == entry_points_plan(parser::overrides_view(overrides.0@), has_migrate, has_reply),
{
    let ghost eps = parser::overrides_view(overrides.0@);
    let mut r: Vec<MsgType> = Vec::new();
    if overrides.get_entry_point(MsgType::Instantiate).is_none() {
        r.push(MsgType::Instantiate);
    }
    if overrides.get_entry_point(MsgType::Exec).is_none() {
        r.push(MsgType::Exec);
    }
    if overrides.get_entry_point(MsgType::Query).is_none() {
        r.push(MsgType::Query);
    }
    if overrides.get_entry_point(MsgType::Sudo).is_none() {
        r.push(MsgType::Sudo);
    }
    if has_migrate && overrides.get_entry_point(MsgType::Migrate).is_none() {
        r.push(MsgType::Migrate);
    }
    if has_reply && overrides.get_entry_point(MsgType::Reply).is_none() {
        r.push(MsgType::Reply);
    }
    assert(r@ =~= entry_points_plan(eps, has_migrate, has_reply));
    r
}

/// How a multitest proxy dispatches a message of one kind.
#[derive(Clone, Copy, PartialEq, Eq, Structural, Debug)]
pub enum Dispatch {
    /// Through the overriding entry point at this position.
    Override(usize),
    /// Through the generated dispatch of the contract.
    Default,
    /// The contract does not handle the kind; the proxy bails out.
    NotImplemented,
}

/// The dispatch of kind `ty`: an override wins; execute, query, sudo (and
/// instantiate) otherwise go through the contract; migrate and reply only
/// when the contract has a handler for them.
pub open spec fn mt_dispatch(eps: Seq<OverrideEntryPointV>, ty: MsgType, has_handler: bool) -> Dispatch {
    match parser::first_override(eps, ty) {
        Some(i) => Dispatch::Override(i as usize),
        None => if ty == MsgType::Migrate || ty == MsgType::Reply {
            if has_handler {
                Dispatch::Default
            } else {
                Dispatch::NotImplemented
            }
        } else {
            Dispatch::Default
        },
    }
}

/// The position of the first overriding entry point of kind `ty`.
fn override_position(overrides: &OverrideEntryPoints, ty: MsgType) -> (r: Option<usize>)
    ensures
        match r {
            Some(i) => parser::first_override(parser::overrides_view(overrides.0@), ty) == Some(i as int),
            None => parser::first_override(parser::overrides_view(overrides.0@), ty) is None,
        },
{
    let ghost ov = parser::overrides_view(overrides.0@);
    let mut i: usize = 0;
    while i < overrides.0.len()
        invariant
            ov == parser::overrides_view(overrides.0@),
            i <= overrides.0.len(),
            forall|q: int| 0 <= q < i ==> (#[trigger] ov[q]).msg_type != ty,
        decreases overrides.0.len() - i,
    {
        if overrides.0[i].msg_type == ty {
            proof {
                parser::lemma_first_override(ov, ty);
                lemma_first_override_is(ov, ty, i as int);
            }
            return Some(i);
        }
        i = i + 1;
    }
    proof {
        parser::lemma_first_override(ov, ty);
        if parser::first_override(ov, ty) is Some {
            let j = parser::first_override(ov, ty)->0;
            assert(ov[j].msg_type == ty);
        }
    }
    None
}

proof fn lemma_first_override_is(s: Seq<OverrideEntryPointV>, ty: MsgType, i: int)
    requires
        0 <= i < s.len(),
        s[i].msg_type == ty,
        forall|q: int| 0 <= q < i ==> (#[trigger] s[q]).msg_type != ty,
    ensures
        parser::first_override(s, ty) == Some(i),
    decreases s.len(),
{
    if s.len() - 1 > i {
        lemma_first_override_is(s.drop_last(), ty, i);
    } else {
        parser::lemma_first_override(s.drop_last(), ty);
        if parser::first_override(s.drop_last(), ty) is Some {
            let j = parser::first_override(s.drop_last(), ty)->0;
            assert(s.drop_last()[j] == s[j]);
        }
    }
}

/// The dispatch of kind `ty` in a multitest proxy; `has_handler` tells
/// whether the contract has a migration message or a reply handler.
pub fn emit_mt_dispatch(overrides: &OverrideEntryPoints, ty: MsgType, has_handler: bool) -> (r: Dispatch)
    ensures
        r == mt_dispatch(parser::overrides_view(overrides.0@), ty, has_handler),
{
    match override_position(overrides, ty) {
        Some(i) => Dispatch::Override(i),
        None => {
            if ty == MsgType::Migrate || ty == MsgType::Reply {
                if has_handler {
                    Dispatch::Default
                } else {
                    Dispatch::NotImplemented
                }
            } else {
                Dispatch::Default
            }
        },
    }
}

/// The default dispatch of a multitest proxy for messages of kind `ty`:
/// `sylvia :: cw_std :: from_json :: < <Contract as ContractApi> :: Kind > ( & msg ) ?
/// . dispatch ( self , ( ctx values ) ) . map_err ( Into :: into )`.
pub open spec fn default_dispatch(ty: MsgType, contract: Seq<TokV>, sylvia: Seq<TokV>) -> Seq<TokV> {
    msg_type::cw_std_item(sylvia, "from_json") + tokens::colon2() + seq![tokens::pc('<')] + contract_api_item(
        sylvia,
        contract,
        msg_type::accessor_name(ty, true),
    ) + seq![
        tokens::pc('>'),
        TokV::Open(Delim::Paren),
        tokens::pc('&'),
        tokens::id("msg"),
        TokV::Close(Delim::Paren),
        tokens::pc('?'),
        tokens::pc('.'),
        tokens::id("dispatch"),
        TokV::Open(Delim::Paren),
        tokens::id("self"),
        tokens::pc(','),
        TokV::Open(Delim::Paren),
    ] + msg_type::ctx_values(ty) + seq![TokV::Close(Delim::Paren), TokV::Close(Delim::Paren)] + parser::map_err_into()
}

/// The default dispatch of a multitest proxy for messages of kind `ty` to
/// the contract `contract_name`.
pub fn emit_default_dispatch(msg_ty: MsgType, contract_name: &Vec<Tok>, sylvia: &Vec<Tok>) -> (r: Vec<Tok>)
    ensures
        tokens::toks(r@) == default_dispatch(msg_ty, tokens::toks(contract_name@), tokens::toks(sylvia@)),
{
    let mut r: Vec<Tok> = Vec::new();
    msg_type::push_cw_std_item(&mut r, sylvia, "from_json");
    tokens::push_punct(&mut r, ':');
    tokens::push_punct(&mut r, ':');
    tokens::push_punct(&mut r, '<');
    let acc = match msg_ty.as_accessor_name(true) {
        Some(a) => a,
        None => String::new(),
    };
    push_contract_api_item(&mut r, sylvia, contract_name, acc);
    let k1: Vec<Tok> = vec![
        Tok::Punct('>'),
        Tok::Open(Delim::Paren),
        Tok::Punct('&'),
        Tok::ident("msg"),
        Tok::Close(Delim::Paren),
        Tok::Punct('?'),
        Tok::Punct('.'),
        Tok::ident("dispatch"),
        Tok::Open(Delim::Paren),
        Tok::ident("self"),
        Tok::Punct(','),
        Tok::Open(Delim::Paren),
    ];
    assert(tokens::toks(k1@) =~= seq![
        tokens::pc('>'),
        TokV::Open(Delim::Paren),
        tokens::pc('&'),
        tokens::id("msg"),
        TokV::Close(Delim::Paren),
        tokens::pc('?'),
        tokens::pc('.'),
        tokens::id("dispatch"),
        TokV::Open(Delim::Paren),
        tokens::id("self"),
        tokens::pc(','),
        TokV::Open(Delim::Paren),
    ]);
    tokens::extend_toks(&mut r, &k1);
    let values = msg_ty.emit_ctx_values();
    tokens::extend_toks(&mut r, &values);
    tokens::push_tok(&mut r, Tok::Close(Delim::Paren));
    tokens::push_tok(&mut r, Tok::Close(Delim::Paren));
    parser::push_map_err_into(&mut r);
    assert(tokens::toks(r@) =~= default_dispatch(msg_ty, tokens::toks(contract_name@), tokens::toks(sylvia@)));
    r
}

/// The method a multitest proxy calls for the reply handler `name`: the name in snake case.
pub fn reply_method_name(name: &String) -> (r: String)
    ensures
        r@ == case::converted(name@, TextCase::Snake),
{
    case::to_case(name.as_str(), TextCase::Snake)
}


/// `< args >`
pub open spec fn angle_args(g: Seq<Seq<TokV>>) -> Seq<TokV> {
    seq![tokens::pc('<')] + comma_join(g) + seq![tokens::pc('>')]
}

/// The contract type: its name, with the concrete types given to the macro.
pub open spec fn contract_ty(name: Seq<TokV>, g: Seq<Seq<TokV>>) -> Seq<TokV> {
    if g.len() == 0 {
        name
    } else {
        name + angle_args(g)
    }
}

/// The contract type in expression position: `name :: < args >`.
pub open spec fn contract_turbo(name: Seq<TokV>, g: Seq<Seq<TokV>>) -> Seq<TokV> {
    if g.len() == 0 {
        name
    } else {
        name + tokens::colon2() + angle_args(g)
    }
}

/// `< contract as sylvia :: types :: ContractApi > :: item`
pub open spec fn contract_api_item(sylvia: Seq<TokV>, contract: Seq<TokV>, item: Seq<char>) -> Seq<TokV> {
    seq![tokens::pc('<')] + contract + seq![tokens::id("as")] + sylvia + tokens::colon2() + seq![tokens::id("types")]
        + tokens::colon2() + seq![tokens::id("ContractApi"), tokens::pc('>')] + tokens::colon2() + seq![TokV::Ident(item)]
}

/// The message parameter of the entry point of kind `ty`: the raw `Reply`
/// for replies, the contract's message of the kind otherwise.
pub open spec fn msg_param(ty: MsgType, sylvia: Seq<TokV>, contract: Seq<TokV>) -> Seq<TokV> {
    let msg_ty = if ty == MsgType::Reply {
        msg_type::cw_std_item(sylvia, "Reply")
    } else {
        contract_api_item(sylvia, contract, msg_type::accessor_name(ty, true))
    };
    seq![tokens::id("msg"), tokens::pc(':')] + msg_ty
}

/// `turbo :: new ( )`
pub open spec fn new_contract(turbo: Seq<TokV>) -> Seq<TokV> {
    turbo + tokens::colon2() + seq![tokens::id("new"), TokV::Open(Delim::Paren), TokV::Close(Delim::Paren)]
}

/// The body of the entry point of kind `ty`: a reply goes to the handler
/// `reply` with `(deps, env).into()` and the raw reply; any other message
/// dispatches itself on a new contract with the context values.
pub open spec fn ep_dispatch(ty: MsgType, turbo: Seq<TokV>, reply: Seq<char>) -> Seq<TokV> {
    if ty == MsgType::Reply {
        new_contract(turbo) + seq![
            tokens::pc('.'),
            TokV::Ident(reply),
            TokV::Open(Delim::Paren),
            TokV::Open(Delim::Paren),
            tokens::id("deps"),
            tokens::pc(','),
            tokens::id("env"),
            TokV::Close(Delim::Paren),
            tokens::pc('.'),
            tokens::id("into"),
            TokV::Open(Delim::Paren),
            TokV::Close(Delim::Paren),
            tokens::pc(','),
            tokens::id("msg"),
            TokV::Close(Delim::Paren),
        ] + parser::map_err_into()
    } else {
        seq![tokens::id("msg"), tokens::pc('.'), tokens::id("dispatch"), TokV::Open(Delim::Paren), tokens::pc('&')]
            + new_contract(turbo) + seq![tokens::pc(','), TokV::Open(Delim::Paren)] + msg_type::ctx_values(ty) + seq![
            TokV::Close(Delim::Paren),
            TokV::Close(Delim::Paren),
        ] + parser::map_err_into()
    }
}

/// `# [ sylvia :: cw_std :: entry_point ] pub fn name (`
pub open spec fn ep_head(ty: MsgType, sylvia: Seq<TokV>) -> Seq<TokV> {
    seq![tokens::pc('#'), TokV::Open(Delim::Bracket)] + msg_type::cw_std_item(sylvia, "entry_point") + seq![
        TokV::Close(Delim::Bracket),
        tokens::id("pub"),
        tokens::id("fn"),
        TokV::Ident(msg_type::ep_name(ty)),
        TokV::Open(Delim::Paren),
    ]
}

/// The default entry point of kind `ty`:
/// `#[sylvia::cw_std::entry_point] pub fn name(ctx params, msg) -> result { dispatch }`.
#[verifier::opaque]
pub open spec fn default_entry_point(
    ty: MsgType,
    sylvia: Seq<TokV>,
    name: Seq<TokV>,
    err: Seq<TokV>,
    g: Seq<Seq<TokV>>,
    reply: Seq<char>,
) -> Seq<TokV> {
    let contract = contract_ty(name, g);
    ep_head(ty, sylvia) + msg_type::ctx_params(ty, sylvia, contract_api_item(sylvia, contract, "CustomQuery"@)) + seq![
        tokens::pc(','),
    ] + msg_param(ty, sylvia, contract) + seq![TokV::Close(Delim::Paren), tokens::pc('-'), tokens::pc('>')]
        + msg_type::result_type(ty, sylvia, contract_api_item(sylvia, contract, "CustomMsg"@), err) + seq![
        TokV::Open(Delim::Brace),
    ] + ep_dispatch(ty, contract_turbo(name, g), reply) + seq![TokV::Close(Delim::Brace)]
}

/// What the entry points of a contract are generated from.
#[derive(Debug)]
pub struct EntryPoints {
    /// The contract type without its generic arguments.
    pub name: Vec<Tok>,
    pub error: Vec<Tok>,
    /// The name of the reply handler, if the contract has one.
    pub reply: Option<String>,
    pub override_entry_points: OverrideEntryPoints,
    /// Whether the contract has a migration message.
    pub has_migrate: bool,
    /// The concrete types given for the contract's generics.
    pub generics: Vec<Vec<Tok>>,
}

pub struct EntryPointsV {
    pub name: Seq<TokV>,
    pub error: Seq<TokV>,
    pub reply: Option<Seq<char>>,
    pub overrides: Seq<OverrideEntryPointV>,
    pub has_migrate: bool,
    pub generics: Seq<Seq<TokV>>,
}

impl View for EntryPoints {
    type V = EntryPointsV;

    open spec fn view(&self) -> EntryPointsV {
        EntryPointsV {
            name: tokens::toks(self.name@),
            error: tokens::toks(self.error@),
            reply: match &self.reply {
                Some(r) => Some(r@),
                None => None,
            },
            overrides: parser::overrides_view(self.override_entry_points.0@),
            has_migrate: self.has_migrate,
            generics: parser::toks2(self.generics@),
        }
    }
}

/// The name of the first method among `ms` handling replies.
pub open spec fn reply_handler(ms: Seq<parser::Method>, ty_positions: Seq<usize>) -> Option<Seq<char>> {
    if ty_positions.len() == 0 {
        None
    } else {
        Some(ms[ty_positions[0] as int].name@)
    }
}

/// The default entry point of kind `ty` unless it is overridden.
pub open spec fn kept_entry_point(v: EntryPointsV, sylvia: Seq<TokV>, ty: MsgType) -> Seq<TokV> {
    if overridden(v.overrides, ty) {
        Seq::empty()
    } else {
        default_entry_point(ty, sylvia, v.name, v.error, v.generics, Seq::empty())
    }
}

/// The migrate entry point, when the contract has a migration message and
/// the entry point is not overridden.
pub open spec fn migrate_entry_point(v: EntryPointsV, sylvia: Seq<TokV>) -> Seq<TokV> {
    if v.has_migrate && !overridden(v.overrides, MsgType::Migrate) {
        default_entry_point(MsgType::Migrate, sylvia, v.name, v.error, v.generics, Seq::empty())
    } else {
        Seq::empty()
    }
}

/// The reply entry point, when the contract has a reply handler and the
/// entry point is not overridden.
pub open spec fn reply_entry_point(v: EntryPointsV, sylvia: Seq<TokV>) -> Seq<TokV> {
    match v.reply {
        Some(r) => if overridden(v.overrides, MsgType::Reply) {
            Seq::empty()
        } else {
            default_entry_point(MsgType::Reply, sylvia, v.name, v.error, v.generics, r)
        },
        None => Seq::empty(),
    }
}

/// `pub mod entry_points { use super :: * ; }`, before its closing brace.
pub open spec fn module_head() -> Seq<TokV> {
    seq![
        tokens::id("pub"),
        tokens::id("mod"),
        tokens::id("entry_points"),
        TokV::Open(Delim::Brace),
        tokens::id("use"),
        tokens::id("super"),
        tokens::pc(':'),
        tokens::pc(':'),
        tokens::pc('*'),
        tokens::pc(';'),
    ]
}

/// `pub mod entry_points { use super :: * ; .. }` holding the default
/// entry points: instantiate, execute, query and sudo unless overridden;
/// migrate when the contract has a migration message and it is not
/// overridden; reply when the contract has a reply handler and it is not
/// overridden.
pub open spec fn entry_points_module(v: EntryPointsV, sylvia: Seq<TokV>) -> Seq<TokV> {
    module_head() + kept_entry_point(v, sylvia, MsgType::Instantiate) + kept_entry_point(v, sylvia, MsgType::Exec)
        + kept_entry_point(v, sylvia, MsgType::Query) + kept_entry_point(v, sylvia, MsgType::Sudo) + migrate_entry_point(
        v,
        sylvia,
    ) + reply_entry_point(v, sylvia) + seq![TokV::Close(Delim::Brace)]
}

/// Appends `< contract as sylvia :: types :: ContractApi > :: item`.
pub(crate) fn push_contract_api_item(dst: &mut Vec<Tok>, sylvia: &Vec<Tok>, contract: &Vec<Tok>, item: String)
    ensures
        tokens::toks(final(dst)@) == tokens::toks(old(dst)@) + contract_api_item(tokens::toks(sylvia@), tokens::toks(contract@), item@),
{
    tokens::push_punct(dst, '<');
    tokens::extend_toks(dst, contract);
    tokens::push_ident(dst, "as");
    tokens::extend_toks(dst, sylvia);
    tokens::push_punct(dst, ':');
    tokens::push_punct(dst, ':');
    tokens::push_ident(dst, "types");
    tokens::push_punct(dst, ':');
    tokens::push_punct(dst, ':');
    tokens::push_ident(dst, "ContractApi");
    tokens::push_punct(dst, '>');
    tokens::push_punct(dst, ':');
    tokens::push_punct(dst, ':');
    let ghost it = item@;
    tokens::push_tok(dst, Tok::Ident(item));
    assert(tokens::toks(dst@) =~= tokens::toks(old(dst)@) + contract_api_item(tokens::toks(sylvia@), tokens::toks(contract@), it));
}

/// Appends `turbo :: new ( )`.
fn push_new_contract(dst: &mut Vec<Tok>, turbo: &Vec<Tok>)
    ensures
        tokens::toks(final(dst)@) == tokens::toks(old(dst)@) + new_contract(tokens::toks(turbo@)),
{
    tokens::extend_toks(dst, turbo);
    tokens::push_punct(dst, ':');
    tokens::push_punct(dst, ':');
    tokens::push_ident(dst, "new");
    tokens::push_tok(dst, Tok::Open(Delim::Paren));
    tokens::push_tok(dst, Tok::Close(Delim::Paren));
    assert(tokens::toks(dst@) =~= tokens::toks(old(dst)@) + new_contract(tokens::toks(turbo@)));
}

/// Appends `# [ sylvia :: cw_std :: entry_point ] pub fn name (`.
fn push_ep_head(dst: &mut Vec<Tok>, ty: MsgType, sylvia: &Vec<Tok>)
    ensures
        tokens::toks(final(dst)@) == tokens::toks(old(dst)@) + ep_head(ty, tokens::toks(sylvia@)),
{
    tokens::push_punct(dst, '#');
    tokens::push_tok(dst, Tok::Open(Delim::Bracket));
    msg_type::push_cw_std_item(dst, sylvia, "entry_point");
    tokens::push_tok(dst, Tok::Close(Delim::Bracket));
    tokens::push_ident(dst, "pub");
    tokens::push_ident(dst, "fn");
    tokens::push_tok(dst, Tok::Ident(ty.emit_ep_name()));
    tokens::push_tok(dst, Tok::Open(Delim::Paren));
    assert(tokens::toks(dst@) =~= tokens::toks(old(dst)@) + ep_head(ty, tokens::toks(sylvia@)));
}

/// Appends the message parameter of the entry point of kind `ty`.
fn push_msg_param(dst: &mut Vec<Tok>, ty: MsgType, sylvia: &Vec<Tok>, contract: &Vec<Tok>)
    ensures
        tokens::toks(final(dst)@) == tokens::toks(old(dst)@) + msg_param(ty, tokens::toks(sylvia@), tokens::toks(contract@)),
{
    tokens::push_ident(dst, "msg");
    tokens::push_punct(dst, ':');
    let ghost s = tokens::toks(dst@);
    if ty == MsgType::Reply {
        msg_type::push_cw_std_item(dst, sylvia, "Reply");
    } else {
        let acc = match ty.as_accessor_name(true) {
            Some(a) => a,
            None => String::new(),
        };
        push_contract_api_item(dst, sylvia, contract, acc);
    }
    assert(tokens::toks(dst@) =~= tokens::toks(old(dst)@) + msg_param(ty, tokens::toks(sylvia@), tokens::toks(contract@)));
}

impl EntryPoints {
    /// Reads what the entry points are generated from: the contract type
    /// `self_ty`, its attributes and methods, and the macro's arguments;
    /// reports the attributes that do not parse.
    pub fn new(self_ty: &Vec<Tok>, attrs: &Vec<Attribute>, methods: &Vec<Method>, args: &EntryPointArgs, sylvia: &Vec<Tok>) -> (r: (
        EntryPoints,
        Vec<Diag>,
    ))
        ensures
            r.0@.name == parser::strip_angles(tokens::toks(self_ty@), 0, self_ty@.len() as int, 0),
            r.0@.overrides == parser::overrides_scan(parser::attrs_view(attrs@)).0,
            r.0@.error == match parser::error_scan(parser::attrs_view(attrs@)).0 {
                Some(ty) => ty,
                None => parser::std_error(tokens::toks(sylvia@)),
            },
            r.0@.reply == reply_handler(methods@, parser::kind_positions(parser::methods_attrs(methods@), MsgType::Reply)),
            r.0@.has_migrate == (parser::kind_positions(parser::methods_attrs(methods@), MsgType::Migrate).len() == 1),
            r.0@.generics == match args@.generics {
                Some(g) => g,
                None => Seq::empty(),
            },
            r.1@ == parser::overrides_scan(parser::attrs_view(attrs@)).1 + parser::error_scan(parser::attrs_view(attrs@)).1,
    {
        let name = parser::strip_generics(self_ty, 0, self_ty.len());
        let (overrides, d1) = OverrideEntryPoints::new(attrs);
        let (err, d2) = ContractErrorAttr::new(attrs, sylvia);
        let replies = parser::methods_of_kind(methods, MsgType::Reply);
        let reply = if replies.len() > 0 {
            Some(methods[replies[0]].name.clone())
        } else {
            None
        };
        let migrates = parser::methods_of_kind(methods, MsgType::Migrate);
        let generics: Vec<Vec<Tok>> = match &args.generics {
            Some(g) => {
                let mut c: Vec<Vec<Tok>> = Vec::new();
                let mut k: usize = 0;
                while k < g.len()
                    invariant
                        k <= g.len(),
                        parser::toks2(c@) == parser::toks2(g@).take(k as int),
                    decreases g.len() - k,
                {
                    let ghost prev = c@;
                    c.push(tokens::copy_toks(&g[k]));
                    assert(parser::toks2(c@) =~= parser::toks2(prev).push(tokens::toks(g@[k as int]@)));
                    assert(parser::toks2(g@).take(k + 1) =~= parser::toks2(g@).take(k as int).push(tokens::toks(g@[k as int]@)));
                    k = k + 1;
                }
                assert(parser::toks2(g@).take(k as int) =~= parser::toks2(g@));
                c
            },
            None => {
                let c: Vec<Vec<Tok>> = Vec::new();
                assert(parser::toks2(c@) =~= Seq::<Seq<TokV>>::empty());
                c
            },
        };
        let mut diags = d1;
        let mut d2m = d2;
        diags.append(&mut d2m);
        let ep = EntryPoints {
            name,
            error: err.error,
            reply,
            override_entry_points: overrides,
            has_migrate: migrates.len() == 1,
            generics,
        };
        (ep, diags)
    }

    /// The contract type and its form in expression position.
    fn contract_and_turbo(&self) -> (r: (Vec<Tok>, Vec<Tok>))
        ensures
            tokens::toks(r.0@) == contract_ty(self@.name, self@.generics),
            tokens::toks(r.1@) == contract_turbo(self@.name, self@.generics),
    {
        let mut contract = tokens::copy_toks(&self.name);
        let mut turbo = tokens::copy_toks(&self.name);
        if self.generics.len() > 0 {
            tokens::push_punct(&mut contract, '<');
            associated_types::push_comma_joined(&mut contract, &self.generics);
            tokens::push_punct(&mut contract, '>');
            tokens::push_punct(&mut turbo, ':');
            tokens::push_punct(&mut turbo, ':');
            tokens::push_punct(&mut turbo, '<');
            associated_types::push_comma_joined(&mut turbo, &self.generics);
            tokens::push_punct(&mut turbo, '>');
        }
        assert(tokens::toks(contract@) =~= contract_ty(self@.name, self@.generics));
        assert(tokens::toks(turbo@) =~= contract_turbo(self@.name, self@.generics));
        (contract, turbo)
    }

    /// Appends the body of the entry point of kind `ty`.
    fn push_dispatch(&self, dst: &mut Vec<Tok>, ty: MsgType, turbo: &Vec<Tok>)
        ensures
            tokens::toks(final(dst)@) == tokens::toks(old(dst)@) + ep_dispatch(
                ty,
                tokens::toks(turbo@),
                match self@.reply {
                    Some(h) => if ty == MsgType::Reply { h } else { Seq::empty() },
                    None => Seq::empty(),
                },
            ),
    {
        let ghost reply_name: Seq<char> = match self@.reply {
            Some(h) => if ty == MsgType::Reply { h } else { Seq::empty() },
            None => Seq::empty(),
        };
        if ty == MsgType::Reply {
            let h = match &self.reply {
                Some(h) => h.clone(),
                None => String::new(),
            };
            push_new_contract(dst, turbo);
            tokens::push_punct(dst, '.');
            tokens::push_tok(dst, Tok::Ident(h));
            tokens::push_tok(dst, Tok::Open(Delim::Paren));
            tokens::push_tok(dst, Tok::Open(Delim::Paren));
            tokens::push_ident(dst, "deps");
            tokens::push_punct(dst, ',');
            tokens::push_ident(dst, "env");
            tokens::push_tok(dst, Tok::Close(Delim::Paren));
            tokens::push_punct(dst, '.');
            tokens::push_ident(dst, "into");
            tokens::push_tok(dst, Tok::Open(Delim::Paren));
            tokens::push_tok(dst, Tok::Close(Delim::Paren));
            tokens::push_punct(dst, ',');
            tokens::push_ident(dst, "msg");
            tokens::push_tok(dst, Tok::Close(Delim::Paren));
            parser::push_map_err_into(dst);
        } else {
            tokens::push_ident(dst, "msg");
            tokens::push_punct(dst, '.');
            tokens::push_ident(dst, "dispatch");
            tokens::push_tok(dst, Tok::Open(Delim::Paren));
            tokens::push_punct(dst, '&');
            push_new_contract(dst, turbo);
            tokens::push_punct(dst, ',');
            tokens::push_tok(dst, Tok::Open(Delim::Paren));
            let values = ty.emit_ctx_values();
            tokens::extend_toks(dst, &values);
            tokens::push_tok(dst, Tok::Close(Delim::Paren));
            tokens::push_tok(dst, Tok::Close(Delim::Paren));
            parser::push_map_err_into(dst);
        }
        assert(tokens::toks(dst@) =~= tokens::toks(old(dst)@) + ep_dispatch(ty, tokens::toks(turbo@), reply_name));
    }

    /// The default entry point of kind `ty`; a reply entry point needs a reply handler.
    pub fn emit_default_entry_point(&self, ty: MsgType, sylvia: &Vec<Tok>) -> (r: Vec<Tok>)
        requires
            ty == MsgType::Reply ==> self.reply is Some,
        ensures
            tokens::toks(r@) == default_entry_point(
                ty,
                tokens::toks(sylvia@),
                self@.name,
                self@.error,
                self@.generics,
                match self@.reply {
                    Some(h) => if ty == MsgType::Reply { h } else { Seq::empty() },
                    None => Seq::empty(),
                },
            ),
    {
        let ghost sv = tokens::toks(sylvia@);
        let (contract, turbo) = self.contract_and_turbo();
        let ghost cv = tokens::toks(contract@);
        let mut custom_query: Vec<Tok> = Vec::new();
        push_contract_api_item(&mut custom_query, sylvia, &contract, String::from_str("CustomQuery"));
        let mut custom_msg: Vec<Tok> = Vec::new();
        push_contract_api_item(&mut custom_msg, sylvia, &contract, String::from_str("CustomMsg"));
        proof {
            reveal_strlit("CustomQuery");
            reveal_strlit("CustomMsg");
            assert(tokens::toks(custom_query@) =~= contract_api_item(sv, cv, "CustomQuery"@));
            assert(tokens::toks(custom_msg@) =~= contract_api_item(sv, cv, "CustomMsg"@));
        }
        let ghost reply_name: Seq<char> = match self@.reply {
            Some(h) => if ty == MsgType::Reply { h } else { Seq::empty() },
            None => Seq::empty(),
        };
        let mut r: Vec<Tok> = Vec::new();
        push_ep_head(&mut r, ty, sylvia);
        let ghost s0 = tokens::toks(r@);
        let params = ty.emit_ctx_params(sylvia, &custom_query);
        tokens::extend_toks(&mut r, &params);
        let ghost s1 = tokens::toks(r@);
        tokens::push_punct(&mut r, ',');
        assert(tokens::toks(r@) == s1 + seq![tokens::pc(',')]) by {
            assert(tokens::toks(r@) =~= s1 + seq![tokens::pc(',')]);
        }
        let ghost s2 = tokens::toks(r@);
        push_msg_param(&mut r, ty, sylvia, &contract);
        let ghost s3 = tokens::toks(r@);
        tokens::push_tok(&mut r, Tok::Close(Delim::Paren));
        tokens::push_punct(&mut r, '-');
        tokens::push_punct(&mut r, '>');
        assert(tokens::toks(r@) == s3 + seq![TokV::Close(Delim::Paren), tokens::pc('-'), tokens::pc('>')]) by {
            assert(tokens::toks(r@) =~= s3 + seq![TokV::Close(Delim::Paren), tokens::pc('-'), tokens::pc('>')]);
        }
        let ghost s4 = tokens::toks(r@);
        let result = ty.emit_result_type(sylvia, &custom_msg, &self.error);
        tokens::extend_toks(&mut r, &result);
        let ghost s5 = tokens::toks(r@);
        tokens::push_tok(&mut r, Tok::Open(Delim::Brace));
        assert(tokens::toks(r@) == s5 + seq![TokV::Open(Delim::Brace)]) by {
            assert(tokens::toks(r@) =~= s5 + seq![TokV::Open(Delim::Brace)]);
        }
        let ghost s6 = tokens::toks(r@);
        self.push_dispatch(&mut r, ty, &turbo);
        let ghost s7 = tokens::toks(r@);
        tokens::push_tok(&mut r, Tok::Close(Delim::Brace));
        assert(tokens::toks(r@) == s7 + seq![TokV::Close(Delim::Brace)]) by {
            assert(tokens::toks(r@) =~= s7 + seq![TokV::Close(Delim::Brace)]);
        }
        proof {
            reveal(default_entry_point);
        }
        r
    }

    /// Appends the default entry point of kind `ty` when `cond` holds.
    fn push_default_if(&self, dst: &mut Vec<Tok>, cond: bool, ty: MsgType, sylvia: &Vec<Tok>)
        requires
            cond && ty == MsgType::Reply ==> self.reply is Some,
        ensures
            tokens::toks(final(dst)@) == tokens::toks(old(dst)@) + if cond {
                default_entry_point(
                    ty,
                    tokens::toks(sylvia@),
                    self@.name,
                    self@.error,
                    self@.generics,
                    match self@.reply {
                        Some(h) => if ty == MsgType::Reply { h } else { Seq::empty() },
                        None => Seq::empty(),
                    },
                )
            } else {
                Seq::empty()
            },
    {
        if cond {
            let e = self.emit_default_entry_point(ty, sylvia);
            tokens::extend_toks(dst, &e);
        } else {
            assert(tokens::toks(dst@) =~= tokens::toks(old(dst)@) + Seq::<TokV>::empty());
        }
    }

    /// The module `entry_points` with the default entry points of the contract.
    pub fn emit(&self, sylvia: &Vec<Tok>) -> (r: Vec<Tok>)
        ensures
            tokens::toks(r@) == entry_points_module(self@, tokens::toks(sylvia@)),
    {
        let ghost v = self@;
        let ghost sv = tokens::toks(sylvia@);
        let mut r: Vec<Tok> = Vec::new();
        tokens::push_ident(&mut r, "pub");
        tokens::push_ident(&mut r, "mod");
        tokens::push_ident(&mut r, "entry_points");
        tokens::push_tok(&mut r, Tok::Open(Delim::Brace));
        tokens::push_ident(&mut r, "use");
        tokens::push_ident(&mut r, "super");
        tokens::push_punct(&mut r, ':');
        tokens::push_punct(&mut r, ':');
        tokens::push_punct(&mut r, '*');
        tokens::push_punct(&mut r, ';');
        assert(tokens::toks(r@) == module_head()) by {
            assert(tokens::toks(r@) =~= module_head());
        }
        let c = self.override_entry_points.get_entry_point(MsgType::Instantiate).is_none();
        self.push_default_if(&mut r, c, MsgType::Instantiate, sylvia);
        let ghost s1 = tokens::toks(r@);
        assert(s1 == module_head() + kept_entry_point(v, sv, MsgType::Instantiate));
        let c = self.override_entry_points.get_entry_point(MsgType::Exec).is_none();
        self.push_default_if(&mut r, c, MsgType::Exec, sylvia);
        let ghost s2 = tokens::toks(r@);
        assert(s2 == s1 + kept_entry_point(v, sv, MsgType::Exec));
        let c = self.override_entry_points.get_entry_point(MsgType::Query).is_none();
        self.push_default_if(&mut r, c, MsgType::Query, sylvia);
        let ghost s3 = tokens::toks(r@);
        assert(s3 == s2 + kept_entry_point(v, sv, MsgType::Query));
        let c = self.override_entry_points.get_entry_point(MsgType::Sudo).is_none();
        self.push_default_if(&mut r, c, MsgType::Sudo, sylvia);
        let ghost s4 = tokens::toks(r@);
        assert(s4 == s3 + kept_entry_point(v, sv, MsgType::Sudo));
        let c = self.has_migrate && self.override_entry_points.get_entry_point(MsgType::Migrate).is_none();
        self.push_default_if(&mut r, c, MsgType::Migrate, sylvia);
        let ghost s5 = tokens::toks(r@);
        assert(s5 == s4 + migrate_entry_point(v, sv));
        let c = self.reply.is_some() && self.override_entry_points.get_entry_point(MsgType::Reply).is_none();
        self.push_default_if(&mut r, c, MsgType::Reply, sylvia);
        let ghost s6 = tokens::toks(r@);
        assert(s6 == s5 + reply_entry_point(v, sv));
        tokens::push_tok(&mut r, Tok::Close(Delim::Brace));
        assert(tokens::toks(r@) == s6 + seq![TokV::Close(Delim::Brace)]) by {
            assert(tokens::toks(r@) =~= s6 + seq![TokV::Close(Delim::Brace)]);
        }
        r
    }
}


/// The default entry point of kind `ty` of the contract `v`, handing replies
/// to its reply handler.
pub open spec fn planned_entry_point(v: EntryPointsV, sylvia: Seq<TokV>, ty: MsgType) -> Seq<TokV> {
    default_entry_point(
        ty,
        sylvia,
        v.name,
        v.error,
        v.generics,
        if ty == MsgType::Reply {
            match v.reply {
                Some(r) => r,
                None => Seq::empty(),
            }
        } else {
            Seq::empty()
        },
    )
}

/// The default entry points of the kinds `plan`, in order.
pub open spec fn plan_code(v: EntryPointsV, sylvia: Seq<TokV>, plan: Seq<MsgType>) -> Seq<TokV> {
    tokens::concat(Seq::new(plan.len(), |i: int| planned_entry_point(v, sylvia, plan[i])))
}

proof fn lemma_concat_add(a: Seq<Seq<TokV>>, b: Seq<Seq<TokV>>)
    ensures
        tokens::concat(a + b) == tokens::concat(a) + tokens::concat(b),
    decreases b.len(),
{
    if b.len() == 0 {
        assert(a + b =~= a);
        assert(tokens::concat(a) + tokens::concat(b) =~= tokens::concat(a));
    } else {
        assert((a + b).drop_last() =~= a + b.drop_last());
        lemma_concat_add(a, b.drop_last());
        assert((a + b).last() == b.last());
        assert(tokens::concat(a + b) =~= tokens::concat(a) + tokens::concat(b));
    }
}

proof fn lemma_plan_code_add(v: EntryPointsV, sylvia: Seq<TokV>, p: Seq<MsgType>, q: Seq<MsgType>)
    ensures
        plan_code(v, sylvia, p + q) == plan_code(v, sylvia, p) + plan_code(v, sylvia, q),
{
    let f = |ty: MsgType| planned_entry_point(v, sylvia, ty);
    let a = Seq::new(p.len(), |i: int| planned_entry_point(v, sylvia, p[i]));
    let b = Seq::new(q.len(), |i: int| planned_entry_point(v, sylvia, q[i]));
    assert(Seq::new((p + q).len(), |i: int| planned_entry_point(v, sylvia, (p + q)[i])) =~= a + b);
    lemma_concat_add(a, b);
}

proof fn lemma_plan_code_one(v: EntryPointsV, sylvia: Seq<TokV>, ty: MsgType)
    ensures
        plan_code(v, sylvia, seq![ty]) == planned_entry_point(v, sylvia, ty),
        plan_code(v, sylvia, Seq::empty()) == Seq::<TokV>::empty(),
{
    reveal_with_fuel(tokens::concat, 2);
    let a = Seq::new(1, |i: int| planned_entry_point(v, sylvia, seq![ty][i]));
    assert(a.drop_last() =~= Seq::<Seq<TokV>>::empty());
    assert(tokens::concat(a) =~= planned_entry_point(v, sylvia, ty));
    let e = Seq::new(0, |i: int| planned_entry_point(v, sylvia, Seq::<MsgType>::empty()[i]));
    assert(e =~= Seq::<Seq<TokV>>::empty());
}

/// The part of the plan for a kind kept unless overridden.
pub open spec fn kept_plan(v: EntryPointsV, ty: MsgType) -> Seq<MsgType> {
    if overridden(v.overrides, ty) {
        Seq::empty()
    } else {
        seq![ty]
    }
}

/// The part of the plan for the migrate entry point.
pub open spec fn migrate_plan(v: EntryPointsV) -> Seq<MsgType> {
    if v.has_migrate && !overridden(v.overrides, MsgType::Migrate) {
        seq![MsgType::Migrate]
    } else {
        Seq::empty()
    }
}

/// The part of the plan for the reply entry point.
pub open spec fn reply_plan_part(v: EntryPointsV) -> Seq<MsgType> {
    if v.reply is Some && !overridden(v.overrides, MsgType::Reply) {
        seq![MsgType::Reply]
    } else {
        Seq::empty()
    }
}

proof fn lemma_parts(v: EntryPointsV, sylvia: Seq<TokV>)
    ensures
        plan_code(v, sylvia, kept_plan(v, MsgType::Instantiate)) == kept_entry_point(v, sylvia, MsgType::Instantiate),
        plan_code(v, sylvia, kept_plan(v, MsgType::Exec)) == kept_entry_point(v, sylvia, MsgType::Exec),
        plan_code(v, sylvia, kept_plan(v, MsgType::Query)) == kept_entry_point(v, sylvia, MsgType::Query),
        plan_code(v, sylvia, kept_plan(v, MsgType::Sudo)) == kept_entry_point(v, sylvia, MsgType::Sudo),
        plan_code(v, sylvia, migrate_plan(v)) == migrate_entry_point(v, sylvia),
        plan_code(v, sylvia, reply_plan_part(v)) == reply_entry_point(v, sylvia),
{
    lemma_plan_code_one(v, sylvia, MsgType::Instantiate);
    lemma_plan_code_one(v, sylvia, MsgType::Exec);
    lemma_plan_code_one(v, sylvia, MsgType::Query);
    lemma_plan_code_one(v, sylvia, MsgType::Sudo);
    lemma_plan_code_one(v, sylvia, MsgType::Migrate);
    lemma_plan_code_one(v, sylvia, MsgType::Reply);
}

/// The module of entry points holds, between its head and its closing
/// brace, the default entry point of each kind of the plan of default entry
/// points, in the order of the plan.
pub proof fn entry_points_module_follows_plan(v: EntryPointsV, sylvia: Seq<TokV>)
    ensures
        entry_points_module(v, sylvia) == module_head() + plan_code(
            v,
            sylvia,
            entry_points_plan(v.overrides, v.has_migrate, v.reply is Some),
        ) + seq![TokV::Close(Delim::Brace)],
{
    let p1 = kept_plan(v, MsgType::Instantiate);
    let p2 = kept_plan(v, MsgType::Exec);
    let p3 = kept_plan(v, MsgType::Query);
    let p4 = kept_plan(v, MsgType::Sudo);
    let m = migrate_plan(v);
    let r = reply_plan_part(v);
    assert(entry_points_plan(v.overrides, v.has_migrate, v.reply is Some) == p1 + p2 + p3 + p4 + m + r);
    lemma_plan_code_add(v, sylvia, p1 + p2 + p3 + p4 + m, r);
    lemma_plan_code_add(v, sylvia, p1 + p2 + p3 + p4, m);
    lemma_plan_code_add(v, sylvia, p1 + p2 + p3, p4);
    lemma_plan_code_add(v, sylvia, p1 + p2, p3);
    lemma_plan_code_add(v, sylvia, p1, p2);
    lemma_parts(v, sylvia);
    let h = module_head();
    let c1 = kept_entry_point(v, sylvia, MsgType::Instantiate);
    let c2 = kept_entry_point(v, sylvia, MsgType::Exec);
    let c3 = kept_entry_point(v, sylvia, MsgType::Query);
    let c4 = kept_entry_point(v, sylvia, MsgType::Sudo);
    let c5 = migrate_entry_point(v, sylvia);
    let c6 = reply_entry_point(v, sylvia);
    let q2 = c1 + c2;
    let q3 = q2 + c3;
    let q4 = q3 + c4;
    let q5 = q4 + c5;
    let q6 = q5 + c6;
    assert(plan_code(v, sylvia, p1 + p2 + p3 + p4 + m + r) == q6);
    vstd::seq_lib::lemma_concat_associative(h, q5, c6);
    vstd::seq_lib::lemma_concat_associative(h, q4, c5);
    vstd::seq_lib::lemma_concat_associative(h, q3, c4);
    vstd::seq_lib::lemma_concat_associative(h, q2, c3);
    vstd::seq_lib::lemma_concat_associative(h, c1, c2);
    assert(h + q6 == h + c1 + c2 + c3 + c4 + c5 + c6);
}

} // verus!
