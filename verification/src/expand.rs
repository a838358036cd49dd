//! The expansion of the `contract`, `interface` and `entry_points` macros
//! from a plain model of the item they are applied to: which methods declare
//! messages, the fields and the query responses of those messages, the
//! generated module with the reply handling of a contract inside it, and
//! every diagnostic on the item.
use vstd::prelude::*;
use crate::associated_types::{opt_where_to_tokens, opt_where_tokens, TraitItemType, WhereClause};
use crate::compose::{contract_sv, generic_tokens, generics_toks, interface_sv, of_kind, of_kind_exec, or_default, Generic};
use crate::contract::{contract_attr_diags, contract_message_diags, ContractInput};
use crate::diag::Diag;
use crate::entry_points::{entry_points_module, EntryPointInput, EntryPoints, EntryPointsV};
use crate::grammar::{self, p_path, split_args};
use crate::instantiate_builder::{is_type_path, is_type_path_exec};
use crate::interface::{has_name, interface_message_diags, select_struct_message, single_message, InterfaceInput};
use crate::interfaces::interfaces_scan;
use crate::msg_type::MsgType;
use crate::parser::{
    attr_msg_type, attrs_view, custom_of, customs_scan, error_scan, forwarded_scan, kind_positions, method_msg, method_msg_exec,
    methods_attrs, methods_of_kind, msg_attrs_forward, overrides_scan, p_entry_point_args, std_error, strip_angles, Attribute,
    AttributeV, Custom, EntryPointArgs, EntryPointArgsV, Method, MsgAttr, MsgAttrV,
};
use crate::querier::where_value;
use crate::reply::{self, field_attrs_scan, reply_plan, MsgField, MsgFieldV, MsgVariant, MsgVariantV, ReplyOn};
use crate::reply_emit::{reply_code, Reply, ReplyV};
use crate::struct_msg::{positions_of_kind, variant_positions};
use crate::tokens::{self, Delim, ParseError, Tok, TokV};

verus! {

/// A typed parameter of a method: its name, type and attributes.
#[derive(Debug)]
pub struct ParamModel {
    pub name: String,
    pub ty: Vec<Tok>,
    pub attrs: Vec<Attribute>,
}

/// A method: its name and attributes, its typed parameters (without the
/// receiver) and its return type (nothing when it returns `()`).
#[derive(Debug)]
pub struct FnModel {
    pub method: Method,
    pub params: Vec<ParamModel>,
    pub output: Vec<Tok>,
}

/// An implementation block.
#[derive(Debug)]
pub struct ImplModel {
    pub attrs: Vec<Attribute>,
    pub generics: Vec<Generic>,
    pub where_clause: Option<WhereClause>,
    pub self_ty: Vec<Tok>,
    pub methods: Vec<FnModel>,
}

/// A trait.
#[derive(Debug)]
pub struct TraitModel {
    pub ident: String,
    pub attrs: Vec<Attribute>,
    pub n_generics: usize,
    pub items: Vec<TraitItemType>,
    pub where_clause: Option<WhereClause>,
    pub methods: Vec<FnModel>,
}

/// A diagnostic on the attributes of parameter `param` of method `method`.
#[derive(Clone, Copy, PartialEq, Eq, Structural, Debug)]
pub struct FieldDiag {
    pub method: usize,
    pub param: usize,
    pub diag: Diag,
}

/// The field a parameter gives a message.
pub open spec fn param_field(p: ParamModel) -> MsgFieldV {
    let s = field_attrs_scan(attrs_view(p.attrs@));
    MsgFieldV { name: p.name@, ty: tokens::toks(p.ty@), data: s.0, payload: s.1 }
}

/// The fields of the message of a method: its parameters after the context.
pub open spec fn message_fields(f: FnModel) -> Seq<MsgFieldV> {
    let ps = f.params@;
    Seq::new(if ps.len() > 0 { (ps.len() - 1) as nat } else { 0 }, |i: int| param_field(ps[i + 1]))
}

/// The response of a query returning `out`: the first type argument of the
/// last segment of its path (`StdResult<Resp>` answers `Resp`), or the whole
/// type when it has none.
pub open spec fn response_of(out: Seq<TokV>) -> Seq<TokV> {
    match p_path(out, 0) {
        Ok(p) => if p.end == out.len() {
            match p.args {
                Some((a, b)) => {
                    let sp = split_args(out, a, b);
                    if sp.len() > 0 {
                        out.subrange(sp[0].0, sp[0].1)
                    } else {
                        out
                    }
                },
                None => out,
            }
        } else {
            out
        },
        Err(_) => out,
    }
}

/// The response type of a message: the one `resp = ..` names, else the one
/// the method returns.
pub open spec fn query_response(a: MsgAttrV, out: Seq<TokV>) -> Seq<TokV> {
    match a {
        MsgAttrV::Query(Some(r)) => seq![TokV::Ident(r)],
        _ => response_of(out),
    }
}

/// The message a method declares with a `msg` attribute that parses.
pub open spec fn fn_variant(f: FnModel) -> Option<MsgVariantV> {
    match method_msg(attrs_view(f.method.attrs@)) {
        Some(Ok(a)) => Some(
            MsgVariantV {
                function_name: f.method.name@,
                msg_type: attr_msg_type(a),
                reply_on: ReplyOn::Success,
                handlers: Seq::empty(),
                fields: message_fields(f),
                return_type: if attr_msg_type(a) == MsgType::Query {
                    query_response(a, tokens::toks(f.output@))
                } else {
                    Seq::empty()
                },
            },
        ),
        _ => None,
    }
}

/// The messages the methods declare, in their order.
pub open spec fn fn_variants(fs: Seq<FnModel>) -> Seq<MsgVariantV>
    decreases fs.len(),
{
    if fs.len() == 0 {
        Seq::empty()
    } else {
        match fn_variant(fs.last()) {
            Some(v) => fn_variants(fs.drop_last()).push(v),
            None => fn_variants(fs.drop_last()),
        }
    }
}

/// The diagnostics on the attributes of the parameters `ps` of method `k`
/// after the context.
pub open spec fn param_diags(ps: Seq<ParamModel>, k: usize) -> Seq<FieldDiag>
    decreases ps.len(),
{
    if ps.len() <= 1 {
        Seq::empty()
    } else {
        let d = field_attrs_scan(attrs_view(ps.last().attrs@)).2;
        param_diags(ps.drop_last(), k) + Seq::new(d.len(), |q: int| FieldDiag { method: k, param: (ps.len() - 1) as usize, diag: d[q] })
    }
}

/// The diagnostics on the parameters of the methods declaring messages.
pub open spec fn fn_field_diags(fs: Seq<FnModel>) -> Seq<FieldDiag>
    decreases fs.len(),
{
    if fs.len() == 0 {
        Seq::empty()
    } else if fn_variant(fs.last()) is Some {
        fn_field_diags(fs.drop_last()) + param_diags(fs.last().params@, (fs.len() - 1) as usize)
    } else {
        fn_field_diags(fs.drop_last())
    }
}

/// The names and attributes of the methods.
pub open spec fn fn_methods(fs: Seq<FnModel>) -> Seq<Seq<AttributeV>> {
    Seq::new(fs.len(), |i: int| attrs_view(fs[i].method.attrs@))
}

/// A copy of an attribute.
fn copy_attribute(a: &Attribute) -> (r: Attribute)
    ensures
        r@ == a@,
{
    let mut path: Vec<String> = Vec::new();
    let mut k: usize = 0;
    while k < a.path.len()
        invariant
            k <= a.path.len(),
            Seq::new(path@.len(), |i: int| path@[i]@) == Seq::new(k as nat, |i: int| a.path@[i]@),
        decreases a.path.len() - k,
    {
        let ghost prev = path@;
        let c = String::from_str(a.path[k].as_str());
        assert(c@ == a.path@[k as int]@);
        path.push(c);
        assert(Seq::new(path@.len(), |i: int| path@[i]@) =~= Seq::new(prev.len(), |i: int| prev[i]@).push(c@));
        assert(Seq::new(path@.len(), |i: int| path@[i]@) =~= Seq::new((k + 1) as nat, |i: int| a.path@[i]@));
        k = k + 1;
    }
    let args = match &a.args {
        Some(t) => Some(tokens::copy_toks(t)),
        None => None,
    };
    let r = Attribute { path, args };
    assert(r@.path =~= a@.path);
    r
}

/// A copy of a method's name and attributes.
fn copy_method(m: &Method) -> (r: Method)
    ensures
        r.name@ == m.name@,
        attrs_view(r.attrs@) == attrs_view(m.attrs@),
{
    let mut attrs: Vec<Attribute> = Vec::new();
    let mut k: usize = 0;
    while k < m.attrs.len()
        invariant
            k <= m.attrs.len(),
            attrs_view(attrs@) == attrs_view(m.attrs@).take(k as int),
        decreases m.attrs.len() - k,
    {
        let ghost prev = attrs@;
        let c = copy_attribute(&m.attrs[k]);
        let ghost cv = c@;
        attrs.push(c);
        assert(attrs_view(attrs@) =~= attrs_view(prev).push(cv));
        assert(attrs_view(m.attrs@).take(k + 1) =~= attrs_view(m.attrs@).take(k as int).push(m.attrs@[k as int]@));
        assert(attrs_view(attrs@) =~= attrs_view(m.attrs@).take(k + 1));
        k = k + 1;
    }
    assert(attrs_view(m.attrs@).take(k as int) =~= attrs_view(m.attrs@));
    Method { name: m.name.clone(), attrs }
}

/// The response of a query returning `out`.
pub fn response_exec(out: &Vec<Tok>) -> (r: Vec<Tok>)
    ensures
        tokens::toks(r@) == response_of(tokens::toks(out@)),
{
    let ghost o = tokens::toks(out@);
    match grammar::parse_path(out, 0) {
        Ok(p) => if p.end == out.len() {
            match p.args {
                Some((a, b)) => {
                    let sp = grammar::split_args_exec(out, a, b);
                    if sp.len() > 0 {
                        let (x, y) = sp[0];
                        tokens::slice_toks(out, x, y)
                    } else {
                        tokens::copy_toks(out)
                    }
                },
                None => tokens::copy_toks(out),
            }
        } else {
            tokens::copy_toks(out)
        },
        Err(_) => tokens::copy_toks(out),
    }
}

/// The message of method `k`, `f`, if it declares one, with the diagnostics
/// on its parameters.
fn message_of(f: &FnModel, k: usize) -> (r: (Option<MsgVariant>, Vec<FieldDiag>))
    ensures
        match r.0 {
            Some(v) => fn_variant(*f) == Some(v@),
            None => fn_variant(*f) is None,
        },
        r.1@ == if fn_variant(*f) is Some { param_diags(f.params@, k) } else { Seq::empty() },
{
    let a = match method_msg_exec(&f.method) {
        Some(Ok(a)) => a,
        _ => {
            return (None, Vec::new());
        },
    };
    let ty = a.msg_type();
    let ghost ps = f.params@;
    let mut fields: Vec<MsgField> = Vec::new();
    let mut diags: Vec<FieldDiag> = Vec::new();
    let n = f.params.len();
    if n > 0 {
        let mut j: usize = 1;
        assert(param_diags(ps.take(1), k) == Seq::<FieldDiag>::empty());
        assert(Seq::new(fields@.len(), |i: int| fields@[i]@) =~= Seq::new(0 as nat, |i: int| param_field(ps[i + 1])));
        while j < n
            invariant
                1 <= j <= n,
                n == f.params.len(),
                ps == f.params@,
                Seq::new(fields@.len(), |i: int| fields@[i]@) == Seq::new((j - 1) as nat, |i: int| param_field(ps[i + 1])),
                diags@ == param_diags(ps.take(j as int), k),
            decreases n - j,
        {
            let p = &f.params[j];
            let (field, d) = MsgField::new(p.name.clone(), tokens::copy_toks(&p.ty), &p.attrs);
            let ghost fv = field@;
            assert(fv == param_field(ps[j as int]));
            let ghost prevf = fields@;
            fields.push(field);
            assert(Seq::new(fields@.len(), |i: int| fields@[i]@) =~= Seq::new(prevf.len(), |i: int| prevf[i]@).push(fv));
            assert(Seq::new(fields@.len(), |i: int| fields@[i]@) =~= Seq::new(j as nat, |i: int| param_field(ps[i + 1])));
            let ghost prevd = diags@;
            let mut q: usize = 0;
            while q < d.len()
                invariant
                    q <= d.len(),
                    diags@ == prevd + Seq::new(q as nat, |x: int| FieldDiag { method: k, param: j, diag: d@[x] }),
                decreases d.len() - q,
            {
                diags.push(FieldDiag { method: k, param: j, diag: d[q] });
                assert(diags@ =~= prevd + Seq::new((q + 1) as nat, |x: int| FieldDiag { method: k, param: j, diag: d@[x] }));
                q = q + 1;
            }
            assert(ps.take(j + 1).drop_last() =~= ps.take(j as int));
            assert(ps.take(j + 1).last() == ps[j as int]);
            assert(diags@ =~= param_diags(ps.take(j + 1), k));
            j = j + 1;
        }
        assert(ps.take(j as int) =~= ps);
    } else {
        assert(diags@ =~= param_diags(ps, k));
        assert(Seq::new(fields@.len(), |i: int| fields@[i]@) =~= message_fields(*f));
    }
    let return_type = if ty == MsgType::Query {
        match &a {
            MsgAttr::Query { resp_type: Some(r) } => {
                let mut t: Vec<Tok> = Vec::new();
                tokens::push_tok(&mut t, Tok::Ident(r.clone()));
                assert(tokens::toks(t@) =~= seq![TokV::Ident(r@)]);
                t
            },
            _ => response_exec(&f.output),
        }
    } else {
        Vec::new()
    };
    let v = MsgVariant { function_name: f.method.name.clone(), msg_type: ty, reply_on: ReplyOn::Success, handlers: Vec::new(), fields, return_type };
    assert(v@.handlers =~= Seq::<Seq<char>>::empty());
    assert(v@.fields =~= message_fields(*f));
    assert(v@.return_type =~= (if ty == MsgType::Query {
        query_response(a@, tokens::toks(f.output@))
    } else {
        Seq::empty()
    }));
    (Some(v), diags)
}

/// The messages the methods `fs` declare, in order, the diagnostics on the
/// parameters of those methods, and copies of the methods' names and
/// attributes.
pub fn fn_messages(fs: &Vec<FnModel>) -> (r: (Vec<MsgVariant>, Vec<FieldDiag>, Vec<Method>))
    ensures
        reply::variants_view(r.0@) == fn_variants(fs@),
        r.1@ == fn_field_diags(fs@),
        methods_attrs(r.2@) == fn_methods(fs@),
        r.2@.len() == fs@.len(),
        forall|i: int| 0 <= i < r.2@.len() ==> (#[trigger] r.2@[i]).name@ == fs@[i].method.name@,
{
    let mut vs: Vec<MsgVariant> = Vec::new();
    let mut ds: Vec<FieldDiag> = Vec::new();
    let mut ms: Vec<Method> = Vec::new();
    let mut i: usize = 0;
    assert(fs@.take(0) =~= Seq::<FnModel>::empty());
    while i < fs.len()
        invariant
            i <= fs.len(),
            reply::variants_view(vs@) == fn_variants(fs@.take(i as int)),
            ds@ == fn_field_diags(fs@.take(i as int)),
            methods_attrs(ms@) == fn_methods(fs@.take(i as int)),
            ms@.len() == i,
            forall|q: int| 0 <= q < i ==> (#[trigger] ms@[q]).name@ == fs@[q].method.name@,
        decreases fs.len() - i,
    {
        assert(fs@.take(i + 1).drop_last() =~= fs@.take(i as int));
        assert(fs@.take(i + 1).last() == fs@[i as int]);
        let (v, d) = message_of(&fs[i], i);
        match v {
            Some(v) => {
                let ghost prev = vs@;
                let ghost vv = v@;
                vs.push(v);
                assert(reply::variants_view(vs@) =~= reply::variants_view(prev).push(vv));
            },
            None => {},
        }
        let mut d = d;
        ds.append(&mut d);
        let m = copy_method(&fs[i].method);
        let ghost pm = ms@;
        let ghost mv = attrs_view(m.attrs@);
        ms.push(m);
        assert(methods_attrs(ms@) =~= methods_attrs(pm).push(mv));
        assert(methods_attrs(ms@) =~= fn_methods(fs@.take(i + 1)));
        i = i + 1;
    }
    assert(fs@.take(i as int) =~= fs@);
    (vs, ds, ms)
}

/// The error type of a contract with the attributes `av`.
pub open spec fn contract_error(av: Seq<AttributeV>, sy: Seq<TokV>) -> Seq<TokV> {
    match error_scan(av).0 {
        Some(ty) => ty,
        None => std_error(sy),
    }
}

/// The reply handling of a contract: its reply handlers and their plan.
pub open spec fn contract_reply(m: ImplModel, sy: Seq<TokV>) -> ReplyV {
    let vs = of_kind(fn_variants(m.methods@), MsgType::Reply);
    ReplyV {
        contract: tokens::toks(m.self_ty@),
        generics: generics_toks(m.generics@),
        where_clause: opt_where_tokens(where_value(m.where_clause)),
        variants: vs,
        datas: reply_plan(vs).0,
        error: contract_error(attrs_view(m.attrs@), sy),
    }
}

/// `inner` placed in the module `module`, before its closing brace.
pub open spec fn splice(module: Seq<TokV>, inner: Seq<TokV>) -> Seq<TokV> {
    module.drop_last() + inner + seq![TokV::Close(Delim::Brace)]
}

/// The module `sv` of a contract, with its reply handling inside when it
/// has reply handlers.
pub open spec fn contract_module(m: ImplModel, sy: Seq<TokV>, mt: bool, i2: bool) -> Seq<TokV> {
    let av = attrs_view(m.attrs@);
    let c = custom_of(av);
    let sv = contract_sv(
        fn_variants(m.methods@),
        tokens::toks(m.self_ty@),
        m.generics@,
        where_value(m.where_clause),
        interfaces_scan(av).0,
        overrides_scan(av).0,
        forwarded_scan(av),
        or_default(c.msg, sy),
        or_default(c.query, sy),
        contract_error(av, sy),
        sy,
        mt,
        i2,
    );
    let r = contract_reply(m, sy);
    if r.datas.len() == 0 {
        sv
    } else {
        splice(sv, reply_code(r, sy))
    }
}

/// The diagnostics of the generators of the instantiation and migration
/// messages of a contract with the messages `vs`.
pub open spec fn struct_message_diags(vs: Seq<MsgVariantV>) -> Seq<Diag> {
    single_message(variant_positions(vs, MsgType::Instantiate), MsgType::Instantiate).1 + single_message(
        variant_positions(vs, MsgType::Migrate),
        MsgType::Migrate,
    ).1
}

/// The diagnostics on a contract: on its attributes, on the methods
/// declaring its struct messages, from the generators of those messages, on
/// its reply handlers, and on a type that is not a path.
pub open spec fn contract_diags(m: ImplModel) -> Seq<Diag> {
    let av = attrs_view(m.attrs@);
    contract_attr_diags(av) + contract_message_diags(fn_methods(m.methods@)) + struct_message_diags(fn_variants(m.methods@)) + reply_plan(of_kind(fn_variants(m.methods@), MsgType::Reply)).1
        + if is_type_path(tokens::toks(m.self_ty@)) {
        Seq::empty()
    } else {
        seq![Diag::ContractTypeNotPath]
    }
}

/// The expansion of the `contract` macro with the arguments `attr` on the
/// implementation `m`: nothing when it has arguments; else the module `sv`
/// of the contract (none when its type is not a path), the diagnostics on
/// the contract and those on the parameters of its messages.
#[verifier::rlimit(60)]
#[verifier::spinoff_prover]
pub fn contract_expand(attr: &Vec<Tok>, m: &ImplModel, sylvia: &Vec<Tok>, mt: bool, i2: bool) -> (r: (Vec<Tok>, Vec<Diag>, Vec<FieldDiag>))
    ensures
        attr@.len() > 0 ==> tokens::toks(r.0@) == Seq::<TokV>::empty() && r.1@ == Seq::<Diag>::empty() && r.2@ == Seq::<FieldDiag>::empty(),
        attr@.len() == 0 ==> {
            &&& tokens::toks(r.0@) == if is_type_path(tokens::toks(m.self_ty@)) {
                contract_module(*m, tokens::toks(sylvia@), mt, i2)
            } else {
                Seq::empty()
            }
            &&& r.1@ == contract_diags(*m)
            &&& r.2@ == fn_field_diags(m.methods@)
        },
{
    if attr.len() > 0 {
        let e: Vec<Tok> = Vec::new();
        assert(tokens::toks(e@) =~= Seq::<TokV>::empty());
        return (e, Vec::new(), Vec::new());
    }
    let ghost av = attrs_view(m.attrs@);
    let ghost sy = tokens::toks(sylvia@);
    let (variants, field_diags, methods) = fn_messages(&m.methods);
    let (contract, mut diags) = ContractInput::new(m.generics.len(), &m.attrs, sylvia);
    let mut d = contract.message_diags(&methods);
    diags.append(&mut d);
    let (_, mut d) = select_struct_message(&positions_of_kind(&variants, MsgType::Instantiate), MsgType::Instantiate);
    diags.append(&mut d);
    let (_, mut d) = select_struct_message(&positions_of_kind(&variants, MsgType::Migrate), MsgType::Migrate);
    diags.append(&mut d);
    let replies = of_kind_exec(&variants, MsgType::Reply);
    let (reply, mut d) = Reply::new(
        tokens::copy_toks(&m.self_ty),
        generic_tokens(&m.generics),
        opt_where_to_tokens(&m.where_clause),
        replies,
        crate::copies::copy_error(&contract.error).error,
    );
    diags.append(&mut d);
    let is_path = is_type_path_exec(&m.self_ty);
    if !is_path {
        diags.push(Diag::ContractTypeNotPath);
        let e: Vec<Tok> = Vec::new();
        assert(tokens::toks(e@) =~= Seq::<TokV>::empty());
        assert(diags@ =~= contract_diags(*m));
        return (e, diags, field_diags);
    }
    assert(diags@ =~= contract_diags(*m));
    let fwd = msg_attrs_forward(&m.attrs);
    let mut sv = contract.process(&m.self_ty, &m.generics, &m.where_clause, &fwd, &variants, mt, i2, sylvia);
    let ghost svv = tokens::toks(sv@);
    if reply.reply_data.len() > 0 {
        let code = reply.emit(sylvia);
        assert(svv.len() > 0) by {
            reveal(contract_sv);
        }
        let ghost before = sv@;
        sv.pop();
        assert(tokens::toks(sv@) =~= svv.drop_last());
        tokens::extend_toks(&mut sv, &code);
        tokens::push_tok(&mut sv, Tok::Close(Delim::Brace));
        assert(tokens::toks(sv@) =~= splice(svv, tokens::toks(code@)));
    }
    (sv, diags, field_diags)
}

/// The names of the associated types.
pub open spec fn item_idents(items: Seq<TraitItemType>) -> Seq<Seq<char>> {
    Seq::new(items.len(), |i: int| items[i].ident@)
}

/// The errors and warnings on an interface trait with `n_generics`
/// generics, the associated types named `ids` and custom types given or not.
pub open spec fn item_diags(n_generics: usize, ids: Seq<Seq<char>>, has_custom_msg: bool, has_custom_query: bool) -> Seq<Diag> {
    (if n_generics != 0 { seq![Diag::GenericsOnTrait] } else { Seq::empty() }) + (if !ids.contains("Error"@) {
        seq![Diag::MissingErrorType]
    } else {
        Seq::empty()
    }) + (if !has_custom_msg && !ids.contains("ExecC"@) {
        seq![Diag::MissingExecType]
    } else {
        Seq::empty()
    }) + (if !has_custom_query && !ids.contains("QueryC"@) {
        seq![Diag::MissingQueryType]
    } else {
        Seq::empty()
    })
}

/// The module `sv` of an interface.
pub open spec fn interface_module(t: TraitModel, sy: Seq<TokV>, mt: bool) -> Seq<TokV> {
    let av = attrs_view(t.attrs@);
    interface_sv(
        t.ident@,
        fn_variants(t.methods@),
        t.items@,
        where_value(t.where_clause),
        custom_of(av).msg,
        custom_of(av).query,
        forwarded_scan(av),
        sy,
        mt,
    )
}

/// The diagnostics on an interface: on its custom types, on the trait, and
/// on the messages of its methods.
pub open spec fn trait_diags(t: TraitModel) -> Seq<Diag> {
    let av = attrs_view(t.attrs@);
    customs_scan(av).1 + item_diags(t.n_generics, item_idents(t.items@), custom_of(av).msg is Some, custom_of(av).query is Some)
        + interface_message_diags(fn_methods(t.methods@))
}

/// The expansion of the `interface` macro on the trait `t`: the module `sv`
/// of the interface, the diagnostics on it and those on the parameters of
/// its messages.
#[verifier::rlimit(60)]
#[verifier::spinoff_prover]
pub fn interface_expand(t: &TraitModel, sylvia: &Vec<Tok>, mt: bool) -> (r: (Vec<Tok>, Vec<Diag>, Vec<FieldDiag>))
    ensures
        tokens::toks(r.0@) == interface_module(*t, tokens::toks(sylvia@), mt),
        r.1@ == trait_diags(*t),
        r.2@ == fn_field_diags(t.methods@),
{
    let ghost av = attrs_view(t.attrs@);
    let ghost ids = item_idents(t.items@);
    let (custom, mut diags) = Custom::new(&t.attrs);
    let mut types: Vec<String> = Vec::new();
    let mut k: usize = 0;
    while k < t.items.len()
        invariant
            k <= t.items.len(),
            ids == item_idents(t.items@),
            types@.len() == k,
            forall|q: int| 0 <= q < k ==> (#[trigger] types@[q])@ == ids[q],
        decreases t.items.len() - k,
    {
        types.push(String::from_str(t.items[k].ident.as_str()));
        k = k + 1;
    }
    assert forall|s: Seq<char>| has_name(types@, s) == ids.contains(s) by {
        if has_name(types@, s) {
            let i = choose|i: int| 0 <= i < types@.len() && (#[trigger] types@[i])@ == s;
            assert(ids[i] == s);
        }
        if ids.contains(s) {
            let i = choose|i: int| 0 <= i < ids.len() && ids[i] == s;
            assert(types@[i]@ == s);
        }
    }
    let (input, mut d) = InterfaceInput::new(t.n_generics, &types, custom);
    diags.append(&mut d);
    let (variants, field_diags, methods) = fn_messages(&t.methods);
    let mut d = input.message_diags(&methods);
    diags.append(&mut d);
    assert(diags@ =~= trait_diags(*t));
    let fwd = msg_attrs_forward(&t.attrs);
    let out = input.process(&t.ident, &t.items, &t.where_clause, &fwd, &variants, mt, sylvia);
    (out, diags, field_diags)
}

/// The number of concrete types the arguments give for the contract's generics.
pub open spec fn given_types(a: EntryPointArgsV) -> nat {
    match a.generics {
        Some(g) => g.len(),
        None => 0,
    }
}

/// The entry points of the contract `m` under the arguments `a`.
pub open spec fn entry_points_of(m: ImplModel, a: EntryPointArgsV, sy: Seq<TokV>) -> EntryPointsV {
    let av = attrs_view(m.attrs@);
    let ma = fn_methods(m.methods@);
    let rp = kind_positions(ma, MsgType::Reply);
    EntryPointsV {
        name: strip_angles(tokens::toks(m.self_ty@), 0, m.self_ty@.len() as int, 0),
        error: contract_error(av, sy),
        reply: if rp.len() == 0 {
            None
        } else {
            Some(m.methods@[rp[0] as int].method.name@)
        },
        overrides: overrides_scan(av).0,
        has_migrate: kind_positions(ma, MsgType::Migrate).len() == 1,
        generics: match a.generics {
            Some(g) => g,
            None => Seq::empty(),
        },
    }
}

/// The diagnostics of the `entry_points` macro: on the number of concrete
/// types and of instantiation messages, then on the attributes.
pub open spec fn entry_points_diags(m: ImplModel, a: EntryPointArgsV) -> Seq<Diag> {
    let av = attrs_view(m.attrs@);
    (if given_types(a) != m.generics@.len() { seq![Diag::MissingConcreteTypes] } else { Seq::empty() }) + (if kind_positions(
        fn_methods(m.methods@),
        MsgType::Instantiate,
    ).len() != 1 {
        seq![Diag::MissingInstantiationMessage]
    } else {
        Seq::empty()
    }) + overrides_scan(av).1 + error_scan(av).1
}

/// The expansion of the `entry_points` macro with the arguments `attr` on the
/// implementation `m`: the error on arguments that do not parse; else the
/// module `entry_points` and the diagnostics.
pub fn entry_points_expand(attr: &Vec<Tok>, m: &ImplModel, sylvia: &Vec<Tok>) -> (r: Result<(Vec<Tok>, Vec<Diag>), ParseError>)
    ensures
        match p_entry_point_args(tokens::toks(attr@)) {
            Err(e) => r == Err::<(Vec<Tok>, Vec<Diag>), ParseError>(e),
            Ok(a) => r matches Ok(x) && tokens::toks(x.0@) == entry_points_module(entry_points_of(*m, a, tokens::toks(sylvia@)), tokens::toks(sylvia@))
                && x.1@ == entry_points_diags(*m, a),
        },
{
    let args = match EntryPointArgs::parse(attr) {
        Ok(a) => a,
        Err(e) => {
            return Err(e);
        },
    };
    let ghost a = args@;
    let (_, _, methods) = fn_messages(&m.methods);
    let n_instantiate = methods_of_kind(&methods, MsgType::Instantiate).len();
    let (eps, d) = EntryPoints::new(&m.self_ty, &m.attrs, &methods, &args, sylvia);
    let (_, mut diags) = EntryPointInput::new(args, m.generics.len(), n_instantiate);
    let mut d = d;
    diags.append(&mut d);
    let rps = methods_of_kind(&methods, MsgType::Reply);
    let ghost rp = kind_positions(fn_methods(m.methods@), MsgType::Reply);
    proof {
        if rp.len() > 0 {
            assert(methods@[rp[0] as int].name@ == m.methods@[rp[0] as int].method.name@);
        }
    }
    assert(eps@ == entry_points_of(*m, a, tokens::toks(sylvia@)));
    assert(diags@ =~= entry_points_diags(*m, a));
    Ok((eps.emit(sylvia), diags))
}

} // verus!
