//! Copies of the parts of the model that several generators read, each equal
//! in value to its original.
use vstd::prelude::*;
use crate::associated_types::{predicates_view, WhereClause, WherePredicate};
use crate::interfaces::{interfaces_view, Interfaces};
use crate::parser::{self, ContractErrorAttr, ContractMessageAttr, Custom, OverrideEntryPoint, OverrideEntryPoints};
use crate::querier::where_value;
use crate::reply::{self, MsgField, MsgVariant};
use crate::tokens::{self, Tok};

verus! {

/// A copy of a sequence of token sequences.
pub fn copy_toks2(v: &Vec<Vec<Tok>>) -> (r: Vec<Vec<Tok>>)
    ensures
        parser::toks2(r@) == parser::toks2(v@),
{
    let mut r: Vec<Vec<Tok>> = Vec::new();
    let mut k: usize = 0;
    while k < v.len()
        invariant
            k <= v@.len(),
            r@.len() == k,
            forall|q: int| 0 <= q < k ==> tokens::toks((#[trigger] r@[q])@) == tokens::toks(v@[q]@),
        decreases v@.len() - k,
    {
        r.push(tokens::copy_toks(&v[k]));
        k = k + 1;
    }
    assert(parser::toks2(r@) =~= parser::toks2(v@));
    r
}

fn copy_opt_toks(v: &Option<Vec<Tok>>) -> (r: Option<Vec<Tok>>)
    ensures
        match (r, v) {
            (Some(a), Some(b)) => tokens::toks(a@) == tokens::toks(b@),
            (None, None) => true,
            _ => false,
        },
{
    match v {
        Some(t) => Some(tokens::copy_toks(t)),
        None => None,
    }
}

fn copy_predicate(p: &WherePredicate) -> (r: WherePredicate)
    ensures
        r@ == p@,
{
    match p {
        WherePredicate::Type { lifetimes, bounded_ty, bounds } => WherePredicate::Type {
            lifetimes: copy_opt_toks(lifetimes),
            bounded_ty: tokens::copy_toks(bounded_ty),
            bounds: tokens::copy_toks(bounds),
        },
        WherePredicate::Lifetime(t) => WherePredicate::Lifetime(tokens::copy_toks(t)),
    }
}

/// A copy of a where clause.
pub fn copy_where(w: &Option<WhereClause>) -> (r: Option<WhereClause>)
    ensures
        where_value(r) == where_value(*w),
{
    match w {
        None => None,
        Some(c) => {
            let mut ps: Vec<WherePredicate> = Vec::new();
            let mut k: usize = 0;
            while k < c.predicates.len()
                invariant
                    k <= c.predicates@.len(),
                    ps@.len() == k,
                    forall|q: int| 0 <= q < k ==> (#[trigger] ps@[q])@ == c.predicates@[q]@,
                decreases c.predicates@.len() - k,
            {
                ps.push(copy_predicate(&c.predicates[k]));
                k = k + 1;
            }
            assert(predicates_view(ps@) =~= predicates_view(c.predicates@));
            Some(WhereClause { predicates: ps, trailing_comma: c.trailing_comma })
        },
    }
}

fn copy_field(f: &MsgField) -> (r: MsgField)
    ensures
        r@ == f@,
{
    MsgField { name: f.name.clone(), ty: tokens::copy_toks(&f.ty), data: f.data, payload: f.payload }
}

/// A copy of a method.
pub fn copy_variant(v: &MsgVariant) -> (r: MsgVariant)
    ensures
        r@ == v@,
{
    let mut handlers: Vec<String> = Vec::new();
    let mut k: usize = 0;
    while k < v.handlers.len()
        invariant
            k <= v.handlers@.len(),
            handlers@.len() == k,
            forall|q: int| 0 <= q < k ==> (#[trigger] handlers@[q])@ == v.handlers@[q]@,
        decreases v.handlers@.len() - k,
    {
        handlers.push(v.handlers[k].clone());
        k = k + 1;
    }
    let mut fields: Vec<MsgField> = Vec::new();
    let mut k: usize = 0;
    while k < v.fields.len()
        invariant
            k <= v.fields@.len(),
            fields@.len() == k,
            forall|q: int| 0 <= q < k ==> (#[trigger] fields@[q])@ == v.fields@[q]@,
        decreases v.fields@.len() - k,
    {
        fields.push(copy_field(&v.fields[k]));
        k = k + 1;
    }
    let r = MsgVariant {
        function_name: v.function_name.clone(),
        msg_type: v.msg_type,
        reply_on: v.reply_on,
        handlers,
        fields,
        return_type: tokens::copy_toks(&v.return_type),
    };
    assert(r@.handlers =~= v@.handlers);
    assert(r@.fields =~= v@.fields);
    r
}

/// A copy of the methods.
pub fn copy_variants(v: &Vec<MsgVariant>) -> (r: Vec<MsgVariant>)
    ensures
        reply::variants_view(r@) == reply::variants_view(v@),
{
    let mut r: Vec<MsgVariant> = Vec::new();
    let mut k: usize = 0;
    while k < v.len()
        invariant
            k <= v@.len(),
            r@.len() == k,
            forall|q: int| 0 <= q < k ==> (#[trigger] r@[q])@ == v@[q]@,
        decreases v@.len() - k,
    {
        r.push(copy_variant(&v[k]));
        k = k + 1;
    }
    assert(reply::variants_view(r@) =~= reply::variants_view(v@));
    r
}

/// A copy of the custom types.
pub fn copy_custom(c: &Custom) -> (r: Custom)
    ensures
        r@ == c@,
{
    Custom { msg: copy_opt_toks(&c.msg), query: copy_opt_toks(&c.query), input_attr: c.input_attr }
}

/// A copy of the error type.
pub fn copy_error(e: &ContractErrorAttr) -> (r: ContractErrorAttr)
    ensures
        tokens::toks(r.error@) == tokens::toks(e.error@),
{
    ContractErrorAttr { error: tokens::copy_toks(&e.error) }
}

/// A copy of the interfaces.
pub fn copy_interfaces(i: &Interfaces) -> (r: Interfaces)
    ensures
        interfaces_view(r.interfaces@) == interfaces_view(i.interfaces@),
{
    let mut v: Vec<ContractMessageAttr> = Vec::new();
    let mut k: usize = 0;
    while k < i.interfaces.len()
        invariant
            k <= i.interfaces@.len(),
            v@.len() == k,
            forall|q: int| 0 <= q < k ==> (#[trigger] v@[q])@ == i.interfaces@[q]@,
        decreases i.interfaces@.len() - k,
    {
        let a = &i.interfaces[k];
        let c = ContractMessageAttr {
            module: tokens::copy_toks(&a.module),
            variant: a.variant.clone(),
            customs: a.customs,
            generics: copy_toks2(&a.generics),
        };
        v.push(c);
        k = k + 1;
    }
    assert(interfaces_view(v@) =~= interfaces_view(i.interfaces@));
    Interfaces { interfaces: v }
}

/// A copy of the overridden entry points.
pub fn copy_overrides(o: &OverrideEntryPoints) -> (r: OverrideEntryPoints)
    ensures
        parser::overrides_view(r.0@) == parser::overrides_view(o.0@),
{
    let mut v: Vec<OverrideEntryPoint> = Vec::new();
    let mut k: usize = 0;
    while k < o.0.len()
        invariant
            k <= o.0@.len(),
            v@.len() == k,
            forall|q: int| 0 <= q < k ==> (#[trigger] v@[q])@ == o.0@[q]@,
        decreases o.0@.len() - k,
    {
        let e = &o.0[k];
        v.push(OverrideEntryPoint {
            entry_point: tokens::copy_toks(&e.entry_point),
            msg_name: tokens::copy_toks(&e.msg_name),
            msg_type: e.msg_type,
        });
        k = k + 1;
    }
    assert(parser::overrides_view(v@) =~= parser::overrides_view(o.0@));
    OverrideEntryPoints(v)
}

} // verus!
