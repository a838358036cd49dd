//! Checks on the input of the `interface` macro and of message sets.
use vstd::prelude::*;
use crate::diag::Diag;
use crate::msg_type::MsgType;
use crate::parser::{self, Custom, Method};
use crate::tokens;

verus! {

/// Whether `s` is among the names.
pub open spec fn has_name(names: Seq<String>, s: Seq<char>) -> bool {
    exists|i: int| 0 <= i < names.len() && (#[trigger] names[i])@ == s
}

/// Whether `s` is among the names.
fn has_name_exec(names: &Vec<String>, s: &str) -> (b: bool)
    ensures
        b == has_name(names@, s@),
{
    let mut i: usize = 0;
    while i < names.len()
        invariant
            i <= names.len(),
            forall|q: int| 0 <= q < i ==> (#[trigger] names@[q])@ != s@,
        decreases names.len() - i,
    {
        if tokens::string_is(&names[i], s) {
            return true;
        }
        i = i + 1;
    }
    false
}

/// Errors and warnings on an interface trait: generics are not supported;
/// an `Error` type is required; without `ExecC` (or `QueryC`) and without the
/// matching custom type, the interface only fits contracts with no custom
/// message (or query).
pub open spec fn interface_diags(n_generics: usize, types: Seq<String>, has_custom_msg: bool, has_custom_query: bool) -> Seq<Diag> {
    (if n_generics != 0 { seq![Diag::GenericsOnTrait] } else { Seq::empty() }) + (if !has_name(types, "Error"@) {
        seq![Diag::MissingErrorType]
    } else {
        Seq::empty()
    }) + (if !has_custom_msg && !has_name(types, "ExecC"@) {
        seq![Diag::MissingExecType]
    } else {
        Seq::empty()
    }) + (if !has_custom_query && !has_name(types, "QueryC"@) {
        seq![Diag::MissingQueryType]
    } else {
        Seq::empty()
    })
}

/// Checked input of the `interface` macro: its custom types.
#[derive(Debug)]
pub struct InterfaceInput {
    pub custom: Custom,
}

/// The checked input of the `interface` macro, under its other name.
pub type TraitInput = InterfaceInput;

impl InterfaceInput {
    /// Checks an interface trait with `n_generics` generic parameters, the
    /// associated types `types`, and the custom types `custom`.
    pub fn new(n_generics: usize, types: &Vec<String>, custom: Custom) -> (r: (InterfaceInput, Vec<Diag>))
        ensures
            r.1@ == interface_diags(n_generics, types@, custom@.msg is Some, custom@.query is Some),
            r.0.custom@ == custom@,
    {
        let mut diags: Vec<Diag> = Vec::new();
        if n_generics != 0 {
            diags.push(Diag::GenericsOnTrait);
        }
        if !has_name_exec(types, "Error") {
            diags.push(Diag::MissingErrorType);
        }
        if custom.msg.is_none() && !has_name_exec(types, "ExecC") {
            diags.push(Diag::MissingExecType);
        }
        if custom.query.is_none() && !has_name_exec(types, "QueryC") {
            diags.push(Diag::MissingQueryType);
        }
        assert(diags@ =~= interface_diags(n_generics, types@, custom@.msg is Some, custom@.query is Some));
        (InterfaceInput { custom }, diags)
    }
}

/// Errors on the messages of an interface with the methods `ms`: the first
/// method declaring an instantiation message and the first declaring a
/// migration message, if any.
pub open spec fn interface_message_diags(ms: Seq<Seq<parser::AttributeV>>) -> Seq<Diag> {
    let inst = parser::kind_positions(ms, MsgType::Instantiate);
    let migr = parser::kind_positions(ms, MsgType::Migrate);
    (if inst.len() > 0 { seq![Diag::InstantiateInInterface { method: inst[0] }] } else { Seq::empty() }) + (if migr.len()
        > 0 {
        seq![Diag::MigrateInInterface { method: migr[0] }]
    } else {
        Seq::empty()
    })
}

impl InterfaceInput {
    /// Checks the messages the methods `methods` of the interface declare:
    /// instantiation and migration messages belong to contracts.
    pub fn message_diags(&self, methods: &Vec<Method>) -> (r: Vec<Diag>)
        ensures
            r@ == interface_message_diags(parser::methods_attrs(methods@)),
    {
        let mut diags: Vec<Diag> = Vec::new();
        let inst = parser::methods_of_kind(methods, MsgType::Instantiate);
        if inst.len() > 0 {
            diags.push(Diag::InstantiateInInterface { method: inst[0] });
        }
        let migr = parser::methods_of_kind(methods, MsgType::Migrate);
        if migr.len() > 0 {
            diags.push(Diag::MigrateInInterface { method: migr[0] });
        }
        assert(diags@ =~= interface_message_diags(parser::methods_attrs(methods@)));
        diags
    }
}

/// The message of a single-message kind (instantiation, migration) among the
/// methods `variants` of that kind, given by their positions: none and an
/// error without an instantiation message, none and an error naming the
/// first two with more than one.
pub open spec fn single_message(variants: Seq<usize>, ty: MsgType) -> (Option<usize>, Seq<Diag>) {
    if variants.len() == 0 {
        (None, if ty == MsgType::Instantiate { seq![Diag::MissingContractInstantiation] } else { Seq::empty() })
    } else if variants.len() > 1 {
        (None, seq![Diag::MultipleMessages { method: variants[1], first: variants[0] }])
    } else {
        (Some(variants[0]), Seq::empty())
    }
}

/// The struct message of kind `ty`: the only method of that kind.
pub fn select_struct_message(variants: &Vec<usize>, ty: MsgType) -> (r: (Option<usize>, Vec<Diag>))
    ensures
        (r.0, r.1@) == single_message(variants@, ty),
{
    let mut diags: Vec<Diag> = Vec::new();
    if variants.len() == 0 {
        if ty == MsgType::Instantiate {
            diags.push(Diag::MissingContractInstantiation);
        }
        assert(diags@ =~= single_message(variants@, ty).1);
        (None, diags)
    } else if variants.len() > 1 {
        diags.push(Diag::MultipleMessages { method: variants[1], first: variants[0] });
        assert(diags@ =~= single_message(variants@, ty).1);
        (None, diags)
    } else {
        assert(diags@ =~= Seq::<Diag>::empty());
        (Some(variants[0]), diags)
    }
}

} // verus!
