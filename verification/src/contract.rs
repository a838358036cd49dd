//! Checked input of the `contract` macro.
use vstd::prelude::*;
use crate::diag::Diag;
use crate::interfaces::{self, Interfaces};
use crate::msg_type::MsgType;
use crate::parser::{self, Attribute, ContractErrorAttr, Custom, Method, OverrideEntryPoints};
use crate::tokens;

verus! {

/// What the code of a contract is generated from, read from the attributes
/// of its implementation.
#[derive(Debug)]
pub struct ContractInput {
    /// The number of generic parameters of the implementation.
    pub n_generics: usize,
    pub error: ContractErrorAttr,
    pub custom: Custom,
    pub override_entry_points: OverrideEntryPoints,
    pub interfaces: Interfaces,
}

/// The checked input of the `contract` macro, under its other name.
pub type ImplInput = ContractInput;

/// The errors on the attributes of a contract implementation: those of its
/// error type, custom types, overridden entry points and interfaces.
pub open spec fn contract_attr_diags(as_: Seq<parser::AttributeV>) -> Seq<Diag> {
    parser::error_scan(as_).1 + parser::customs_scan(as_).1 + parser::overrides_scan(as_).1 + interfaces::interfaces_scan(
        as_,
    ).1
}

/// The errors on the struct messages of a contract with the methods `ms`:
/// on its instantiation message, then on its migration message.
pub open spec fn contract_message_diags(ms: Seq<Seq<parser::AttributeV>>) -> Seq<Diag> {
    parser::struct_message(ms, MsgType::Instantiate).1 + parser::struct_message(ms, MsgType::Migrate).1
}

impl ContractInput {
    /// Reads a contract implementation with `n_generics` generic parameters
    /// and the attributes `attrs`; reports the attributes that do not parse.
    pub fn new(n_generics: usize, attrs: &Vec<Attribute>, sylvia: &Vec<tokens::Tok>) -> (r: (ContractInput, Vec<Diag>))
        ensures
            r.0.n_generics == n_generics,
            tokens::toks(r.0.error.error@) == match parser::error_scan(parser::attrs_view(attrs@)).0 {
                Some(ty) => ty,
                None => parser::std_error(tokens::toks(sylvia@)),
            },
            r.0.custom@ == parser::custom_of(parser::attrs_view(attrs@)),
            parser::overrides_view(r.0.override_entry_points.0@) == parser::overrides_scan(parser::attrs_view(attrs@)).0,
            interfaces::interfaces_view(r.0.interfaces.interfaces@) == interfaces::interfaces_scan(parser::attrs_view(attrs@)).0,
            r.1@ == contract_attr_diags(parser::attrs_view(attrs@)),
    {
        let (error, mut diags) = ContractErrorAttr::new(attrs, sylvia);
        let (custom, mut d) = Custom::new(attrs);
        diags.append(&mut d);
        let (override_entry_points, mut d) = OverrideEntryPoints::new(attrs);
        diags.append(&mut d);
        let (interfaces, mut d) = Interfaces::new(attrs);
        diags.append(&mut d);
        (ContractInput { n_generics, error, custom, override_entry_points, interfaces }, diags)
    }

    /// Checks the struct messages the methods `methods` declare: exactly one
    /// instantiation message, at most one migration message, and `msg`
    /// attributes that parse.
    pub fn message_diags(&self, methods: &Vec<Method>) -> (r: Vec<Diag>)
        ensures
            r@ == contract_message_diags(parser::methods_attrs(methods@)),
    {
        let (_, mut diags) = parser::parse_struct_message(methods, MsgType::Instantiate);
        let (_, mut d) = parser::parse_struct_message(methods, MsgType::Migrate);
        diags.append(&mut d);
        diags
    }
}

} // verus!
