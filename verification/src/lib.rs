//! Verified core of the sylvia code generators.
//!
//! The attribute grammar of sylvia (`#[sv::msg(..)]`, `#[sv::custom(..)]`,
//! `#[sv::messages(..)]`, `#[entry_points(generics<..>)]`, ...), the
//! bookkeeping of generics, the planning of reply handlers and entry points,
//! the naming rules of the generated code, and the generation of the code of
//! entry points, reply handling, interface glue, wrapper and struct messages,
//! query and execution helpers, MultiTest proxies, API traits and instantiate
//! builders work here on a plain model of token streams and items. Every
//! generator states the exact tokens it produces.
use vstd::prelude::*;

pub mod tokens;
pub mod case;
pub mod diag;
pub mod msg_type;
pub mod reply;
pub mod grammar;
pub mod parser;
pub mod check_generics;
pub mod cw1;
pub mod mod_folder;
pub mod interfaces;
pub mod associated_types;
pub mod entry_points;
pub mod interface;
pub mod reply_emit;
pub mod contract;
pub mod querier;
pub mod executor;
pub mod interface_helpers;
pub mod mt;
pub mod api;
pub mod instantiate_builder;
pub mod interface_api;
pub mod multitest;
pub mod glue;
pub mod struct_msg;
pub mod impl_mt;
pub mod enum_msg;
pub mod interface_enum_msg;
pub mod copies;
pub mod compose;
pub mod expand;

verus! {

} // verus!
