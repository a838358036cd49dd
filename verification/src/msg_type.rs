//! Kinds of messages and the names and signatures generated for each kind.
use vstd::prelude::*;
use crate::tokens;
use crate::tokens::{Tok, TokV, Delim, push_ident, push_punct, push_tok, extend_toks};

verus! {

/// Type of message to be generated
#[derive(PartialEq, Eq, Structural, Debug, Clone, Copy)]
pub enum MsgType {
    Exec,
    Query,
    Instantiate,
    Migrate,
    Reply,
    Sudo,
}

/// `path :: cw_std :: name`, where `path` is the path of the sylvia crate.
pub open spec fn cw_std_item(sylvia: Seq<TokV>, name: &str) -> Seq<TokV> {
    sylvia + tokens::colon2() + seq![tokens::id("cw_std")] + tokens::colon2() + seq![tokens::id(name)]
}

/// `path :: cw_std :: name < arg >`
pub open spec fn cw_std_generic(sylvia: Seq<TokV>, name: &str, arg: Seq<TokV>) -> Seq<TokV> {
    cw_std_item(sylvia, name) + seq![tokens::pc('<')] + arg + seq![tokens::pc('>')]
}

/// The dependencies handed to a handler of the kind: `DepsMut` for the kinds
/// that change state, `Deps` for queries.
pub open spec fn deps_type(ty: MsgType, sylvia: Seq<TokV>, query: Seq<TokV>) -> Seq<TokV> {
    match ty {
        MsgType::Query => cw_std_generic(sylvia, "Deps", query),
        _ => cw_std_generic(sylvia, "DepsMut", query),
    }
}

/// Whether the context of the kind carries the `MessageInfo`.
pub open spec fn has_info(ty: MsgType) -> bool {
    ty == MsgType::Exec || ty == MsgType::Instantiate
}

/// `( deps , env [, info] )` as types.
pub open spec fn ctx_type(ty: MsgType, sylvia: Seq<TokV>, query: Seq<TokV>) -> Seq<TokV> {
    let base = seq![TokV::Open(Delim::Paren)] + deps_type(ty, sylvia, query) + seq![tokens::pc(',')]
        + cw_std_item(sylvia, "Env");
    if has_info(ty) {
        base + seq![tokens::pc(',')] + cw_std_item(sylvia, "MessageInfo") + seq![TokV::Close(Delim::Paren)]
    } else {
        base + seq![TokV::Close(Delim::Paren)]
    }
}

/// `deps : .. , env : .. [, info : ..]` as parameters.
pub open spec fn ctx_params(ty: MsgType, sylvia: Seq<TokV>, query: Seq<TokV>) -> Seq<TokV> {
    let base = seq![tokens::id("deps"), tokens::pc(':')] + deps_type(ty, sylvia, query) + seq![tokens::pc(','), tokens::id("env"), tokens::pc(':')]
        + cw_std_item(sylvia, "Env");
    if has_info(ty) {
        base + seq![tokens::pc(','), tokens::id("info"), tokens::pc(':')] + cw_std_item(sylvia, "MessageInfo")
    } else {
        base
    }
}

/// `deps , env [, info]` as values.
pub open spec fn ctx_values(ty: MsgType) -> Seq<TokV> {
    if has_info(ty) {
        seq![tokens::id("deps"), tokens::pc(','), tokens::id("env"), tokens::pc(','), tokens::id("info")]
    } else {
        seq![tokens::id("deps"), tokens::pc(','), tokens::id("env")]
    }
}

/// `std :: result :: Result < ok , err >`
pub open spec fn std_result(ok: Seq<TokV>, err: Seq<TokV>) -> Seq<TokV> {
    seq![tokens::id("std")] + tokens::colon2() + seq![tokens::id("result")] + tokens::colon2() + seq![tokens::id("Result"), tokens::pc('<')] + ok
        + seq![tokens::pc(',')] + err + seq![tokens::pc('>')]
}

/// The type returned by the dispatch function of the kind: a `Binary` for
/// queries, a `Response` carrying the custom message otherwise.
pub open spec fn result_type(ty: MsgType, sylvia: Seq<TokV>, msg: Seq<TokV>, err: Seq<TokV>) -> Seq<TokV> {
    match ty {
        MsgType::Query => std_result(cw_std_item(sylvia, "Binary"), err),
        _ => std_result(cw_std_generic(sylvia, "Response", msg), err),
    }
}

/// Name of the entry point of the kind.
pub open spec fn ep_name(ty: MsgType) -> Seq<char> {
    match ty {
        MsgType::Exec => "execute"@,
        MsgType::Instantiate => "instantiate"@,
        MsgType::Migrate => "migrate"@,
        MsgType::Sudo => "sudo"@,
        MsgType::Reply => "reply"@,
        MsgType::Query => "query"@,
    }
}

/// Name of the generated message type of the kind; the wrapper message of a
/// contract composes its own messages with the ones of its interfaces.
pub open spec fn msg_name(ty: MsgType, is_wrapper: bool) -> Seq<char> {
    match ty {
        MsgType::Exec => if is_wrapper { "ContractExecMsg"@ } else { "ExecMsg"@ },
        MsgType::Query => if is_wrapper { "ContractQueryMsg"@ } else { "QueryMsg"@ },
        MsgType::Instantiate => "InstantiateMsg"@,
        MsgType::Migrate => "MigrateMsg"@,
        MsgType::Reply => "ReplyMsg"@,
        MsgType::Sudo => if is_wrapper { "ContractSudoMsg"@ } else { "SudoMsg"@ },
    }
}

/// Name of the associated type under which the message of the kind is found.
pub open spec fn accessor_name(ty: MsgType, is_wrapper: bool) -> Seq<char> {
    match ty {
        MsgType::Exec => if is_wrapper { "ContractExec"@ } else { "Exec"@ },
        MsgType::Query => if is_wrapper { "ContractQuery"@ } else { "Query"@ },
        MsgType::Instantiate => "Instantiate"@,
        MsgType::Migrate => "Migrate"@,
        MsgType::Sudo => "Sudo"@,
        MsgType::Reply => "Reply"@,
    }
}

/// Appends `path :: cw_std :: name`.
pub(crate) fn push_cw_std_item(dst: &mut Vec<Tok>, sylvia: &Vec<Tok>, name: &str)
    ensures
        tokens::toks(final(dst)@) == tokens::toks(old(dst)@) + cw_std_item(tokens::toks(sylvia@), name),
{
    extend_toks(dst, sylvia);
    push_punct(dst, ':');
    push_punct(dst, ':');
    push_ident(dst, "cw_std");
    push_punct(dst, ':');
    push_punct(dst, ':');
    push_ident(dst, name);
    proof {
        assert(tokens::toks(dst@) =~= tokens::toks(old(dst)@) + cw_std_item(tokens::toks(sylvia@), name));
    }
}

/// Appends `path :: cw_std :: name < arg >`.
fn push_cw_std_generic(dst: &mut Vec<Tok>, sylvia: &Vec<Tok>, name: &str, arg: &Vec<Tok>)
    ensures
        tokens::toks(final(dst)@) == tokens::toks(old(dst)@) + cw_std_generic(tokens::toks(sylvia@), name, tokens::toks(arg@)),
{
    push_cw_std_item(dst, sylvia, name);
    push_punct(dst, '<');
    extend_toks(dst, arg);
    push_punct(dst, '>');
    proof {
        assert(tokens::toks(dst@) =~= tokens::toks(old(dst)@) + cw_std_generic(tokens::toks(sylvia@), name, tokens::toks(arg@)));
    }
}

impl MsgType {
    fn push_deps(self, dst: &mut Vec<Tok>, sylvia: &Vec<Tok>, query_type: &Vec<Tok>)
        ensures
            tokens::toks(final(dst)@) == tokens::toks(old(dst)@) + deps_type(self, tokens::toks(sylvia@), tokens::toks(query_type@)),
    {
        match self {
            MsgType::Query => push_cw_std_generic(dst, sylvia, "Deps", query_type),
            _ => push_cw_std_generic(dst, sylvia, "DepsMut", query_type),
        }
    }

    fn has_info(self) -> (b: bool)
        ensures
            b == has_info(self),
    {
        match self {
            MsgType::Exec | MsgType::Instantiate => true,
            _ => false,
        }
    }

    /// The type of the context tuple handed to a dispatch function.
    pub fn emit_ctx_type(self, sylvia: &Vec<Tok>, query_type: &Vec<Tok>) -> (r: Vec<Tok>)
        ensures
            tokens::toks(r@) == ctx_type(self, tokens::toks(sylvia@), tokens::toks(query_type@)),
    {
        let mut r: Vec<Tok> = Vec::new();
        push_tok(&mut r, Tok::Open(Delim::Paren));
        self.push_deps(&mut r, sylvia, query_type);
        push_punct(&mut r, ',');
        push_cw_std_item(&mut r, sylvia, "Env");
        if self.has_info() {
            push_punct(&mut r, ',');
            push_cw_std_item(&mut r, sylvia, "MessageInfo");
        }
        push_tok(&mut r, Tok::Close(Delim::Paren));
        proof {
            assert(tokens::toks(r@) =~= ctx_type(self, tokens::toks(sylvia@), tokens::toks(query_type@)));
        }
        r
    }

    /// The parameters of an entry point receiving the context.
    pub fn emit_ctx_params(self, sylvia: &Vec<Tok>, query_type: &Vec<Tok>) -> (r: Vec<Tok>)
        ensures
            tokens::toks(r@) == ctx_params(self, tokens::toks(sylvia@), tokens::toks(query_type@)),
    {
        let mut r: Vec<Tok> = Vec::new();
        push_ident(&mut r, "deps");
        push_punct(&mut r, ':');
        self.push_deps(&mut r, sylvia, query_type);
        push_punct(&mut r, ',');
        push_ident(&mut r, "env");
        push_punct(&mut r, ':');
        push_cw_std_item(&mut r, sylvia, "Env");
        if self.has_info() {
            push_punct(&mut r, ',');
            push_ident(&mut r, "info");
            push_punct(&mut r, ':');
            push_cw_std_item(&mut r, sylvia, "MessageInfo");
        }
        proof {
            assert(tokens::toks(r@) =~= ctx_params(self, tokens::toks(sylvia@), tokens::toks(query_type@)));
        }
        r
    }

    /// The name of the entry point of this kind.
    pub fn emit_ep_name(self) -> (r: String)
        ensures
            r@ == ep_name(self),
    {
        match self {
            MsgType::Exec => String::from_str("execute"),
            MsgType::Instantiate => String::from_str("instantiate"),
            MsgType::Migrate => String::from_str("migrate"),
            MsgType::Sudo => String::from_str("sudo"),
            MsgType::Reply => String::from_str("reply"),
            MsgType::Query => String::from_str("query"),
        }
    }

    /// The values of the context, in the order of the parameters.
    pub fn emit_ctx_values(self) -> (r: Vec<Tok>)
        ensures
            tokens::toks(r@) == ctx_values(self),
    {
        let mut r: Vec<Tok> = Vec::new();
        push_ident(&mut r, "deps");
        push_punct(&mut r, ',');
        push_ident(&mut r, "env");
        if self.has_info() {
            push_punct(&mut r, ',');
            push_ident(&mut r, "info");
        }
        proof {
            assert(tokens::toks(r@) =~= ctx_values(self));
        }
        r
    }

    /// Emits type which should be returned by dispatch function for this kind of message
    pub fn emit_result_type(self, sylvia: &Vec<Tok>, msg_type: &Vec<Tok>, err_type: &Vec<Tok>) -> (r: Vec<Tok>)
        ensures
            tokens::toks(r@) == result_type(self, tokens::toks(sylvia@), tokens::toks(msg_type@), tokens::toks(err_type@)),
    {
        let mut r: Vec<Tok> = Vec::new();
        push_ident(&mut r, "std");
        push_punct(&mut r, ':');
        push_punct(&mut r, ':');
        push_ident(&mut r, "result");
        push_punct(&mut r, ':');
        push_punct(&mut r, ':');
        push_ident(&mut r, "Result");
        push_punct(&mut r, '<');
        match self {
            MsgType::Query => push_cw_std_item(&mut r, sylvia, "Binary"),
            _ => push_cw_std_generic(&mut r, sylvia, "Response", msg_type),
        }
        push_punct(&mut r, ',');
        extend_toks(&mut r, err_type);
        push_punct(&mut r, '>');
        proof {
            assert(tokens::toks(r@) =~= result_type(self, tokens::toks(sylvia@), tokens::toks(msg_type@), tokens::toks(err_type@)));
        }
        r
    }

    /// The name of the generated message type.
    pub fn emit_msg_name(&self, is_wrapper: bool) -> (r: String)
        ensures
            r@ == msg_name(*self, is_wrapper),
    {
        match self {
            MsgType::Exec => if is_wrapper {
                String::from_str("ContractExecMsg")
            } else {
                String::from_str("ExecMsg")
            },
            MsgType::Query => if is_wrapper {
                String::from_str("ContractQueryMsg")
            } else {
                String::from_str("QueryMsg")
            },
            MsgType::Instantiate => String::from_str("InstantiateMsg"),
            MsgType::Migrate => String::from_str("MigrateMsg"),
            MsgType::Reply => String::from_str("ReplyMsg"),
            MsgType::Sudo => if is_wrapper {
                String::from_str("ContractSudoMsg")
            } else {
                String::from_str("SudoMsg")
            },
        }
    }

    /// The name of the associated type holding the message of this kind.
    pub fn as_accessor_name(&self, is_wrapper: bool) -> (r: Option<String>)
        ensures
            r is Some,
            r->0@ == accessor_name(*self, is_wrapper),
    {
        match self {
            MsgType::Exec => if is_wrapper {
                Some(String::from_str("ContractExec"))
            } else {
                Some(String::from_str("Exec"))
            },
            MsgType::Query => if is_wrapper {
                Some(String::from_str("ContractQuery"))
            } else {
                Some(String::from_str("Query"))
            },
            MsgType::Instantiate => Some(String::from_str("Instantiate")),
            MsgType::Migrate => Some(String::from_str("Migrate")),
            MsgType::Sudo => Some(String::from_str("Sudo")),
            MsgType::Reply => Some(String::from_str("Reply")),
        }
    }
}

} // verus!
