//! Diagnostics reported on the input of the macros.
//!
//! A diagnostic names the places it is about by their positions in the
//! model of the input (the index of a method, of a parameter, of an
//! attribute); the macro front end turns them into compiler errors and
//! warnings at the spans of those places.
use vstd::prelude::*;
use crate::reply::ReplyOn;
use crate::tokens::ParseError;

verus! {

/// One error or warning on the input.
#[derive(Clone, Copy, PartialEq, Eq, Structural, Debug)]
pub enum Diag {
    /// The reply handler of method `variant` uses a reply id that already
    /// has a handler (on method `existing_variant`) for an overlapping
    /// `reply_on`.
    DuplicatedReplyHandler { variant: usize, existing_variant: usize, existing_reply_on: ReplyOn },
    /// Reply handler `variant` has no payload parameter.
    MissingPayload { variant: usize },
    /// Parameter `field` of `variant` follows the parameter marked
    /// `#[sv::payload(raw)]` (at `payload_field`).
    RedundantPayloadAfter { variant: usize, field: usize, payload_field: usize },
    /// Parameter `field` of `variant` stands between the data parameter and
    /// the parameter marked `#[sv::payload(raw)]` (at `payload_field`).
    RedundantPayloadBetween { variant: usize, field: usize, payload_field: usize },
    /// Two handlers of one reply id take a different number of payload parameters.
    MismatchedParamCount { variant: usize, new_variant: usize },
    /// Two handlers of one reply id differ in the type of a payload parameter.
    MismatchedParam { variant: usize, field: usize, new_variant: usize, new_field: usize },
    /// `#[sv::data]` on a parameter other than the first one.
    DataNotFirst { variant: usize, field: usize },
    /// `#[sv::data]` on a handler that does not handle success.
    DataNotInSuccess { variant: usize, field: usize },
    /// Attribute `attr` does not follow its grammar.
    AttrParse { attr: usize, error: ParseError },
    /// The `msg` attribute of method `method` does not follow its grammar.
    MethodAttrParse { method: usize, error: ParseError },
    /// A second `#[sv::custom(..)]` (attribute `attr`; the first one is attribute `first`).
    CustomRedefined { attr: usize, first: usize },
    /// No method is marked as the instantiation message.
    NoInstantiationMessage,
    /// A contract has no method marked as its instantiation message.
    MissingContractInstantiation,
    /// The type a contract is implemented for is not a path.
    ContractTypeNotPath,
    /// Method `method` is a second instantiation or migration message besides `first`.
    MultipleMessages { method: usize, first: usize },
    /// Warning: `as Name` in `messages` attribute `attr` repeats the name
    /// deduced for the interface at position `interface`.
    RedundantAs { attr: usize, interface: usize },
    /// A second `messages` attribute (position `attr` among them; the first one at `first`).
    MessagesRedefined { attr: usize, first: usize },
    /// `entry_points(generics<..>)` gives a number of types other than the number of the contract's generics.
    MissingConcreteTypes,
    /// `entry_points` needs exactly one instantiation message.
    MissingInstantiationMessage,
    /// An interface trait has generics; it should use associated types.
    GenericsOnTrait,
    /// An interface trait declares no `Error` type.
    MissingErrorType,
    /// Warning: an interface declares neither `ExecC` nor `sv::custom(msg = ..)`.
    MissingExecType,
    /// Warning: an interface declares neither `QueryC` nor `sv::custom(query = ..)`.
    MissingQueryType,
    /// Method `method` of an interface declares an instantiation message;
    /// only contracts have one.
    InstantiateInInterface { method: usize },
    /// Method `method` of an interface declares a migration message; only
    /// contracts have one.
    MigrateInInterface { method: usize },
}

/// Whether the diagnostic is a warning rather than an error.
pub open spec fn diag_is_warning(d: Diag) -> bool {
    d is RedundantAs || d is MissingExecType || d is MissingQueryType
}

/// Calls `ToString::to_string` of std on the character `c`, whose
/// documentation gives the string of that one character.
#[verifier::external_body]
fn char_text(c: char) -> (r: String)
    ensures
        r@ == seq![c],
{
    c.to_string()
}

/// The text of a grammar error.
pub open spec fn parse_error_text(e: ParseError) -> Seq<char> {
    match e {
        ParseError::ExpectedIdent => "expected identifier"@,
        ParseError::ExpectedPunct(c) => "expected `"@ + seq![c] + "`"@,
        ParseError::ExpectedType => "expected type"@,
        ParseError::ExpectedParen => "expected parentheses"@,
        ParseError::ExpectedList => "expected arguments in parentheses"@,
        ParseError::UnexpectedToken => "unexpected token"@,
        ParseError::ExpectedComma => "expected `,`"@,
        ParseError::InvalidMsgType => "Invalid message type, expected one of: `exec`, `query`, `instantiate`, `migrate`"@,
        ParseError::ExpectedModule => "expected `module`"@,
        ParseError::ExpectedGenerics => "Expected `generics`"@,
        ParseError::InvalidCustom => "Invalid custom attribute, expected one of: `msg`, `query`"@,
        ParseError::InvalidCustomType => "Invalid custom type. Expected msg or query"@,
        ParseError::InvalidEntryPoint => "Invalid entry point. Expected exec, instantiate, query, migrate, reply or sudo. Found {ty}"@,
        ParseError::InvalidDataOption => "Invalid data option, expected one of: `raw`, `opt`, `instantiate`"@,
        ParseError::InvalidPayloadOption => "Invalid payload option, expected `raw`"@,
    }
}

/// The message of a diagnostic; `interfaces` are the names of the
/// interfaces the `messages` attributes declare, which a warning on a
/// redundant `as` repeats.
pub open spec fn diag_message(d: Diag, interfaces: Seq<Seq<char>>) -> Seq<char> {
    match d {
        Diag::DuplicatedReplyHandler { .. } => "Duplicated reply handler."@,
        Diag::MissingPayload { .. } => "Missing payload parameter."@,
        Diag::RedundantPayloadAfter { .. } => "Redundant payload parameter."@,
        Diag::RedundantPayloadBetween { .. } => "Redundant payload parameter."@,
        Diag::MismatchedParamCount { .. } => "Mismatched quantity of method parameters."@,
        Diag::MismatchedParam { .. } => "Mismatched parameter in reply handlers."@,
        Diag::DataNotFirst { .. } => "Wrong usage of `#[sv::data]` attribute."@,
        Diag::DataNotInSuccess { .. } => "Wrong usage of `#[sv::data]` attribute."@,
        Diag::AttrParse { error, .. } => parse_error_text(error),
        Diag::MethodAttrParse { error, .. } => parse_error_text(error),
        Diag::CustomRedefined { .. } => "The attribute `custom` is redefined"@,
        Diag::NoInstantiationMessage => "No instantiation message"@,
        Diag::MissingContractInstantiation => "Missing instantiation message."@,
        Diag::ContractTypeNotPath => "The contract type must be a path."@,
        Diag::MultipleMessages { .. } => "More than one instantiation or migration message"@,
        Diag::RedundantAs { interface, .. } => if interface < interfaces.len() { "Redundant `as "@ + interfaces[interface as int] + "`."@ } else { "Redundant `as`."@ },
        Diag::MessagesRedefined { .. } => "The attribute `messages` is redefined"@,
        Diag::MissingConcreteTypes => "Missing concrete types."@,
        Diag::MissingInstantiationMessage => "Missing instantiation message."@,
        Diag::GenericsOnTrait => "Generics on traits are not supported. Use associated types instead."@,
        Diag::MissingErrorType => "Missing `Error` type defined for trait."@,
        Diag::MissingExecType => "Missing both `ExecC` type and `#[sv::custom(msg=...)]` defined for the trait."@,
        Diag::MissingQueryType => "Missing both `QueryC` type and `#[sv::custom(query=...)]` defined for the trait."@,
        Diag::InstantiateInInterface { .. } => "The message attribute `instantiate` is not supported in interfaces."@,
        Diag::MigrateInInterface { .. } => "The message attribute `migrate` is not supported in interfaces"@,
    }
}

/// The notes that explain a diagnostic, in order.
pub open spec fn diag_notes(d: Diag) -> Seq<Seq<char>> {
    match d {
        Diag::DuplicatedReplyHandler { .. } => seq![],
        Diag::MissingPayload { .. } => seq!["Expected at least one payload parameter at the end of parameter list."@],
        Diag::RedundantPayloadAfter { .. } => seq!["Expected no parameters after the parameter marked with `#[sv::payload(raw)]`."@],
        Diag::RedundantPayloadBetween { .. } => seq!["Expected no parameters between the parameter marked with `#[sv::data]` and `#[sv::payload(raw)]`."@],
        Diag::MismatchedParamCount { .. } => seq![],
        Diag::MismatchedParam { .. } => seq![],
        Diag::DataNotFirst { .. } => seq!["The `#[sv::data]` attribute can only be used on the first parameter after the `ReplyCtx`."@],
        Diag::DataNotInSuccess { .. } => seq!["The `#[sv::data]` attribute can only be used in `success` scenario."@],
        Diag::AttrParse { .. } => seq![],
        Diag::MethodAttrParse { .. } => seq![],
        Diag::CustomRedefined { .. } => seq!["Previous definition of the attribute `custom`"@, "Only one `custom` attribute can exist on a single sylvia entity"@],
        Diag::NoInstantiationMessage => seq![],
        Diag::ContractTypeNotPath => seq![],
        Diag::MissingContractInstantiation => seq!["`sylvia::contract` requires exactly one method marked with `#[sv::msg(instantiation)]` attribute."@],
        Diag::MultipleMessages { .. } => seq!["Instantiation/Migration message previously defined here"@],
        Diag::RedundantAs { .. } => seq!["Interface name is a camel case version of the path and can be auto deduced."@],
        Diag::MessagesRedefined { .. } => seq!["Previous definition of the attribute `messsages`"@, "Only one `messages` attribute can exist on an interface implementation on contract"@],
        Diag::MissingConcreteTypes => seq!["For every generic type in the contract, a concrete type must be provided in `#[entry_points(generics<T1, T2, ...>)]`."@],
        Diag::MissingInstantiationMessage => seq!["`sylvia::entry_points` requires exactly one method marked with `#[sv::msg(instantiation)]` attribute."@, "Make sure you implemented the `entry_points` macro above the `contract` macro."@],
        Diag::GenericsOnTrait => seq!["Sylvia interfaces can be implemented only a single time per contract."@],
        Diag::MissingErrorType => seq!["Error is an error type returned by generated types dispatch function. Messages handling function have to return an error type convertible to this Error type."@, "A trait error type should be bound to implement `From<cosmwasm_std::StdError>`."@],
        Diag::MissingExecType => seq!["Implicitly it means that the trait could not be implemented for contracts that use CustomMsg different than `cosmwasm_std::Empty`"@, "If this behaviour is intended, please add `#[sv::custom(msg=sylvia::cw_std::Empty]` attribute."@],
        Diag::MissingQueryType => seq!["Implicitly it means that the trait could not be implemented for contracts that use CustomQuery different than `cosmwasm_std::Empty`"@, "If this behaviour is intended, please add `#[sv::custom(query=sylvia::cw_std::Empty]` attribute."@],
        Diag::InstantiateInInterface { .. } => seq!["Contracts need to implement `instantiate` method within their `impl` block."@],
        Diag::MigrateInInterface { .. } => seq!["Contracts need to implement `migrate` method within their `impl` block."@],
    }
}

/// The text of a grammar error.
pub fn parse_error_text_exec(e: &ParseError) -> (r: String)
    ensures
        r@ == parse_error_text(*e),
{
    let r = match e {
        ParseError::ExpectedIdent => {
            let mut s = String::new();
            s.append("expected identifier");
            assert(s@ =~= "expected identifier"@);
            s
        },
        ParseError::ExpectedPunct(c) => {
            let mut s = String::new();
            s.append("expected `");
            let t = char_text(*c);
            s.append(t.as_str());
            s.append("`");
            assert(s@ =~= "expected `"@ + seq![*c] + "`"@);
            s
        },
        ParseError::ExpectedType => {
            let mut s = String::new();
            s.append("expected type");
            assert(s@ =~= "expected type"@);
            s
        },
        ParseError::ExpectedParen => {
            let mut s = String::new();
            s.append("expected parentheses");
            assert(s@ =~= "expected parentheses"@);
            s
        },
        ParseError::ExpectedList => {
            let mut s = String::new();
            s.append("expected arguments in parentheses");
            assert(s@ =~= "expected arguments in parentheses"@);
            s
        },
        ParseError::UnexpectedToken => {
            let mut s = String::new();
            s.append("unexpected token");
            assert(s@ =~= "unexpected token"@);
            s
        },
        ParseError::ExpectedComma => {
            let mut s = String::new();
            s.append("expected `,`");
            assert(s@ =~= "expected `,`"@);
            s
        },
        ParseError::InvalidMsgType => {
            let mut s = String::new();
            s.append("Invalid message type, expected one of: `exec`, `query`, `instantiate`, `migrate`");
            assert(s@ =~= "Invalid message type, expected one of: `exec`, `query`, `instantiate`, `migrate`"@);
            s
        },
        ParseError::ExpectedModule => {
            let mut s = String::new();
            s.append("expected `module`");
            assert(s@ =~= "expected `module`"@);
            s
        },
        ParseError::ExpectedGenerics => {
            let mut s = String::new();
            s.append("Expected `generics`");
            assert(s@ =~= "Expected `generics`"@);
            s
        },
        ParseError::InvalidCustom => {
            let mut s = String::new();
            s.append("Invalid custom attribute, expected one of: `msg`, `query`");
            assert(s@ =~= "Invalid custom attribute, expected one of: `msg`, `query`"@);
            s
        },
        ParseError::InvalidCustomType => {
            let mut s = String::new();
            s.append("Invalid custom type. Expected msg or query");
            assert(s@ =~= "Invalid custom type. Expected msg or query"@);
            s
        },
        ParseError::InvalidEntryPoint => {
            let mut s = String::new();
            s.append("Invalid entry point. Expected exec, instantiate, query, migrate, reply or sudo. Found {ty}");
            assert(s@ =~= "Invalid entry point. Expected exec, instantiate, query, migrate, reply or sudo. Found {ty}"@);
            s
        },
        ParseError::InvalidDataOption => {
            let mut s = String::new();
            s.append("Invalid data option, expected one of: `raw`, `opt`, `instantiate`");
            assert(s@ =~= "Invalid data option, expected one of: `raw`, `opt`, `instantiate`"@);
            s
        },
        ParseError::InvalidPayloadOption => {
            let mut s = String::new();
            s.append("Invalid payload option, expected `raw`");
            assert(s@ =~= "Invalid payload option, expected `raw`"@);
            s
        },
    };
    r
}

impl Diag {
    /// The message of the diagnostic; `interfaces` are the names of the
    /// interfaces the `messages` attributes declare.
    pub fn message(&self, interfaces: &Vec<String>) -> (r: String)
        ensures
            r@ == diag_message(*self, Seq::new(interfaces@.len(), |i: int| interfaces@[i]@)),
    {
        let ghost names = Seq::new(interfaces@.len(), |i: int| interfaces@[i]@);
        match self {
            Diag::DuplicatedReplyHandler { .. } => text("Duplicated reply handler."),
            Diag::MissingPayload { .. } => text("Missing payload parameter."),
            Diag::RedundantPayloadAfter { .. } => text("Redundant payload parameter."),
            Diag::RedundantPayloadBetween { .. } => text("Redundant payload parameter."),
            Diag::MismatchedParamCount { .. } => text("Mismatched quantity of method parameters."),
            Diag::MismatchedParam { .. } => text("Mismatched parameter in reply handlers."),
            Diag::DataNotFirst { .. } => text("Wrong usage of `#[sv::data]` attribute."),
            Diag::DataNotInSuccess { .. } => text("Wrong usage of `#[sv::data]` attribute."),
            Diag::AttrParse { error, .. } => parse_error_text_exec(error),
            Diag::MethodAttrParse { error, .. } => parse_error_text_exec(error),
            Diag::CustomRedefined { .. } => text("The attribute `custom` is redefined"),
            Diag::NoInstantiationMessage => text("No instantiation message"),
            Diag::ContractTypeNotPath => text("The contract type must be a path."),
            Diag::MissingContractInstantiation => text("Missing instantiation message."),
            Diag::MultipleMessages { .. } => text("More than one instantiation or migration message"),
            Diag::RedundantAs { interface, .. } => {
                let mut s = String::new();
                if *interface < interfaces.len() {
                    s.append("Redundant `as ");
                    s.append(interfaces[*interface].as_str());
                    s.append("`.");
                    assert(s@ =~= "Redundant `as "@ + names[*interface as int] + "`."@);
                } else {
                    s.append("Redundant `as`.");
                    assert(s@ =~= "Redundant `as`."@);
                }
                s
            },
            Diag::MessagesRedefined { .. } => text("The attribute `messages` is redefined"),
            Diag::MissingConcreteTypes => text("Missing concrete types."),
            Diag::MissingInstantiationMessage => text("Missing instantiation message."),
            Diag::GenericsOnTrait => text("Generics on traits are not supported. Use associated types instead."),
            Diag::MissingErrorType => text("Missing `Error` type defined for trait."),
            Diag::MissingExecType => text("Missing both `ExecC` type and `#[sv::custom(msg=...)]` defined for the trait."),
            Diag::MissingQueryType => text("Missing both `QueryC` type and `#[sv::custom(query=...)]` defined for the trait."),
            Diag::InstantiateInInterface { .. } => text("The message attribute `instantiate` is not supported in interfaces."),
            Diag::MigrateInInterface { .. } => text("The message attribute `migrate` is not supported in interfaces"),
        }
    }

    /// The notes that explain the diagnostic, in order.
    pub fn notes(&self) -> (r: Vec<String>)
        ensures
            Seq::new(r@.len(), |i: int| r@[i]@) == diag_notes(*self),
    {
        let mut r: Vec<String> = Vec::new();
        match self {
            Diag::DuplicatedReplyHandler { .. } => {
            },
            Diag::MissingPayload { .. } => {
                r.push(text("Expected at least one payload parameter at the end of parameter list."));
            },
            Diag::RedundantPayloadAfter { .. } => {
                r.push(text("Expected no parameters after the parameter marked with `#[sv::payload(raw)]`."));
            },
            Diag::RedundantPayloadBetween { .. } => {
                r.push(text("Expected no parameters between the parameter marked with `#[sv::data]` and `#[sv::payload(raw)]`."));
            },
            Diag::MismatchedParamCount { .. } => {
            },
            Diag::MismatchedParam { .. } => {
            },
            Diag::DataNotFirst { .. } => {
                r.push(text("The `#[sv::data]` attribute can only be used on the first parameter after the `ReplyCtx`."));
            },
            Diag::DataNotInSuccess { .. } => {
                r.push(text("The `#[sv::data]` attribute can only be used in `success` scenario."));
            },
            Diag::AttrParse { .. } => {
            },
            Diag::MethodAttrParse { .. } => {
            },
            Diag::CustomRedefined { .. } => {
                r.push(text("Previous definition of the attribute `custom`"));
                r.push(text("Only one `custom` attribute can exist on a single sylvia entity"));
            },
            Diag::NoInstantiationMessage => {
            },
            Diag::ContractTypeNotPath => {},
            Diag::MissingContractInstantiation => {
                r.push(text("`sylvia::contract` requires exactly one method marked with `#[sv::msg(instantiation)]` attribute."));
            },
            Diag::MultipleMessages { .. } => {
                r.push(text("Instantiation/Migration message previously defined here"));
            },
            Diag::RedundantAs { .. } => {
                r.push(text("Interface name is a camel case version of the path and can be auto deduced."));
            },
            Diag::MessagesRedefined { .. } => {
                r.push(text("Previous definition of the attribute `messsages`"));
                r.push(text("Only one `messages` attribute can exist on an interface implementation on contract"));
            },
            Diag::MissingConcreteTypes => {
                r.push(text("For every generic type in the contract, a concrete type must be provided in `#[entry_points(generics<T1, T2, ...>)]`."));
            },
            Diag::MissingInstantiationMessage => {
                r.push(text("`sylvia::entry_points` requires exactly one method marked with `#[sv::msg(instantiation)]` attribute."));
                r.push(text("Make sure you implemented the `entry_points` macro above the `contract` macro."));
            },
            Diag::GenericsOnTrait => {
                r.push(text("Sylvia interfaces can be implemented only a single time per contract."));
            },
            Diag::MissingErrorType => {
                r.push(text("Error is an error type returned by generated types dispatch function. Messages handling function have to return an error type convertible to this Error type."));
                r.push(text("A trait error type should be bound to implement `From<cosmwasm_std::StdError>`."));
            },
            Diag::MissingExecType => {
                r.push(text("Implicitly it means that the trait could not be implemented for contracts that use CustomMsg different than `cosmwasm_std::Empty`"));
                r.push(text("If this behaviour is intended, please add `#[sv::custom(msg=sylvia::cw_std::Empty]` attribute."));
            },
            Diag::MissingQueryType => {
                r.push(text("Implicitly it means that the trait could not be implemented for contracts that use CustomQuery different than `cosmwasm_std::Empty`"));
                r.push(text("If this behaviour is intended, please add `#[sv::custom(query=sylvia::cw_std::Empty]` attribute."));
            },
            Diag::InstantiateInInterface { .. } => {
                r.push(text("Contracts need to implement `instantiate` method within their `impl` block."));
            },
            Diag::MigrateInInterface { .. } => {
                r.push(text("Contracts need to implement `migrate` method within their `impl` block."));
            },
        }
        assert(Seq::new(r@.len(), |i: int| r@[i]@) =~= diag_notes(*self));
        r
    }
}

/// The string spelled `s`.
fn text(s: &str) -> (r: String)
    ensures
        r@ == s@,
{
    String::from_str(s)
}

impl Diag {
    /// Whether the diagnostic is a warning rather than an error.
    pub fn is_warning(&self) -> (b: bool)
        ensures
            b == diag_is_warning(*self),
    {
        match self {
            Diag::RedundantAs { .. } | Diag::MissingExecType | Diag::MissingQueryType => true,
            _ => false,
        }
    }
}

} // verus!
