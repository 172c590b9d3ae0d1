//! The response that a handler hands back to the host.
//!
//! `cosmwasm_std::Response` is the host's type. It is built by the calls
//! below, whose statements are taken on trust, and read nowhere.

use vstd::prelude::*;

verus! {

/// The host's response: messages, attributes, events and data.
#[verifier::external_type_specification]
#[verifier::external_body]
#[verifier::reject_recursive_types(T)]
pub struct ExResponse<T>(cosmwasm_std::Response<T>);

/// The host's empty message type, the default of a response.
#[verifier::external_type_specification]
#[verifier::external_body]
pub struct ExEmpty(cosmwasm_std::Empty);

/// What a response holds, as mathematical values.
pub struct ResponseView {
    /// The attributes of the main event, as pairs of key and value.
    pub attributes: Seq<(Seq<char>, Seq<char>)>,
    /// The number of messages to dispatch.
    pub messages: nat,
    /// The number of additional events.
    pub events: nat,
    /// The binary payload, if any.
    pub data: Option<Seq<u8>>,
}

/// The fields of a response.
pub uninterp spec fn response_view(response: cosmwasm_std::Response) -> ResponseView;

/// The response that carries one attribute, `method`, and nothing else.
pub open spec fn method_view(method: Seq<char>) -> ResponseView {
    ResponseView {
        attributes: seq![("method"@, method)],
        messages: 0,
        events: 0,
        data: None,
    }
}

/// `cosmwasm_std::Response::new`.
///
/// Claims that the new response has no message, attribute, event or data.
#[verifier::external_body]
fn empty_response() -> (response: cosmwasm_std::Response)
    ensures
        response_view(response) == (ResponseView {
            attributes: Seq::empty(),
            messages: 0,
            events: 0,
            data: None,
        }),
{
    cosmwasm_std::Response::new()
}

/// `cosmwasm_std::Response::add_attribute`.
///
/// Claims that the pair is appended to the attributes and nothing else
/// changes. A debug build panics on a key that starts with an underscore.
#[verifier::external_body]
fn add_attribute(response: cosmwasm_std::Response, key: &str, value: &str) -> (extended:
    cosmwasm_std::Response)
    requires
        key@.len() > 0 ==> key@[0] != '_',
    ensures
        response_view(extended) == (ResponseView {
            attributes: response_view(response).attributes.push((key@, value@)),
            ..response_view(response)
        }),
{
    response.add_attribute(key, value)
}

/// The response of the handler named `method`.
pub fn method_response(method: &str) -> (response: cosmwasm_std::Response)
    ensures
        response_view(response) == method_view(method@),
{
    proof {
        reveal_strlit("method");
    }
    let response = add_attribute(empty_response(), "method", method);
    response
}

} // verus!
