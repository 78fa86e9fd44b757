//! The payload validator: decides whether a JSON value is a well-formed
//! request to create a user, and extracts the user's name from it.

use crate::json::{json_model, member, JsonModel};
use vstd::prelude::*;

verus! {

/// A validated request to create a user.  It borrows the name from the JSON
/// value that it was read from.
pub struct Payload<'a> {
    pub username: &'a str,
}

impl<'a> View for Payload<'a> {
    type V = Seq<char>;

    open spec fn view(&self) -> Seq<char> {
        self.username@
    }
}

/// The name of the one member that a request must have.
pub open spec fn username_key() -> Seq<char> {
    "username"@
}

/// Whether a payload is a well-formed request: it is an object, the object
/// has a member named `username`, and that member is a string.  Other members
/// play no part, and any text counts as a name, the empty one too.
pub open spec fn is_create_user_request(payload: JsonModel) -> bool {
    &&& payload matches JsonModel::Object(members)
    &&& members.contains_key(username_key())
    &&& members[username_key()] is Text
}

/// The user name that a payload carries: the text of its `username` member
/// where the payload is a well-formed request, otherwise none.
pub open spec fn username_of(payload: JsonModel) -> Option<Seq<char>> {
    if is_create_user_request(payload) {
        Some(payload->Object_0[username_key()]->Text_0)
    } else {
        None
    }
}

/// The name that a validation result holds, if it holds a request.
pub open spec fn extracted_name(result: Option<Payload>) -> Option<Seq<char>> {
    match result {
        Some(request) => Some(request@),
        None => None,
    }
}

/// What validating `payload` returns: a request with exactly the name that the
/// payload carries, or nothing when it carries none.
pub open spec fn validates_to(payload: JsonModel, result: Option<Payload>) -> bool {
    extracted_name(result) == username_of(payload)
}

/// Checks the shape of a payload and extracts the user name from it.
///
/// The result is a request if and only if the payload is a well-formed one,
/// and the request then holds the text of the payload's `username` member.
pub fn validate_payload<'a>(payload: &'a serde_json::Value) -> (result: Option<Payload<'a>>)
    ensures
        result.is_some() <==> is_create_user_request(json_model(*payload)),
        validates_to(json_model(*payload), result),
{
    let payload_object = payload.as_object();
    if payload_object.is_none() {
        return None;
    }
    let username = member(payload_object.unwrap(), "username");
    if username.is_none() {
        return None;
    }
    let username_string = username.unwrap().as_str();
    if username_string.is_none() {
        return None;
    }
    Some(Payload { username: username_string.unwrap() })
}

/// Validating an object whose `username` member is a string succeeds, and the
/// request holds that member's text unchanged.
pub proof fn lemma_string_username_is_accepted(payload: JsonModel, result: Option<Payload>)
    requires
        payload is Object,
        payload->Object_0.contains_key(username_key()),
        payload->Object_0[username_key()] is Text,
        validates_to(payload, result),
    ensures
        result is Some,
        result->Some_0@ == payload->Object_0[username_key()]->Text_0,
{
}

/// Validating a value that is not an object fails, whatever else it is.
pub proof fn lemma_non_object_is_rejected(payload: JsonModel, result: Option<Payload>)
    requires
        !(payload is Object),
        validates_to(payload, result),
    ensures
        result is None,
{
}

/// Validating an object that has no member named `username` fails.
pub proof fn lemma_missing_username_is_rejected(payload: JsonModel, result: Option<Payload>)
    requires
        payload is Object,
        !payload->Object_0.contains_key(username_key()),
        validates_to(payload, result),
    ensures
        result is None,
{
}

/// Validating an object whose `username` member is not a string fails.
pub proof fn lemma_non_string_username_is_rejected(payload: JsonModel, result: Option<Payload>)
    requires
        payload is Object,
        payload->Object_0.contains_key(username_key()),
        !(payload->Object_0[username_key()] is Text),
        validates_to(payload, result),
    ensures
        result is None,
{
}

/// Validating the same payload twice gives the same outcome both times: both
/// validations fail, or both succeed with the same name.
pub proof fn lemma_validation_is_repeatable(
    payload: JsonModel,
    first: Option<Payload>,
    second: Option<Payload>,
)
    requires
        validates_to(payload, first),
        validates_to(payload, second),
    ensures
        first is Some <==> second is Some,
        extracted_name(first) == extracted_name(second),
{
}

/// Members other than `username` are ignored: adding or replacing one changes
/// neither whether a payload validates nor the name that it carries.
pub proof fn lemma_other_members_are_ignored(
    members: Map<Seq<char>, JsonModel>,
    name: Seq<char>,
    value: JsonModel,
)
    requires
        name != username_key(),
    ensures
        username_of(JsonModel::Object(members.insert(name, value))) == username_of(
            JsonModel::Object(members),
        ),
{
}

} // verus!
