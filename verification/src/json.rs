//! The objects that the bridge wraps its answers in.

use vstd::prelude::*;

use crate::errors::bridge_failure;
use crate::errors::HueError;
use crate::errors::HueErrorView;
use crate::text::same_text;
use crate::value::lemma_object_view;
use crate::value::members_model;
use crate::value::JsonModel;
use crate::value::JsonNumber;
use crate::value::JsonValue;

verus! {

/// An error object as the bridge sends it.
#[derive(Debug, PartialEq)]
pub struct Error {
    /// The resource that the error happened on.
    pub address: String,
    /// A short description of the error.
    pub description: String,
    /// The number of the error: any integer that the bridge sends.
    pub code: i128,
}

/// An `Error` as a mathematical value.
pub struct ErrorView {
    pub address: Seq<char>,
    pub description: Seq<char>,
    pub code: i128,
}

impl View for Error {
    type V = ErrorView;

    open spec fn view(&self) -> ErrorView {
        ErrorView { address: self.address@, description: self.description@, code: self.code }
    }
}

/// What the bridge reports of one unit of work: that it was done, with what
/// came of it, or that it was refused, with the error.
#[derive(Debug, PartialEq)]
pub enum HueResponse<T> {
    /// What came of the work that the bridge did.
    Success(T),
    /// The error that the bridge refused the work with.
    Error(Error),
}

/// A `HueResponse` as a mathematical value.
pub enum HueResponseView<V> {
    Success(V),
    Error(ErrorView),
}

impl<T: View> View for HueResponse<T> {
    type V = HueResponseView<T::V>;

    open spec fn view(&self) -> HueResponseView<T::V> {
        match self {
            HueResponse::Success(t) => HueResponseView::Success(t@),
            HueResponse::Error(e) => HueResponseView::Error(e@),
        }
    }
}

impl<T> HueResponse<T> {
    /// The result that this response stands for: what came of the work, or the
    /// bridge's refusal as an error.
    pub open spec fn spec_into_result(self) -> Result<T, HueError> {
        match self {
            HueResponse::Success(t) => Ok(t),
            HueResponse::Error(e) => Err(bridge_failure(e)),
        }
    }

    /// Turns the response into a `Result`.
    pub fn into_result(self) -> (r: Result<T, HueError>)
        ensures
            r == self.spec_into_result(),
    {
        match self {
            HueResponse::Success(t) => Ok(t),
            HueResponse::Error(e) => Err(HueError::from(e)),
        }
    }

    /// Maps what came of the work, and leaves a refusal as it is.
    pub fn map<U, F: FnOnce(T) -> U>(self, f: F) -> (r: HueResponse<U>)
        requires
            self matches HueResponse::Success(t) ==> f.requires((t,)),
        ensures
            match self {
                HueResponse::Success(t) => r matches HueResponse::Success(u) && f.ensures((t,), u),
                HueResponse::Error(e) => r == HueResponse::<U>::Error(e),
            },
    {
        match self {
            HueResponse::Success(t) => HueResponse::Success(f(t)),
            HueResponse::Error(e) => HueResponse::Error(e),
        }
    }
}

/// The value of the first member of `members` whose key is `key`.
pub open spec fn lookup(members: Seq<(Seq<char>, JsonModel)>, key: Seq<char>) -> Option<JsonModel>
    decreases members.len(),
{
    if members.len() == 0 {
        None
    } else if members[0].0 == key {
        Some(members[0].1)
    } else {
        lookup(members.drop_first(), key)
    }
}

/// The integer that a value is, if it is a number written as an integer
/// that fits in `u64` or in `i64`.
pub open spec fn integer(value: JsonModel) -> Option<i128> {
    match value {
        JsonModel::Number(JsonNumber::PosInt(n)) => Some(n as i128),
        JsonModel::Number(JsonNumber::NegInt(n)) => Some(n as i128),
        _ => None,
    }
}

/// The error object that `m` is: an object whose member `address` is a string,
/// whose member `description` is a string and whose member `type` is an
/// integer, whichever. Other members are passed over. Anything else is no
/// error object.
pub open spec fn error_object(m: JsonModel) -> Option<ErrorView> {
    match m {
        JsonModel::Object(members) => match (
            lookup(members, "address"@),
            lookup(members, "description"@),
            lookup(members, "type"@),
        ) {
            (
                Some(JsonModel::String(address)),
                Some(JsonModel::String(description)),
                Some(code),
            ) => match integer(code) {
                Some(code) => Some(ErrorView { address, description, code }),
                None => None,
            },
            _ => None,
        },
        _ => None,
    }
}

/// The outcome that `m` is: an object with exactly one member, which either
/// has the key `success` and any value, or the key `error` and an error
/// object. Anything else is no outcome.
pub open spec fn outcome(m: JsonModel) -> Option<HueResponseView<JsonModel>> {
    match m {
        JsonModel::Object(members) => if members.len() == 1 {
            if members[0].0 == "success"@ {
                Some(HueResponseView::Success(members[0].1))
            } else if members[0].0 == "error"@ {
                match error_object(members[0].1) {
                    Some(e) => Some(HueResponseView::Error(e)),
                    None => None,
                }
            } else {
                None
            }
        } else {
            None
        },
        _ => None,
    }
}

/// A member that `lookup` finds is one of the members.
pub proof fn lemma_lookup_finds_member(members: Seq<(Seq<char>, JsonModel)>, key: Seq<char>)
    ensures
        lookup(members, key) is Some <==> exists|i: int|
            0 <= i < members.len() && (#[trigger] members[i]).0 == key,
    decreases members.len(),
{
    if members.len() > 0 {
        let rest = members.drop_first();
        lemma_lookup_finds_member(rest, key);
        if members[0].0 != key {
            if lookup(rest, key) is Some {
                let i = choose|i: int| 0 <= i < rest.len() && (#[trigger] rest[i]).0 == key;
            }
            if exists|i: int| 0 <= i < members.len() && (#[trigger] members[i]).0 == key {
                let i = choose|i: int| 0 <= i < members.len() && (#[trigger] members[i]).0 == key;
                assert(rest[i - 1] == members[i]);
            }
        }
    }
}

/// An object that has both a member `success` and a member `error` is no
/// outcome, and neither is an object that has none of the two.
pub proof fn lemma_outcome_has_one_key(members: Seq<(Seq<char>, JsonModel)>)
    ensures
        lookup(members, "success"@) is Some && lookup(members, "error"@) is Some ==> outcome(
            JsonModel::Object(members),
        ) is None,
        lookup(members, "success"@) is None && lookup(members, "error"@) is None ==> outcome(
            JsonModel::Object(members),
        ) is None,
{
    reveal_strlit("success");
    reveal_strlit("error");
    assert("error"@.len() == 5);
    if members.len() == 1 {
        let rest = members.drop_first();
        assert(lookup(rest, "success"@) is None);
        assert(lookup(rest, "error"@) is None);
    }
}

/// The value of the first member whose key is `key`.
pub fn member<'a>(members: &'a Vec<(String, JsonValue)>, key: &str) -> (r: Option<&'a JsonValue>)
    ensures
        match r {
            Some(v) => lookup(members_model(members@), key@) == Some(v@),
            None => lookup(members_model(members@), key@) is None,
        },
{
    let ghost all = members_model(members@);
    let mut i: usize = 0;
    assert(all.skip(0) == all);
    while i < members.len()
        invariant
            i <= members@.len(),
            all == members_model(members@),
            lookup(all, key@) == lookup(all.skip(i as int), key@),
        decreases members@.len() - i,
    {
        assert(all.skip(i as int).drop_first() == all.skip(i + 1));
        if same_text(members[i].0.as_str(), key) {
            return Some(&members[i].1);
        }
        i = i + 1;
    }
    None
}

/// Reads an error object of the bridge.
pub fn read_error(v: &JsonValue) -> (r: Option<Error>)
    ensures
        match r {
            Some(e) => error_object(v@) == Some(e@),
            None => error_object(v@) is None,
        },
{
    match v {
        JsonValue::Object(members) => {
            proof {
                lemma_object_view(*members);
            }
            let address = match member(members, "address") {
                Some(JsonValue::String(s)) => s.clone(),
                _ => { return None; },
            };
            let description = match member(members, "description") {
                Some(JsonValue::String(s)) => s.clone(),
                _ => { return None; },
            };
            match member(members, "type") {
                Some(JsonValue::Number(JsonNumber::PosInt(code))) => Some(
                    Error { address, description, code: *code as i128 },
                ),
                Some(JsonValue::Number(JsonNumber::NegInt(code))) => Some(
                    Error { address, description, code: *code as i128 },
                ),
                _ => None,
            }
        },
        _ => None,
    }
}

/// Reads one outcome of a response of the bridge.
pub fn decode_outcome(v: JsonValue) -> (r: Result<HueResponse<JsonValue>, HueError>)
    ensures
        match outcome(v@) {
            Some(o) => r matches Ok(response) && response@ == o,
            None => r matches Err(e) && e@ == HueErrorView::MalformedResponse,
        },
{
    match v {
        JsonValue::Object(mut members) => {
            if members.len() != 1 {
                return Err(HueError::MalformedResponse);
            }
            let (key, value) = members.pop().unwrap();
            if same_text(key.as_str(), "success") {
                Ok(HueResponse::Success(value))
            } else if same_text(key.as_str(), "error") {
                match read_error(&value) {
                    Some(e) => Ok(HueResponse::Error(e)),
                    None => Err(HueError::MalformedResponse),
                }
            } else {
                Err(HueError::MalformedResponse)
            }
        },
        _ => Err(HueError::MalformedResponse),
    }
}

/// A user of the bridge, as the bridge answers a registration.
#[derive(Debug, PartialEq)]
pub struct User {
    /// The name under which the bridge knows the user.
    pub username: String,
}

/// The user that a value tells of: an object whose member `username` is a string.
pub open spec fn user_name(m: JsonModel) -> Option<Seq<char>> {
    match m {
        JsonModel::Object(members) => match lookup(members, "username"@) {
            Some(JsonModel::String(name)) => Some(name),
            _ => None,
        },
        _ => None,
    }
}

impl User {
    /// Reads the user that the bridge has registered; a value that tells of
    /// none is a malformed response.
    pub fn from_payload(payload: &JsonValue) -> (r: Result<User, HueError>)
        ensures
            match user_name(payload@) {
                Some(name) => r matches Ok(user) && user.username@ == name,
                None => r matches Err(e) && e@ == HueErrorView::MalformedResponse,
            },
    {
        match payload {
            JsonValue::Object(members) => {
                proof {
                    lemma_object_view(*members);
                }
                match member(members, "username") {
                    Some(JsonValue::String(name)) => Ok(User { username: name.clone() }),
                    _ => Err(HueError::MalformedResponse),
                }
            },
            _ => Err(HueError::MalformedResponse),
        }
    }
}

/// The id of what the bridge has created.
#[derive(Debug, PartialEq)]
pub struct Id<T> {
    /// The id.
    pub id: T,
}

/// The id of a group that the bridge has created.
#[derive(Debug, PartialEq)]
pub struct GroupId {
    /// The id of the group.
    pub id: usize,
}

/// What is sent to recall a scene.
#[derive(Debug, Clone)]
pub struct SceneRecall<'a> {
    /// The id of the scene.
    pub scene: &'a str,
}

} // verus!
