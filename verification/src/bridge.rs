//! The addresses of the resources of the bridge, and the reading of its responses.

use vstd::prelude::*;
use vstd::string::StrSliceExecFns;
use vstd::string::StringExecFns;

use crate::errors::HueError;
use crate::errors::HueErrorView;
use crate::json::decode_outcome;
use crate::json::outcome;
use crate::json::HueResponse;
use crate::json::HueResponseView;
use crate::text::decimal;
use crate::text::lemma_split_joined;
use crate::text::lemma_split_nonempty;
use crate::text::lemma_split_without_sep;
use crate::text::push_decimal;
use crate::text::split;
use crate::text::split_bounds;
use crate::value::json_of_text;
use crate::value::lemma_array_view;
use crate::value::parse_json;
use crate::value::views;
use crate::value::JsonModel;
use crate::value::JsonValue;

verus! {

/// Whether every item is an outcome.
pub open spec fn all_outcomes(items: Seq<JsonModel>) -> bool {
    forall|i: int| 0 <= i < items.len() ==> outcome(#[trigger] items[i]) is Some
}

/// The outcomes that a response of the bridge holds. An object is a whole
/// resource: it is the one outcome, a success that carries the object as it
/// is. An array whose items are all outcomes holds those outcomes, as many and
/// in the same order; an empty array holds none. Anything else is no response.
pub open spec fn response_batch(response: JsonModel) -> Option<Seq<HueResponseView<JsonModel>>> {
    match response {
        JsonModel::Object(_) => Some(seq![HueResponseView::Success(response)]),
        JsonModel::Array(items) => if all_outcomes(items) {
            Some(Seq::new(items.len(), |i: int| outcome(items[i])->0))
        } else {
            None
        },
        _ => None,
    }
}

/// A whole resource is kept as it is: the one outcome of an object is a
/// success that carries the same object, with every member of it.
pub proof fn lemma_whole_resource_kept(members: Seq<(Seq<char>, JsonModel)>)
    ensures
        response_batch(JsonModel::Object(members)) == Some(
            seq![HueResponseView::Success(JsonModel::Object(members))],
        ),
{
}

/// An array of outcomes is read into as many outcomes, in the same order;
/// an array with an item that is no outcome is no response.
pub proof fn lemma_batch_keeps_order(items: Seq<JsonModel>)
    ensures
        all_outcomes(items) ==> (response_batch(JsonModel::Array(items)) matches Some(batch)
            && batch.len() == items.len() && forall|i: int|
            0 <= i < items.len() ==> Some(#[trigger] batch[i]) == outcome(items[i])),
        !all_outcomes(items) ==> response_batch(JsonModel::Array(items)) is None,
{
}

/// Reads the outcomes of a response of the bridge; a value that is no
/// response is a malformed response.
pub fn decode_value(response: JsonValue) -> (r: Result<Vec<HueResponse<JsonValue>>, HueError>)
    ensures
        match response_batch(response@) {
            Some(batch) => r matches Ok(outcomes) && views(outcomes@) == batch,
            None => r matches Err(e) && e@ == HueErrorView::MalformedResponse,
        },
{
    match response {
        JsonValue::Array(items) => {
            proof {
                lemma_array_view(items);
            }
            let ghost models = views(items@);
            let mut outcomes: Vec<HueResponse<JsonValue>> = Vec::new();
            for item in it: items
                invariant
                    it.seq() == items@,
                    models == views(items@),
                    response@ == JsonModel::Array(models),
                    outcomes@.len() == it.index(),
                    forall|k: int| 0 <= k < it.index() ==> outcome(#[trigger] models[k]) is Some,
                    forall|k: int|
                        0 <= k < it.index() ==> (#[trigger] outcomes@[k])@ == outcome(
                            models[k],
                        )->0,
            {
                assert(models[it.index() as int] == item@);
                match decode_outcome(item) {
                    Ok(o) => {
                        outcomes.push(o);
                    },
                    Err(e) => {
                        return Err(e);
                    },
                }
            }
            Ok(outcomes)
        },
        JsonValue::Object(members) => {
            let mut outcomes: Vec<HueResponse<JsonValue>> = Vec::new();
            outcomes.push(HueResponse::Success(JsonValue::Object(members)));
            Ok(outcomes)
        },
        _ => Err(HueError::MalformedResponse),
    }
}

/// The outcomes that the text of a response holds: those of the value that
/// the text writes, and none where it writes no value.
pub open spec fn text_batch(text: Seq<u8>) -> Option<Seq<HueResponseView<JsonModel>>> {
    match json_of_text(text) {
        Some(response) => response_batch(response),
        None => None,
    }
}

/// Reads the outcomes of the body of a response of the bridge; a body that
/// is not JSON, or that is no response, is a malformed response.
pub fn decode(text: &[u8]) -> (r: Result<Vec<HueResponse<JsonValue>>, HueError>)
    ensures
        match text_batch(text@) {
            Some(batch) => r matches Ok(outcomes) && views(outcomes@) == batch,
            None => r matches Err(e) && e@ == HueErrorView::MalformedResponse,
        },
{
    match parse_json(text) {
        Some(response) => decode_value(response),
        None => Err(HueError::MalformedResponse),
    }
}

/// What each outcome brought, or its refusal as an error: as many results
/// as there are outcomes, in the same order. A refusal does not spoil the
/// outcomes beside it.
pub fn extract<T>(outcomes: Vec<HueResponse<T>>) -> (r: Vec<Result<T, HueError>>)
    ensures
        r@.len() == outcomes@.len(),
        forall|i: int| 0 <= i < r@.len() ==> #[trigger] r@[i] == outcomes@[i].spec_into_result(),
{
    let mut results: Vec<Result<T, HueError>> = Vec::new();
    for outcome in it: outcomes
        invariant
            it.seq() == outcomes@,
            results@.len() == it.index(),
            forall|i: int|
                0 <= i < it.index() ==> #[trigger] results@[i] == outcomes@[i].spec_into_result(),
    {
        results.push(outcome.into_result());
    }
    results
}

/// What the first outcome brought, or its refusal as an error; a response
/// without an outcome is a malformed response.
pub fn first_outcome<T>(outcomes: Vec<HueResponse<T>>) -> (r: Result<T, HueError>)
    ensures
        r == if outcomes@.len() == 0 {
            Err(HueError::MalformedResponse)
        } else {
            outcomes@[0].spec_into_result()
        },
{
    let mut outcomes = outcomes;
    if outcomes.len() == 0 {
        return Err(HueError::MalformedResponse);
    }
    let first = outcomes.swap_remove(0);
    first.into_result()
}

/// What the last outcome brought, or its refusal as an error; a response
/// without an outcome is a malformed response.
pub fn last_outcome<T>(outcomes: Vec<HueResponse<T>>) -> (r: Result<T, HueError>)
    ensures
        r == if outcomes@.len() == 0 {
            Err(HueError::MalformedResponse)
        } else {
            outcomes@[outcomes@.len() - 1].spec_into_result()
        },
{
    let mut outcomes = outcomes;
    match outcomes.pop() {
        Some(last) => last.into_result(),
        None => Err(HueError::MalformedResponse),
    }
}

/// The address under which a bridge takes the requests of a user.
pub open spec fn bridge_url(ip: Seq<char>, username: Seq<char>) -> Seq<char> {
    "http://"@ + ip + "/api/"@ + username + "/"@
}

/// The pieces of the address of a bridge, split at its slashes: `http:`, an
/// empty piece, the pieces of the IP, `api`, the pieces of the username, and
/// an empty piece.
pub proof fn lemma_bridge_url_pieces(ip: Seq<char>, username: Seq<char>)
    ensures
        split(bridge_url(ip, username), '/') == seq!["http:"@, Seq::<char>::empty()] + split(
            ip,
            '/',
        ) + seq!["api"@] + split(username, '/') + seq![Seq::<char>::empty()],
{
    reveal_strlit("http://");
    reveal_strlit("http:");
    reveal_strlit("/api/");
    reveal_strlit("api");
    reveal_strlit("/");
    let empty = Seq::<char>::empty();
    let scheme = "http:"@;
    let api = "api"@;
    let url = bridge_url(ip, username);
    let after_user = username.push('/') + empty;
    let after_api = api.push('/') + after_user;
    let after_ip = ip.push('/') + after_api;
    let after_empty = empty.push('/') + after_ip;
    assert(scheme.len() == 5 && api.len() == 3 && "http://"@.len() == 7 && "/api/"@.len() == 5
        && "/"@.len() == 1);
    assert(url =~= scheme.push('/') + after_empty);
    lemma_split_without_sep(scheme, '/');
    lemma_split_without_sep(api, '/');
    lemma_split_joined(scheme, after_empty, '/');
    lemma_split_joined(empty, after_ip, '/');
    lemma_split_joined(ip, after_api, '/');
    lemma_split_joined(api, after_user, '/');
    lemma_split_joined(username, empty, '/');
    assert(split(url, '/') =~= seq![scheme, empty] + split(ip, '/') + seq![api] + split(
        username,
        '/',
    ) + seq![empty]);
}

/// In the address of a bridge whose IP holds no slash, the third piece is the
/// IP; where the username holds no slash either, the fifth is the username.
pub proof fn lemma_bridge_url_names(ip: Seq<char>, username: Seq<char>)
    requires
        !ip.contains('/'),
    ensures
        split(bridge_url(ip, username), '/').len() >= 6,
        split(bridge_url(ip, username), '/')[2] == ip,
        !username.contains('/') ==> split(bridge_url(ip, username), '/')[4] == username,
{
    lemma_bridge_url_pieces(ip, username);
    lemma_split_without_sep(ip, '/');
    lemma_split_nonempty(username, '/');
    if !username.contains('/') {
        lemma_split_without_sep(username, '/');
    }
}

/// A bridge and a user of it: the address that the requests of this user go to.
#[derive(Debug)]
pub struct Bridge {
    url: String,
}

impl Bridge {
    /// Every address has the six pieces or more that `bridge_url` gives it.
    #[verifier::type_invariant]
    spec fn well_formed(self) -> bool {
        split(self.url@, '/').len() >= 6
    }

    /// The address that the requests go to.
    pub closed spec fn spec_url(&self) -> Seq<char> {
        self.url@
    }

    /// The bridge at the address `ip`, for the user `username`.
    pub fn new(ip: &str, username: &str) -> (bridge: Bridge)
        ensures
            bridge.spec_url() == bridge_url(ip@, username@),
    {
        let url = String::from_str("http://").concat(ip).concat("/api/").concat(username).concat(
            "/",
        );
        proof {
            lemma_bridge_url_pieces(ip@, username@);
            lemma_split_nonempty(ip@, '/');
            lemma_split_nonempty(username@, '/');
        }
        Bridge { url }
    }

    /// The address that the requests go to.
    pub fn url(&self) -> (r: &str)
        ensures
            r@ == self.spec_url(),
    {
        self.url.as_str()
    }

    /// The IP of the bridge: the third piece of the address.
    pub fn get_ip(&self) -> (r: &str)
        ensures
            split(self.spec_url(), '/').len() >= 6,
            r@ == split(self.spec_url(), '/')[2],
    {
        proof {
            use_type_invariant(self);
        }
        let bounds = split_bounds(self.url.as_str(), '/');
        let (from, to) = bounds[2];
        self.url.as_str().substring_char(from, to)
    }

    /// The name of the user: the fifth piece of the address.
    pub fn get_username(&self) -> (r: &str)
        ensures
            split(self.spec_url(), '/').len() >= 6,
            r@ == split(self.spec_url(), '/')[4],
    {
        proof {
            use_type_invariant(self);
        }
        let bounds = split_bounds(self.url.as_str(), '/');
        let (from, to) = bounds[4];
        self.url.as_str().substring_char(from, to)
    }

    /// The address of a collection or of a single resource: the address of
    /// the bridge, then `path`.
    fn at(&self, path: &str) -> (r: String)
        ensures
            r@ == self.spec_url() + path@,
    {
        String::from_str(self.url.as_str()).concat(path)
    }

    /// The address of a numbered resource: the address of the bridge, then
    /// `collection`, then the id in base ten, then `part`.
    fn at_id(&self, collection: &str, id: usize, part: &str) -> (r: String)
        ensures
            r@ == self.spec_url() + collection@ + decimal(id as nat) + part@,
    {
        let mut r = String::from_str(self.url.as_str()).concat(collection);
        push_decimal(&mut r, id);
        r.concat(part)
    }

    /// Where all the lights are read, and where a search for new lights is started.
    pub fn lights_url(&self) -> (r: String)
        ensures
            r@ == self.spec_url() + "lights"@,
    {
        self.at("lights")
    }

    /// Where the lights that the last search has found are read.
    pub fn new_lights_url(&self) -> (r: String)
        ensures
            r@ == self.spec_url() + "lights/new"@,
    {
        self.at("lights/new")
    }

    /// Where the light `id` is read, renamed and deleted.
    pub fn light_url(&self, id: usize) -> (r: String)
        ensures
            r@ == self.spec_url() + "lights/"@ + decimal(id as nat),
    {
        let r = self.at_id("lights/", id, "");
        proof {
            reveal_strlit("");
        }
        r
    }

    /// Where the state of the light `id` is set.
    pub fn light_state_url(&self, id: usize) -> (r: String)
        ensures
            r@ == self.spec_url() + "lights/"@ + decimal(id as nat) + "/state"@,
    {
        self.at_id("lights/", id, "/state")
    }

    /// Where all the groups are read, and where a group is created.
    pub fn groups_url(&self) -> (r: String)
        ensures
            r@ == self.spec_url() + "groups"@,
    {
        self.at("groups")
    }

    /// Where the group `id` is read, changed and deleted.
    pub fn group_url(&self, id: usize) -> (r: String)
        ensures
            r@ == self.spec_url() + "groups/"@ + decimal(id as nat),
    {
        let r = self.at_id("groups/", id, "");
        proof {
            reveal_strlit("");
        }
        r
    }

    /// Where the state of the lights of the group `id` is set, and where a
    /// scene is recalled in the group.
    pub fn group_action_url(&self, id: usize) -> (r: String)
        ensures
            r@ == self.spec_url() + "groups/"@ + decimal(id as nat) + "/action"@,
    {
        self.at_id("groups/", id, "/action")
    }

    /// Where the configuration is read and changed.
    pub fn config_url(&self) -> (r: String)
        ensures
            r@ == self.spec_url() + "config"@,
    {
        self.at("config")
    }

    /// Where the user `username` is removed from the whitelist.
    pub fn whitelist_user_url(&self, username: &str) -> (r: String)
        ensures
            r@ == self.spec_url() + "config/whitelist/"@ + username@,
    {
        self.at("config/whitelist/").concat(username)
    }

    /// Where all the scenes are read, and where a scene is created.
    pub fn scenes_url(&self) -> (r: String)
        ensures
            r@ == self.spec_url() + "scenes"@,
    {
        self.at("scenes")
    }

    /// Where the scene `id` is read, changed and deleted.
    pub fn scene_url(&self, id: &str) -> (r: String)
        ensures
            r@ == self.spec_url() + "scenes/"@ + id@,
    {
        self.at("scenes/").concat(id)
    }

    /// Where the state that the scene `scene_id` holds for the light
    /// `light_id` is set.
    pub fn scene_light_state_url(&self, scene_id: &str, light_id: usize) -> (r: String)
        ensures
            r@ == self.spec_url() + "scenes/"@ + scene_id@ + "/lightstates/"@ + decimal(
                light_id as nat,
            ),
    {
        let mut r = self.at("scenes/").concat(scene_id).concat("/lightstates/");
        push_decimal(&mut r, light_id);
        r
    }
}

/// Where a user is registered with the bridge at the address `ip`.
pub fn register_url(ip: &str) -> (r: String)
    ensures
        r@ == "http://"@ + ip@ + "/api"@,
{
    String::from_str("http://").concat(ip).concat("/api")
}

} // verus!
