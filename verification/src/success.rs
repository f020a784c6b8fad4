//! What a success of the bridge says was changed: the resource, and the field
//! with its new value.

use vstd::prelude::*;
use vstd::string::StrSliceExecFns;

use crate::errors::HueError;
use crate::errors::HueErrorView;
use crate::json::HueResponse;
use crate::json::HueResponseView;
use crate::path::group_action_path;
use crate::path::group_attrib_path;
use crate::path::lemma_split_four;
use crate::path::lemma_split_three;
use crate::path::light_name_path;
use crate::path::light_state_path;
use crate::path::parse_path;
use crate::path::resource_path;
use crate::path::Collection;
use crate::path::ResourcePath;
use crate::text::decimal;
use crate::text::lemma_decimal_read_back;
use crate::text::parse_usize;
use crate::text::read_usize;
use crate::text::same_text;
use crate::value::lemma_array_view;
use crate::value::views;
use crate::value::JsonModel;
use crate::value::JsonNumber;
use crate::value::JsonValue;

verus! {

/// Why a path or an acknowledgement of the bridge could not be read.
#[derive(Debug, Clone, Copy, PartialEq, Eq, Structural)]
pub enum ParseError {
    /// The path does not begin with a slash.
    NotAbsolute,
    /// The path ends before it has named a collection, an id and a field.
    TooShort,
    /// The collection is neither `lights` nor `groups`.
    UnknownCollection,
    /// What stands in the place of the id is not a number that fits in `usize`.
    InvalidId,
    /// What follows the id is not what the collection has there.
    UnknownShape,
    /// The acknowledgement does not end in ` deleted`.
    MissingSuffix,
    /// The change is of another kind than the one asked for.
    OtherKind,
    /// What the success carries is neither a change nor an acknowledgement.
    NotAChange,
}

/// One success of the bridge: the path of what was changed, and its new value.
#[derive(Debug, PartialEq)]
pub struct RawChange {
    /// The path of the field that was changed.
    pub path: String,
    /// The new value, as the bridge sent it.
    pub value: JsonValue,
}

/// A `RawChange` as a mathematical value.
pub struct RawChangeView {
    pub path: Seq<char>,
    pub value: JsonModel,
}

impl View for RawChange {
    type V = RawChangeView;

    open spec fn view(&self) -> RawChangeView {
        RawChangeView { path: self.path@, value: self.value@ }
    }
}

/// The change that a success carries: the one member of an object. A value
/// that is no object, or an object with no member or with several, carries none.
pub open spec fn raw_change(payload: JsonModel) -> Option<RawChangeView> {
    match payload {
        JsonModel::Object(members) => if members.len() == 1 {
            Some(RawChangeView { path: members[0].0, value: members[0].1 })
        } else {
            None
        },
        _ => None,
    }
}

impl RawChange {
    /// Takes the change out of what a success carries; a payload of another
    /// shape is a malformed response.
    pub fn from_payload(payload: JsonValue) -> (r: Result<RawChange, HueError>)
        ensures
            match raw_change(payload@) {
                Some(c) => r matches Ok(change) && change@ == c,
                None => r matches Err(e) && e@ == HueErrorView::MalformedResponse,
            },
    {
        match payload {
            JsonValue::Object(mut members) => {
                if members.len() != 1 {
                    return Err(HueError::MalformedResponse);
                }
                let (path, value) = members.pop().unwrap();
                Ok(RawChange { path, value })
            },
            _ => Err(HueError::MalformedResponse),
        }
    }
}

/// What one outcome carries as a change: the change of a success, and a
/// refusal as it is; nothing where a success carries no change.
pub open spec fn outcome_change(o: HueResponseView<JsonModel>) -> Option<
    HueResponseView<RawChangeView>,
> {
    match o {
        HueResponseView::Success(payload) => match raw_change(payload) {
            Some(c) => Some(HueResponseView::Success(c)),
            None => None,
        },
        HueResponseView::Error(e) => Some(HueResponseView::Error(e)),
    }
}

/// Takes the change out of every success of a response, and keeps the number
/// and the order of the outcomes; a success that carries no change makes the
/// response a malformed one.
pub fn raw_changes(outcomes: Vec<HueResponse<JsonValue>>) -> (r: Result<
    Vec<HueResponse<RawChange>>,
    HueError,
>)
    ensures
        match r {
            Ok(changes) => changes@.len() == outcomes@.len() && forall|i: int|
                0 <= i < changes@.len() ==> outcome_change(outcomes@[i]@) == Some(
                    (#[trigger] changes@[i])@,
                ),
            Err(e) => e@ == HueErrorView::MalformedResponse && exists|k: int|
                0 <= k < outcomes@.len() && outcome_change((#[trigger] outcomes@[k])@) is None,
        },
{
    let mut changes: Vec<HueResponse<RawChange>> = Vec::new();
    for outcome in it: outcomes
        invariant
            it.seq() == outcomes@,
            changes@.len() == it.index(),
            forall|i: int|
                0 <= i < it.index() ==> outcome_change(outcomes@[i]@) == Some(
                    (#[trigger] changes@[i])@,
                ),
    {
        let ghost k = it.index() as int;
        match outcome {
            HueResponse::Success(payload) => match RawChange::from_payload(payload) {
                Ok(change) => {
                    changes.push(HueResponse::Success(change));
                },
                Err(e) => {
                    return Err(e);
                },
            },
            HueResponse::Error(e) => {
                changes.push(HueResponse::Error(e));
            },
        }
    }
    Ok(changes)
}

/// A change of the state of a light, or of the lights of a group.
#[derive(Debug, PartialEq)]
pub enum State {
    /// The light was switched on or off.
    On(bool),
    /// The brightness.
    Bri(u8),
    /// The hue.
    Hue(u16),
    /// The saturation.
    Sat(u8),
    /// The two coordinates of the colour, as the bridge sent them.
    Xy(JsonNumber, JsonNumber),
    /// The colour temperature.
    Ct(u16),
    /// The effect.
    Effect(String),
    /// A field that is not one of the above, or one of them with a value of
    /// another type than it has.
    Other { state: String, val: JsonValue },
}

/// A `State` as a mathematical value.
pub enum StateView {
    On(bool),
    Bri(u8),
    Hue(u16),
    Sat(u8),
    Xy(JsonNumber, JsonNumber),
    Ct(u16),
    Effect(Seq<char>),
    Other { state: Seq<char>, val: JsonModel },
}

impl View for State {
    type V = StateView;

    open spec fn view(&self) -> StateView {
        match self {
            State::On(b) => StateView::On(*b),
            State::Bri(n) => StateView::Bri(*n),
            State::Hue(n) => StateView::Hue(*n),
            State::Sat(n) => StateView::Sat(*n),
            State::Xy(x, y) => StateView::Xy(*x, *y),
            State::Ct(n) => StateView::Ct(*n),
            State::Effect(s) => StateView::Effect(s@),
            State::Other { state, val } => StateView::Other { state: state@, val: val@ },
        }
    }
}

/// The non-negative integer that a value is, if it is one.
pub open spec fn unsigned(value: JsonModel) -> Option<u64> {
    match value {
        JsonModel::Number(JsonNumber::PosInt(n)) => Some(n),
        _ => None,
    }
}

/// The pair of numbers that a value is, if it is an array of exactly two numbers.
pub open spec fn number_pair(value: JsonModel) -> Option<(JsonNumber, JsonNumber)> {
    match value {
        JsonModel::Array(items) => if items.len() == 2 {
            match (items[0], items[1]) {
                (JsonModel::Number(x), JsonModel::Number(y)) => Some((x, y)),
                _ => None,
            }
        } else {
            None
        },
        _ => None,
    }
}

/// The change of state that a field and its new value stand for. `on` goes
/// with a boolean; `bri`, `hue`, `sat` and `ct` go with a non-negative integer,
/// of which the low bits that fit are kept; `xy` goes with an array of exactly
/// two numbers; `effect` goes with a string. Every other field, and every one
/// of these with a value of another type, is kept as `Other`.
pub open spec fn state_of(field: Seq<char>, value: JsonModel) -> StateView {
    if field == "on"@ && value is Bool {
        StateView::On(value->Bool_0)
    } else if field == "bri"@ && unsigned(value) is Some {
        StateView::Bri(unsigned(value)->0 as u8)
    } else if field == "hue"@ && unsigned(value) is Some {
        StateView::Hue(unsigned(value)->0 as u16)
    } else if field == "sat"@ && unsigned(value) is Some {
        StateView::Sat(unsigned(value)->0 as u8)
    } else if field == "xy"@ && number_pair(value) is Some {
        let (x, y) = number_pair(value).unwrap();
        StateView::Xy(x, y)
    } else if field == "ct"@ && unsigned(value) is Some {
        StateView::Ct(unsigned(value)->0 as u16)
    } else if field == "effect"@ && value is String {
        StateView::Effect(value->String_0)
    } else {
        StateView::Other { state: field, val: value }
    }
}

/// Reads the two numbers of an array of exactly two numbers.
fn read_number_pair(value: &JsonValue) -> (r: Option<(JsonNumber, JsonNumber)>)
    ensures
        r == number_pair(value@),
{
    match value {
        JsonValue::Array(items) => {
            proof {
                lemma_array_view(*items);
            }
            if items.len() != 2 {
                return None;
            }
            match (&items[0], &items[1]) {
                (JsonValue::Number(x), JsonValue::Number(y)) => Some((*x, *y)),
                _ => None,
            }
        },
        _ => None,
    }
}

/// The names of the fields of a state differ from one another.
proof fn lemma_state_fields_differ()
    ensures
        "on"@ != "bri"@ && "on"@ != "hue"@ && "on"@ != "sat"@ && "on"@ != "xy"@ && "on"@ != "ct"@
            && "on"@ != "effect"@,
        "bri"@ != "hue"@ && "bri"@ != "sat"@ && "bri"@ != "xy"@ && "bri"@ != "ct"@ && "bri"@
            != "effect"@,
        "hue"@ != "sat"@ && "hue"@ != "xy"@ && "hue"@ != "ct"@ && "hue"@ != "effect"@,
        "sat"@ != "xy"@ && "sat"@ != "ct"@ && "sat"@ != "effect"@,
        "xy"@ != "ct"@ && "xy"@ != "effect"@,
        "ct"@ != "effect"@,
{
    reveal_strlit("on");
    reveal_strlit("bri");
    reveal_strlit("hue");
    reveal_strlit("sat");
    reveal_strlit("xy");
    reveal_strlit("ct");
    reveal_strlit("effect");
    assert("xy"@.len() == 2 && "xy"@[0] == 'x');
    assert("ct"@.len() == 2 && "ct"@[0] == 'c');
    assert("bri"@.len() == 3 && "bri"@[0] == 'b');
    assert("hue"@.len() == 3 && "hue"@[0] == 'h');
    assert("sat"@.len() == 3 && "sat"@[0] == 's');
    assert("effect"@.len() == 6);
}

/// Takes the string out of a value that is one, and hands any other value back.
fn into_text(value: JsonValue) -> (r: Result<String, JsonValue>)
    ensures
        match r {
            Ok(s) => value@ == JsonModel::String(s@),
            Err(v) => v == value && !(value@ is String),
        },
{
    match value {
        JsonValue::String(s) => Ok(s),
        other => Err(other),
    }
}

/// The change of state that a field other than `effect` stands for, where
/// its value has the type that goes with it.
fn plain_state(field: &str, value: &JsonValue) -> (r: Option<State>)
    requires
        field@ != "effect"@,
    ensures
        match r {
            Some(state) => state@ == state_of(field@, value@) && !(state is Other),
            None => state_of(field@, value@) == (StateView::Other { state: field@, val: value@ }),
        },
{
    proof {
        lemma_state_fields_differ();
    }
    if same_text(field, "on") {
        match value {
            JsonValue::Bool(b) => Some(State::On(*b)),
            _ => None,
        }
    } else if same_text(field, "bri") {
        match value {
            JsonValue::Number(JsonNumber::PosInt(n)) => Some(State::Bri(#[verifier::truncate] (*n as u8))),
            _ => None,
        }
    } else if same_text(field, "hue") {
        match value {
            JsonValue::Number(JsonNumber::PosInt(n)) => Some(State::Hue(#[verifier::truncate] (*n as u16))),
            _ => None,
        }
    } else if same_text(field, "sat") {
        match value {
            JsonValue::Number(JsonNumber::PosInt(n)) => Some(State::Sat(#[verifier::truncate] (*n as u8))),
            _ => None,
        }
    } else if same_text(field, "xy") {
        match read_number_pair(value) {
            Some(pair) => Some(State::Xy(pair.0, pair.1)),
            None => None,
        }
    } else if same_text(field, "ct") {
        match value {
            JsonValue::Number(JsonNumber::PosInt(n)) => Some(State::Ct(#[verifier::truncate] (*n as u16))),
            _ => None,
        }
    } else {
        None
    }
}

impl State {
    /// The change of state that a field and its new value stand for.
    pub fn from_field(field: String, value: JsonValue) -> (r: State)
        ensures
            r@ == state_of(field@, value@),
    {
        proof {
            lemma_state_fields_differ();
        }
        if same_text(field.as_str(), "effect") {
            match into_text(value) {
                Ok(s) => State::Effect(s),
                Err(v) => State::Other { state: field, val: v },
            }
        } else {
            match plain_state(field.as_str(), &value) {
                Some(state) => state,
                None => State::Other { state: field, val: value },
            }
        }
    }
}

/// A change of an attribute of a group.
#[derive(Debug, PartialEq)]
pub enum Attrib {
    /// The new name.
    Name(String),
    /// The ids of the lights that are now in the group.
    Lights(Vec<usize>),
    /// The new class.
    Class(String),
    /// An attribute that is not one of the above, or one of them with a value
    /// of another type than it has.
    Other { attrib: String, val: JsonValue },
}

/// An `Attrib` as a mathematical value.
pub enum AttribView {
    Name(Seq<char>),
    Lights(Seq<usize>),
    Class(Seq<char>),
    Other { attrib: Seq<char>, val: JsonModel },
}

impl View for Attrib {
    type V = AttribView;

    open spec fn view(&self) -> AttribView {
        match self {
            Attrib::Name(s) => AttribView::Name(s@),
            Attrib::Lights(ids) => AttribView::Lights(ids@),
            Attrib::Class(s) => AttribView::Class(s@),
            Attrib::Other { attrib, val } => AttribView::Other { attrib: attrib@, val: val@ },
        }
    }
}

/// Whether every item is a non-negative integer.
pub open spec fn all_unsigned(items: Seq<JsonModel>) -> bool {
    forall|i: int| 0 <= i < items.len() ==> unsigned(#[trigger] items[i]) is Some
}

/// The ids that a value lists, if it is an array of non-negative integers: of
/// each integer the low bits that fit in `usize`.
pub open spec fn id_list(value: JsonModel) -> Option<Seq<usize>> {
    match value {
        JsonModel::Array(items) => if all_unsigned(items) {
            Some(Seq::new(items.len(), |i: int| unsigned(items[i])->0 as usize))
        } else {
            None
        },
        _ => None,
    }
}

/// The change of an attribute that a field and its new value stand for.
/// `name` and `class` go with a string, `lights` goes with an array of
/// non-negative integers. Every other field, and every one of these with a
/// value of another type, is kept as `Other`.
pub open spec fn attrib_of(field: Seq<char>, value: JsonModel) -> AttribView {
    if field == "name"@ && value is String {
        AttribView::Name(value->String_0)
    } else if field == "class"@ && value is String {
        AttribView::Class(value->String_0)
    } else if field == "lights"@ && id_list(value) is Some {
        AttribView::Lights(id_list(value)->0)
    } else {
        AttribView::Other { attrib: field, val: value }
    }
}

/// The names of the attributes of a group differ from one another.
proof fn lemma_attribs_differ()
    ensures
        "name"@ != "class"@,
        "name"@ != "lights"@,
        "class"@ != "lights"@,
{
    reveal_strlit("name");
    reveal_strlit("class");
    reveal_strlit("lights");
    assert("class"@.len() == 5);
    assert("lights"@.len() == 6);
}

/// Reads the ids of an array of non-negative integers.
fn read_id_list(value: &JsonValue) -> (r: Option<Vec<usize>>)
    ensures
        match r {
            Some(ids) => id_list(value@) == Some(ids@),
            None => id_list(value@) is None,
        },
{
    match value {
        JsonValue::Array(items) => {
            proof {
                lemma_array_view(*items);
            }
            let ghost models = views(items@);
            let mut ids: Vec<usize> = Vec::new();
            let mut i: usize = 0;
            while i < items.len()
                invariant
                    i <= items@.len(),
                    models == views(items@),
                    value@ == JsonModel::Array(models),
                    ids@.len() == i,
                    forall|k: int| 0 <= k < i ==> unsigned(#[trigger] models[k]) is Some,
                    forall|k: int| 0 <= k < i ==> ids@[k] == unsigned(models[k])->0 as usize,
                decreases items@.len() - i,
            {
                match &items[i] {
                    JsonValue::Number(JsonNumber::PosInt(n)) => {
                        ids.push(#[verifier::truncate] (*n as usize));
                    },
                    _ => {
                        assert(unsigned(models[i as int]) is None);
                        return None;
                    },
                }
                i = i + 1;
            }
            Some(ids)
        },
        _ => None,
    }
}

impl Attrib {
    /// The change of an attribute that a field and its new value stand for.
    pub fn from_field(field: String, value: JsonValue) -> (r: Attrib)
        ensures
            r@ == attrib_of(field@, value@),
    {
        proof {
            lemma_attribs_differ();
        }
        if same_text(field.as_str(), "name") {
            match into_text(value) {
                Ok(s) => Attrib::Name(s),
                Err(v) => Attrib::Other { attrib: field, val: v },
            }
        } else if same_text(field.as_str(), "class") {
            match into_text(value) {
                Ok(s) => Attrib::Class(s),
                Err(v) => Attrib::Other { attrib: field, val: v },
            }
        } else if same_text(field.as_str(), "lights") {
            match read_id_list(&value) {
                Some(ids) => Attrib::Lights(ids),
                None => Attrib::Other { attrib: field, val: value },
            }
        } else {
            Attrib::Other { attrib: field, val: value }
        }
    }
}

/// A change of the state of a light.
#[derive(Debug, PartialEq)]
pub struct Light {
    /// The id of the light.
    pub id: usize,
    /// What was changed.
    pub state: State,
}

/// A `Light` as a mathematical value.
pub struct LightView {
    pub id: usize,
    pub state: StateView,
}

impl View for Light {
    type V = LightView;

    open spec fn view(&self) -> LightView {
        LightView { id: self.id, state: self.state@ }
    }
}

/// A change of the state of the lights of a group.
#[derive(Debug, PartialEq)]
pub struct GroupState {
    /// The id of the group.
    pub id: usize,
    /// What was changed.
    pub state: State,
}

/// A `GroupState` as a mathematical value.
pub struct GroupStateView {
    pub id: usize,
    pub state: StateView,
}

impl View for GroupState {
    type V = GroupStateView;

    open spec fn view(&self) -> GroupStateView {
        GroupStateView { id: self.id, state: self.state@ }
    }
}

/// A new name of a light.
#[derive(Debug, PartialEq)]
pub struct Rename {
    /// The id of the light.
    pub id: usize,
    /// The new name.
    pub name: String,
}

/// A `Rename` as a mathematical value.
pub struct RenameView {
    pub id: usize,
    pub name: Seq<char>,
}

impl View for Rename {
    type V = RenameView;

    open spec fn view(&self) -> RenameView {
        RenameView { id: self.id, name: self.name@ }
    }
}

/// The removal of a resource.
#[derive(Debug, Clone, Copy, PartialEq, Eq, Structural)]
pub struct Delete {
    /// The id of what was removed.
    pub id: usize,
}

/// A change of an attribute of a group.
#[derive(Debug, PartialEq)]
pub struct Group {
    /// The id of the group.
    pub id: usize,
    /// What was changed.
    pub attrib: Attrib,
}

/// A `Group` as a mathematical value.
pub struct GroupView {
    pub id: usize,
    pub attrib: AttribView,
}

impl View for Group {
    type V = GroupView;

    open spec fn view(&self) -> GroupView {
        GroupView { id: self.id, attrib: self.attrib@ }
    }
}

/// What one success of the bridge says was changed.
#[derive(Debug, PartialEq)]
pub enum ChangeRecord {
    Light(Light),
    GroupState(GroupState),
    Group(Group),
    Rename(Rename),
    Delete(Delete),
}

/// A `ChangeRecord` as a mathematical value.
pub enum ChangeRecordView {
    Light(LightView),
    GroupState(GroupStateView),
    Group(GroupView),
    Rename(RenameView),
    Delete(Delete),
}

impl View for ChangeRecord {
    type V = ChangeRecordView;

    open spec fn view(&self) -> ChangeRecordView {
        match self {
            ChangeRecord::Light(c) => ChangeRecordView::Light(c@),
            ChangeRecord::GroupState(c) => ChangeRecordView::GroupState(c@),
            ChangeRecord::Group(c) => ChangeRecordView::Group(c@),
            ChangeRecord::Rename(c) => ChangeRecordView::Rename(c@),
            ChangeRecord::Delete(c) => ChangeRecordView::Delete(*c),
        }
    }
}

/// What a change says, by the grammar of its path:
/// `/lights/<id>/state/<field>` is a change of the state of a light,
/// `/lights/<id>/name` is a new name of a light where its value is a string,
/// and else a change of the light that keeps `name` and the value as `Other`,
/// `/groups/<id>/action/<field>` is a change of the state of the lights of a group,
/// `/groups/<id>/<field>` is a change of an attribute of a group.
/// A path that cannot be taken apart fails as `resource_path` says, and one
/// that can but has none of these shapes fails with `UnknownShape`.
pub open spec fn interpretation(change: RawChangeView) -> Result<ChangeRecordView, ParseError> {
    match resource_path(change.path) {
        Err(e) => Err(e),
        Ok(p) => match p.collection {
            Collection::Lights => if p.rest.len() == 2 && p.rest[0] == "state"@ {
                Ok(
                    ChangeRecordView::Light(
                        LightView { id: p.id, state: state_of(p.rest[1], change.value) },
                    ),
                )
            } else if p.rest.len() == 1 && p.rest[0] == "name"@ {
                match change.value {
                    JsonModel::String(name) => Ok(
                        ChangeRecordView::Rename(RenameView { id: p.id, name }),
                    ),
                    _ => Ok(
                        ChangeRecordView::Light(
                            LightView {
                                id: p.id,
                                state: StateView::Other { state: p.rest[0], val: change.value },
                            },
                        ),
                    ),
                }
            } else {
                Err(ParseError::UnknownShape)
            },
            Collection::Groups => if p.rest.len() == 2 && p.rest[0] == "action"@ {
                Ok(
                    ChangeRecordView::GroupState(
                        GroupStateView { id: p.id, state: state_of(p.rest[1], change.value) },
                    ),
                )
            } else if p.rest.len() == 1 {
                Ok(
                    ChangeRecordView::Group(
                        GroupView { id: p.id, attrib: attrib_of(p.rest[0], change.value) },
                    ),
                )
            } else {
                Err(ParseError::UnknownShape)
            },
        },
    }
}

/// A change under `/lights/<id>/state/<field>` is a change of the state of
/// the light `id`, whatever the field and its value are.
pub proof fn lemma_light_state_change(id: usize, field: Seq<char>, value: JsonModel)
    requires
        !field.contains('/'),
    ensures
        interpretation(RawChangeView { path: light_state_path(id, field), value }) == Ok::<
            ChangeRecordView,
            ParseError,
        >(ChangeRecordView::Light(LightView { id, state: state_of(field, value) })),
{
    reveal_strlit("/lights/");
    reveal_strlit("lights");
    reveal_strlit("/state/");
    reveal_strlit("state");
    let lights = "lights"@;
    let state = "state"@;
    let digits = decimal(id as nat);
    assert("/lights/"@.len() == 8 && lights.len() == 6 && "/state/"@.len() == 7 && state.len()
        == 5);
    lemma_decimal_read_back(id as nat);
    lemma_split_four(lights, digits, state, field);
    let path = light_state_path(id, field);
    assert(path =~= Seq::<char>::empty().push('/') + (lights.push('/') + (digits.push('/') + (
    state.push('/') + field))));
}

/// Whether `field` is one of the fields of a state that this library knows.
pub open spec fn known_state_field(field: Seq<char>) -> bool {
    field == "on"@ || field == "bri"@ || field == "hue"@ || field == "sat"@ || field == "xy"@
        || field == "ct"@ || field == "effect"@
}

/// A field that this library does not know is kept, with its value as it
/// is: a change under `/lights/<id>/state/<field>` with such a field is the
/// `Other` change of the light `id`, for every id, field and value.
pub proof fn lemma_unknown_light_field_kept(id: usize, field: Seq<char>, value: JsonModel)
    requires
        !field.contains('/'),
        !known_state_field(field),
    ensures
        interpretation(RawChangeView { path: light_state_path(id, field), value }) == Ok::<
            ChangeRecordView,
            ParseError,
        >(
            ChangeRecordView::Light(
                LightView { id, state: StateView::Other { state: field, val: value } },
            ),
        ),
{
    lemma_light_state_change(id, field, value);
}

/// A change under `/lights/<id>/name` that carries a string is a new name of
/// the light `id`, and one that carries anything else is kept as an `Other`
/// change of that light, with the field `name` and the value as it is.
pub proof fn lemma_light_name_change(id: usize, value: JsonModel)
    ensures
        interpretation(RawChangeView { path: light_name_path(id), value }) == Ok::<
            ChangeRecordView,
            ParseError,
        >(
            match value {
                JsonModel::String(name) => ChangeRecordView::Rename(RenameView { id, name }),
                _ => ChangeRecordView::Light(
                    LightView { id, state: StateView::Other { state: "name"@, val: value } },
                ),
            },
        ),
{
    reveal_strlit("/lights/");
    reveal_strlit("lights");
    reveal_strlit("/name");
    reveal_strlit("name");
    reveal_strlit("state");
    let lights = "lights"@;
    let name = "name"@;
    let digits = decimal(id as nat);
    assert("/lights/"@.len() == 8 && lights.len() == 6 && "/name"@.len() == 5 && name.len() == 4
        && "state"@.len() == 5);
    lemma_decimal_read_back(id as nat);
    lemma_split_three(lights, digits, name);
    let path = light_name_path(id);
    assert(path =~= Seq::<char>::empty().push('/') + (lights.push('/') + (digits.push('/')
        + name)));
}

/// A change under `/groups/<id>/action/<field>` is a change of the state of
/// the lights of the group `id`, whatever the field and its value are.
pub proof fn lemma_group_action_change(id: usize, field: Seq<char>, value: JsonModel)
    requires
        !field.contains('/'),
    ensures
        interpretation(RawChangeView { path: group_action_path(id, field), value }) == Ok::<
            ChangeRecordView,
            ParseError,
        >(ChangeRecordView::GroupState(GroupStateView { id, state: state_of(field, value) })),
{
    reveal_strlit("/groups/");
    reveal_strlit("groups");
    reveal_strlit("lights");
    reveal_strlit("/action/");
    reveal_strlit("action");
    let groups = "groups"@;
    let action = "action"@;
    let digits = decimal(id as nat);
    assert("/groups/"@.len() == 8 && groups.len() == 6 && "/action/"@.len() == 8 && action.len()
        == 6 && "lights"@.len() == 6);
    assert(groups[0] != "lights"@[0]);
    lemma_decimal_read_back(id as nat);
    lemma_split_four(groups, digits, action, field);
    let path = group_action_path(id, field);
    assert(path =~= Seq::<char>::empty().push('/') + (groups.push('/') + (digits.push('/') + (
    action.push('/') + field))));
}

/// A change under `/groups/<id>/<field>` is a change of an attribute of the
/// group `id`, whatever the field and its value are.
pub proof fn lemma_group_attrib_change(id: usize, field: Seq<char>, value: JsonModel)
    requires
        !field.contains('/'),
    ensures
        interpretation(RawChangeView { path: group_attrib_path(id, field), value }) == Ok::<
            ChangeRecordView,
            ParseError,
        >(ChangeRecordView::Group(GroupView { id, attrib: attrib_of(field, value) })),
{
    reveal_strlit("/groups/");
    reveal_strlit("groups");
    reveal_strlit("lights");
    reveal_strlit("/");
    let groups = "groups"@;
    let digits = decimal(id as nat);
    assert("/groups/"@.len() == 8 && groups.len() == 6 && "/"@.len() == 1 && "lights"@.len()
        == 6);
    assert(groups[0] != "lights"@[0]);
    lemma_decimal_read_back(id as nat);
    lemma_split_three(groups, digits, field);
    let path = group_attrib_path(id, field);
    assert(path =~= Seq::<char>::empty().push('/') + (groups.push('/') + (digits.push('/')
        + field)));
}

/// Reads what a change says.
pub fn interpret(change: RawChange) -> (r: Result<ChangeRecord, ParseError>)
    ensures
        match interpretation(change@) {
            Ok(c) => r matches Ok(record) && record@ == c,
            Err(e) => r == Err::<ChangeRecord, ParseError>(e),
        },
{
    let RawChange { path, value } = change;
    let parsed = match parse_path(path.as_str()) {
        Ok(p) => p,
        Err(e) => {
            return Err(e);
        },
    };
    let ghost p = parsed@;
    let ResourcePath { collection, id, mut rest } = parsed;
    if rest.len() == 2 {
        let field = rest.pop().unwrap();
        let head = rest.pop().unwrap();
        match collection {
            Collection::Lights => {
                if same_text(head.as_str(), "state") {
                    Ok(ChangeRecord::Light(Light { id, state: State::from_field(field, value) }))
                } else {
                    Err(ParseError::UnknownShape)
                }
            },
            Collection::Groups => {
                if same_text(head.as_str(), "action") {
                    Ok(
                        ChangeRecord::GroupState(
                            GroupState { id, state: State::from_field(field, value) },
                        ),
                    )
                } else {
                    Err(ParseError::UnknownShape)
                }
            },
        }
    } else if rest.len() == 1 {
        let field = rest.pop().unwrap();
        match collection {
            Collection::Lights => {
                if same_text(field.as_str(), "name") {
                    match into_text(value) {
                        Ok(name) => Ok(ChangeRecord::Rename(Rename { id, name })),
                        Err(val) => Ok(
                            ChangeRecord::Light(
                                Light { id, state: State::Other { state: field, val } },
                            ),
                        ),
                    }
                } else {
                    Err(ParseError::UnknownShape)
                }
            },
            Collection::Groups => Ok(
                ChangeRecord::Group(Group { id, attrib: Attrib::from_field(field, value) }),
            ),
        }
    } else {
        Err(ParseError::UnknownShape)
    }
}

impl Light {
    /// Reads a change of the state of a light; a change of another kind
    /// fails with `OtherKind`.
    pub fn from_change(change: RawChange) -> (r: Result<Light, ParseError>)
        ensures
            match interpretation(change@) {
                Ok(ChangeRecordView::Light(c)) => r matches Ok(light) && light@ == c,
                Ok(_) => r == Err::<Light, ParseError>(ParseError::OtherKind),
                Err(e) => r == Err::<Light, ParseError>(e),
            },
    {
        match interpret(change) {
            Ok(ChangeRecord::Light(light)) => Ok(light),
            Ok(_) => Err(ParseError::OtherKind),
            Err(e) => Err(e),
        }
    }
}

impl GroupState {
    /// Reads a change of the state of the lights of a group; a change of
    /// another kind fails with `OtherKind`.
    pub fn from_change(change: RawChange) -> (r: Result<GroupState, ParseError>)
        ensures
            match interpretation(change@) {
                Ok(ChangeRecordView::GroupState(c)) => r matches Ok(state) && state@ == c,
                Ok(_) => r == Err::<GroupState, ParseError>(ParseError::OtherKind),
                Err(e) => r == Err::<GroupState, ParseError>(e),
            },
    {
        match interpret(change) {
            Ok(ChangeRecord::GroupState(state)) => Ok(state),
            Ok(_) => Err(ParseError::OtherKind),
            Err(e) => Err(e),
        }
    }
}

impl Rename {
    /// Reads a new name of a light; a change of another kind fails with
    /// `OtherKind`.
    pub fn from_change(change: RawChange) -> (r: Result<Rename, ParseError>)
        ensures
            match interpretation(change@) {
                Ok(ChangeRecordView::Rename(c)) => r matches Ok(rename) && rename@ == c,
                Ok(_) => r == Err::<Rename, ParseError>(ParseError::OtherKind),
                Err(e) => r == Err::<Rename, ParseError>(e),
            },
    {
        match interpret(change) {
            Ok(ChangeRecord::Rename(rename)) => Ok(rename),
            Ok(_) => Err(ParseError::OtherKind),
            Err(e) => Err(e),
        }
    }
}

impl Group {
    /// Reads a change of an attribute of a group; a change of another kind
    /// fails with `OtherKind`.
    pub fn from_change(change: RawChange) -> (r: Result<Group, ParseError>)
        ensures
            match interpretation(change@) {
                Ok(ChangeRecordView::Group(c)) => r matches Ok(group) && group@ == c,
                Ok(_) => r == Err::<Group, ParseError>(ParseError::OtherKind),
                Err(e) => r == Err::<Group, ParseError>(e),
            },
    {
        match interpret(change) {
            Ok(ChangeRecord::Group(group)) => Ok(group),
            Ok(_) => Err(ParseError::OtherKind),
            Err(e) => Err(e),
        }
    }
}

/// The removal that an acknowledgement of the bridge tells of: the text must
/// be a number followed by ` deleted`, and nothing else.
pub open spec fn deletion(ack: Seq<char>) -> Result<Delete, ParseError> {
    let suffix = " deleted"@;
    if ack.len() < suffix.len() || ack.skip(ack.len() - suffix.len()) != suffix {
        Err(ParseError::MissingSuffix)
    } else {
        match parse_usize(ack.take(ack.len() - suffix.len())) {
            Some(id) => Ok(Delete { id }),
            None => Err(ParseError::InvalidId),
        }
    }
}

impl Delete {
    /// Reads an acknowledgement of a removal.
    pub fn parse(ack: &str) -> (r: Result<Delete, ParseError>)
        ensures
            r == deletion(ack@),
    {
        let suffix = " deleted";
        proof {
            reveal_strlit(" deleted");
        }
        let n = ack.unicode_len();
        if n < 8 {
            return Err(ParseError::MissingSuffix);
        }
        let tail = ack.substring_char(n - 8, n);
        if !same_text(tail, suffix) {
            return Err(ParseError::MissingSuffix);
        }
        let head = ack.substring_char(0, n - 8);
        match read_usize(head) {
            Some(id) => Ok(Delete { id }),
            None => Err(ParseError::InvalidId),
        }
    }
}

/// What a success carries says: a string is an acknowledgement of a removal,
/// an object with one member is a change, and nothing else is either.
pub open spec fn payload_interpretation(payload: JsonModel) -> Result<
    ChangeRecordView,
    ParseError,
> {
    match payload {
        JsonModel::String(ack) => match deletion(ack) {
            Ok(d) => Ok(ChangeRecordView::Delete(d)),
            Err(e) => Err(e),
        },
        _ => match raw_change(payload) {
            Some(change) => interpretation(change),
            None => Err(ParseError::NotAChange),
        },
    }
}

/// Reads what a success carries.
pub fn interpret_payload(payload: JsonValue) -> (r: Result<ChangeRecord, ParseError>)
    ensures
        match payload_interpretation(payload@) {
            Ok(c) => r matches Ok(record) && record@ == c,
            Err(e) => r == Err::<ChangeRecord, ParseError>(e),
        },
{
    match into_text(payload) {
        Ok(ack) => match Delete::parse(ack.as_str()) {
            Ok(d) => Ok(ChangeRecord::Delete(d)),
            Err(e) => Err(e),
        },
        Err(other) => match RawChange::from_payload(other) {
            Ok(change) => interpret(change),
            Err(_) => Err(ParseError::NotAChange),
        },
    }
}

/// The acknowledgement of the removal of the resource `id`.
pub open spec fn deletion_ack(id: usize) -> Seq<char> {
    decimal(id as nat) + " deleted"@
}

/// The acknowledgement of a removal is read as the removal of the same resource.
pub proof fn lemma_deletion_read_back(id: usize)
    ensures
        deletion(deletion_ack(id)) == Ok::<Delete, ParseError>(Delete { id }),
{
    let suffix = " deleted"@;
    let digits = decimal(id as nat);
    let ack = deletion_ack(id);
    lemma_decimal_read_back(id as nat);
    assert(ack.skip(ack.len() - suffix.len()) =~= suffix);
    assert(ack.take(ack.len() - suffix.len()) =~= digits);
}

/// What one outcome says: a success says what its payload says, and a
/// refusal stays the refusal that it is.
pub open spec fn outcome_interpretation(o: HueResponseView<JsonModel>) -> Result<
    HueResponseView<ChangeRecordView>,
    ParseError,
> {
    match o {
        HueResponseView::Success(payload) => match payload_interpretation(payload) {
            Ok(c) => Ok(HueResponseView::Success(c)),
            Err(e) => Err(e),
        },
        HueResponseView::Error(e) => Ok(HueResponseView::Error(e)),
    }
}

/// Whether `k` is the place of the first outcome that cannot be read.
pub open spec fn first_unreadable(outcomes: Seq<HueResponseView<JsonModel>>, k: int) -> bool {
    &&& 0 <= k < outcomes.len()
    &&& outcome_interpretation(outcomes[k]) is Err
    &&& forall|i: int| 0 <= i < k ==> outcome_interpretation(#[trigger] outcomes[i]) is Ok
}

/// Reads what each outcome of a response says, and keeps their number and
/// order: a success becomes the change that it tells of, a refusal stays as it
/// is. Fails with the error of the first success that cannot be read.
pub fn interpret_batch(outcomes: Vec<HueResponse<JsonValue>>) -> (r: Result<
    Vec<HueResponse<ChangeRecord>>,
    ParseError,
>)
    ensures
        match r {
            Ok(records) => records@.len() == outcomes@.len() && forall|i: int|
                0 <= i < records@.len() ==> outcome_interpretation(outcomes@[i]@) == Ok::<
                    HueResponseView<ChangeRecordView>,
                    ParseError,
                >((#[trigger] records@[i])@),
            Err(e) => exists|k: int|
                first_unreadable(views(outcomes@), k) && outcome_interpretation(
                    #[trigger] outcomes@[k]@,
                ) == Err::<HueResponseView<ChangeRecordView>, ParseError>(e),
        },
{
    let mut records: Vec<HueResponse<ChangeRecord>> = Vec::new();
    for outcome in it: outcomes
        invariant
            it.seq() == outcomes@,
            records@.len() == it.index(),
            forall|i: int|
                0 <= i < it.index() ==> outcome_interpretation(outcomes@[i]@) == Ok::<
                    HueResponseView<ChangeRecordView>,
                    ParseError,
                >((#[trigger] records@[i])@),
    {
        let ghost k = it.index() as int;
        match outcome {
            HueResponse::Success(payload) => match interpret_payload(payload) {
                Ok(record) => {
                    records.push(HueResponse::Success(record));
                },
                Err(e) => {
                    proof {
                        let views = views(outcomes@);
                        assert forall|i: int| 0 <= i < k implies outcome_interpretation(
                            #[trigger] views[i],
                        ) is Ok by {
                            assert(outcome_interpretation(outcomes@[i]@) == Ok::<
                                HueResponseView<ChangeRecordView>,
                                ParseError,
                            >(records@[i]@));
                        }
                        assert(first_unreadable(views, k));
                    }
                    return Err(e);
                },
            },
            HueResponse::Error(e) => {
                records.push(HueResponse::Error(e));
            },
        }
    }
    Ok(records)
}

} // verus!
