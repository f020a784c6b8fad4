//! Errors reported by the bridge and by this library.

use vstd::prelude::*;
use vstd::std_specs::convert::FromSpecImpl;

use crate::json::Error;

verus! {

/// The error codes that the bridge documents, and `Other` for every number it does not.
///
/// The numbers are assigned by the bridge's vendor; `code` gives the number of
/// each variant, and `from_code` finds the variant of any integer, as
/// `BridgeError::from` does of a `u16`.
#[derive(Debug, Copy, Clone, PartialEq, Eq, Structural)]
pub enum BridgeError {
    // Generic errors
    UnauthorizedUser,
    BodyContainsInvalidJson,
    ResourceNotAvailable,
    MethodNotAvailableForResource,
    MissingParametersInBody,
    ParameterNotAvailable,
    InvalidValueForParameter,
    ParameterIsNotModifiable,
    TooManyItemsInList,
    ProtalConnectionRequired,
    InternalError,
    // Command specific errors
    LinkButtonNotPressed,
    DHCPCannotBeDisabled,
    InvalidUpdateState,
    DeviceIsSetToOff,
    GroupCouldNotBeCreatedGroupFull,
    DeviceCouldNotBeAddedGroupFull,
    DeviceIsUnreachable,
    UpdateOrDeleteGroupOfThisTypeNotAllowed,
    LightAlreadyUsed,
    SceneCouldNotBeCreated,
    SceneCouldNotBeCreatedBufferFull,
    SceneCouldNotBeRemoved,
    NotAllowedToCreateSensorType,
    SensorListIsFull,
    RuleEngineFull,
    ConditionError,
    ActionError,
    UnableToActivae,
    ScheduleListIsFull,
    ScheduleTimezoneNotValid,
    ScheduleCannotSetTimeAndLocalTime,
    CannotCreateSchedule,
    CannotEnableScheduleTimeInPast,
    CommandError,
    SourceModelInvalid,
    SourceFactoryNew,
    InvalidState,
    /// Any number that the bridge does not document.
    Other,
}

impl BridgeError {
    /// The number that the bridge sends for this error; `Other` has none.
    pub open spec fn spec_code(self) -> Option<u16> {
        match self {
            BridgeError::UnauthorizedUser => Some(1u16),
            BridgeError::BodyContainsInvalidJson => Some(2u16),
            BridgeError::ResourceNotAvailable => Some(3u16),
            BridgeError::MethodNotAvailableForResource => Some(4u16),
            BridgeError::MissingParametersInBody => Some(5u16),
            BridgeError::ParameterNotAvailable => Some(6u16),
            BridgeError::InvalidValueForParameter => Some(7u16),
            BridgeError::ParameterIsNotModifiable => Some(8u16),
            BridgeError::TooManyItemsInList => Some(11u16),
            BridgeError::ProtalConnectionRequired => Some(12u16),
            BridgeError::InternalError => Some(901u16),
            BridgeError::LinkButtonNotPressed => Some(101u16),
            BridgeError::DHCPCannotBeDisabled => Some(110u16),
            BridgeError::InvalidUpdateState => Some(111u16),
            BridgeError::DeviceIsSetToOff => Some(201u16),
            BridgeError::GroupCouldNotBeCreatedGroupFull => Some(301u16),
            BridgeError::DeviceCouldNotBeAddedGroupFull => Some(302u16),
            BridgeError::DeviceIsUnreachable => Some(304u16),
            BridgeError::UpdateOrDeleteGroupOfThisTypeNotAllowed => Some(305u16),
            BridgeError::LightAlreadyUsed => Some(306u16),
            BridgeError::SceneCouldNotBeCreated => Some(401u16),
            BridgeError::SceneCouldNotBeCreatedBufferFull => Some(402u16),
            BridgeError::SceneCouldNotBeRemoved => Some(403u16),
            BridgeError::NotAllowedToCreateSensorType => Some(501u16),
            BridgeError::SensorListIsFull => Some(502u16),
            BridgeError::RuleEngineFull => Some(601u16),
            BridgeError::ConditionError => Some(607u16),
            BridgeError::ActionError => Some(608u16),
            BridgeError::UnableToActivae => Some(609u16),
            BridgeError::ScheduleListIsFull => Some(701u16),
            BridgeError::ScheduleTimezoneNotValid => Some(702u16),
            BridgeError::ScheduleCannotSetTimeAndLocalTime => Some(703u16),
            BridgeError::CannotCreateSchedule => Some(704u16),
            BridgeError::CannotEnableScheduleTimeInPast => Some(705u16),
            BridgeError::CommandError => Some(706u16),
            BridgeError::SourceModelInvalid => Some(801u16),
            BridgeError::SourceFactoryNew => Some(802u16),
            BridgeError::InvalidState => Some(803u16),
            BridgeError::Other => None,
        }
    }

    /// Whether the bridge sends the number `n` for this error.
    pub open spec fn has_code(self, n: int) -> bool {
        self.spec_code() matches Some(c) && c == n
    }

    /// Whether the bridge documents the number `n`.
    pub open spec fn documented(n: int) -> bool {
        exists|e: BridgeError| #[trigger] e.has_code(n)
    }

    /// The number that the bridge sends for this error; `Other` has none.
    pub fn code(self) -> (n: Option<u16>)
        ensures
            n == self.spec_code(),
    {
        match self {
            BridgeError::UnauthorizedUser => Some(1),
            BridgeError::BodyContainsInvalidJson => Some(2),
            BridgeError::ResourceNotAvailable => Some(3),
            BridgeError::MethodNotAvailableForResource => Some(4),
            BridgeError::MissingParametersInBody => Some(5),
            BridgeError::ParameterNotAvailable => Some(6),
            BridgeError::InvalidValueForParameter => Some(7),
            BridgeError::ParameterIsNotModifiable => Some(8),
            BridgeError::TooManyItemsInList => Some(11),
            BridgeError::ProtalConnectionRequired => Some(12),
            BridgeError::InternalError => Some(901),
            BridgeError::LinkButtonNotPressed => Some(101),
            BridgeError::DHCPCannotBeDisabled => Some(110),
            BridgeError::InvalidUpdateState => Some(111),
            BridgeError::DeviceIsSetToOff => Some(201),
            BridgeError::GroupCouldNotBeCreatedGroupFull => Some(301),
            BridgeError::DeviceCouldNotBeAddedGroupFull => Some(302),
            BridgeError::DeviceIsUnreachable => Some(304),
            BridgeError::UpdateOrDeleteGroupOfThisTypeNotAllowed => Some(305),
            BridgeError::LightAlreadyUsed => Some(306),
            BridgeError::SceneCouldNotBeCreated => Some(401),
            BridgeError::SceneCouldNotBeCreatedBufferFull => Some(402),
            BridgeError::SceneCouldNotBeRemoved => Some(403),
            BridgeError::NotAllowedToCreateSensorType => Some(501),
            BridgeError::SensorListIsFull => Some(502),
            BridgeError::RuleEngineFull => Some(601),
            BridgeError::ConditionError => Some(607),
            BridgeError::ActionError => Some(608),
            BridgeError::UnableToActivae => Some(609),
            BridgeError::ScheduleListIsFull => Some(701),
            BridgeError::ScheduleTimezoneNotValid => Some(702),
            BridgeError::ScheduleCannotSetTimeAndLocalTime => Some(703),
            BridgeError::CannotCreateSchedule => Some(704),
            BridgeError::CannotEnableScheduleTimeInPast => Some(705),
            BridgeError::CommandError => Some(706),
            BridgeError::SourceModelInvalid => Some(801),
            BridgeError::SourceFactoryNew => Some(802),
            BridgeError::InvalidState => Some(803),
            BridgeError::Other => None,
        }
    }
}

/// The error that the bridge means by the number `n`, whatever integer `n`
/// is: the variant whose code is `n`, and `Other` where no variant has that code.
pub open spec fn bridge_error_of(n: int) -> BridgeError {
    if BridgeError::documented(n) {
        choose|e: BridgeError| #[trigger] e.has_code(n)
    } else {
        BridgeError::Other
    }
}

/// A documented error is the error of its own code.
pub proof fn lemma_error_of_code(e: BridgeError)
    requires
        e != BridgeError::Other,
    ensures
        BridgeError::documented(e.spec_code().unwrap() as int),
        bridge_error_of(e.spec_code().unwrap() as int) == e,
{
    assert(e.has_code(e.spec_code().unwrap() as int));
}

/// The error of a number carries that number as its code, or is `Other`
/// because no documented error carries it.
pub proof fn lemma_code_of_error(n: int)
    ensures
        BridgeError::documented(n) ==> bridge_error_of(n).has_code(n),
        bridge_error_of(n) == BridgeError::Other <==> !BridgeError::documented(n),
{
}

/// A number that is negative or above 65535 is no code of a documented
/// error, so the error that the bridge means by it is `Other`.
pub proof fn lemma_wide_code_is_other(n: int)
    requires
        n < 0 || n > u16::MAX,
    ensures
        bridge_error_of(n) == BridgeError::Other,
{
}

impl From<u16> for BridgeError {
    /// The error that the bridge means by the number `n`.
    fn from(n: u16) -> (e: BridgeError) {
        let e = match n {
            1 => BridgeError::UnauthorizedUser,
            2 => BridgeError::BodyContainsInvalidJson,
            3 => BridgeError::ResourceNotAvailable,
            4 => BridgeError::MethodNotAvailableForResource,
            5 => BridgeError::MissingParametersInBody,
            6 => BridgeError::ParameterNotAvailable,
            7 => BridgeError::InvalidValueForParameter,
            8 => BridgeError::ParameterIsNotModifiable,
            11 => BridgeError::TooManyItemsInList,
            12 => BridgeError::ProtalConnectionRequired,
            901 => BridgeError::InternalError,
            101 => BridgeError::LinkButtonNotPressed,
            110 => BridgeError::DHCPCannotBeDisabled,
            111 => BridgeError::InvalidUpdateState,
            201 => BridgeError::DeviceIsSetToOff,
            301 => BridgeError::GroupCouldNotBeCreatedGroupFull,
            302 => BridgeError::DeviceCouldNotBeAddedGroupFull,
            304 => BridgeError::DeviceIsUnreachable,
            305 => BridgeError::UpdateOrDeleteGroupOfThisTypeNotAllowed,
            306 => BridgeError::LightAlreadyUsed,
            401 => BridgeError::SceneCouldNotBeCreated,
            402 => BridgeError::SceneCouldNotBeCreatedBufferFull,
            403 => BridgeError::SceneCouldNotBeRemoved,
            501 => BridgeError::NotAllowedToCreateSensorType,
            502 => BridgeError::SensorListIsFull,
            601 => BridgeError::RuleEngineFull,
            607 => BridgeError::ConditionError,
            608 => BridgeError::ActionError,
            609 => BridgeError::UnableToActivae,
            701 => BridgeError::ScheduleListIsFull,
            702 => BridgeError::ScheduleTimezoneNotValid,
            703 => BridgeError::ScheduleCannotSetTimeAndLocalTime,
            704 => BridgeError::CannotCreateSchedule,
            705 => BridgeError::CannotEnableScheduleTimeInPast,
            706 => BridgeError::CommandError,
            801 => BridgeError::SourceModelInvalid,
            802 => BridgeError::SourceFactoryNew,
            803 => BridgeError::InvalidState,
            _ => BridgeError::Other,
        };
        proof {
            if e != BridgeError::Other {
                lemma_error_of_code(e);
            }
        }
        e
    }
}

impl FromSpecImpl<u16> for BridgeError {
    open spec fn obeys_from_spec() -> bool {
        true
    }

    open spec fn from_spec(n: u16) -> BridgeError {
        bridge_error_of(n as int)
    }
}

impl BridgeError {
    /// The error that the bridge means by the number `n`, whatever integer
    /// the bridge has sent.
    pub fn from_code(n: i128) -> (e: BridgeError)
        ensures
            e == bridge_error_of(n as int),
    {
        if 0 <= n && n <= 65535 {
            BridgeError::from(n as u16)
        } else {
            BridgeError::Other
        }
    }
}

/// What can go wrong while a response of the bridge is decoded.
#[derive(Debug, PartialEq)]
pub enum HueError {
    /// The bridge refused an operation.
    BridgeError { address: String, description: String, error: BridgeError },
    /// The response is not JSON, or JSON of a shape that the bridge does not send.
    MalformedResponse,
}

/// A `HueError` as a mathematical value.
pub enum HueErrorView {
    BridgeError { address: Seq<char>, description: Seq<char>, error: BridgeError },
    MalformedResponse,
}

impl View for HueError {
    type V = HueErrorView;

    open spec fn view(&self) -> HueErrorView {
        match self {
            HueError::BridgeError { address, description, error } => HueErrorView::BridgeError {
                address: address@,
                description: description@,
                error: *error,
            },
            HueError::MalformedResponse => HueErrorView::MalformedResponse,
        }
    }
}

/// The refusal that an error object of the bridge stands for.
pub open spec fn bridge_failure(e: Error) -> HueError {
    HueError::BridgeError {
        address: e.address,
        description: e.description,
        error: bridge_error_of(e.code as int),
    }
}

impl From<Error> for HueError {
    /// The refusal that an error object of the bridge stands for.
    fn from(e: Error) -> (r: HueError) {
        HueError::BridgeError {
            address: e.address,
            description: e.description,
            error: BridgeError::from_code(e.code),
        }
    }
}

impl FromSpecImpl<Error> for HueError {
    open spec fn obeys_from_spec() -> bool {
        true
    }

    open spec fn from_spec(e: Error) -> HueError {
        bridge_failure(e)
    }
}

} // verus!
