//! The presenter's pointer-motion scaling: ten levels, their wire encoding, and
//! the errors of a read or write.

use vstd::prelude::*;
use crate::device::report::hidpp20_short;
use crate::presenter::PointerSpeed;

verus! {

/// Feature number of the pointer-motion scaling.
pub const FEATURE_ID: u16 = 0x2205;

/// A pointer-speed level: `0` is slowest, `9` is fastest.
#[derive(Clone, Copy, Debug, PartialEq, Eq, Structural)]
pub struct PointerSpeedLevel(u8);

impl View for PointerSpeedLevel {
    type V = u8;

    closed spec fn view(&self) -> u8 {
        self.0
    }
}

/// The level that a wire value stands for.
pub open spec fn level_of_wire(value: u8) -> Option<u8> {
    if 0x10 <= value <= 0x19 {
        Some((value - 0x10) as u8)
    } else {
        None
    }
}

impl PointerSpeedLevel {
    /// Number of levels.
    pub const COUNT: u8 = 10;

    #[verifier::type_invariant]
    spec fn in_range(self) -> bool {
        self.0 < 10
    }

    /// The level `value`, when there is one.
    pub fn new(value: u8) -> (level: Option<PointerSpeedLevel>)
        ensures
            match level {
                Some(l) => value < Self::COUNT && l@ == value,
                None => value >= Self::COUNT,
            },
    {
        if value < Self::COUNT {
            Some(PointerSpeedLevel(value))
        } else {
            None
        }
    }

    /// The level, `0..=9`.
    pub fn get(self) -> (level: u8)
        ensures
            level == self@,
            level < Self::COUNT,
    {
        proof {
            use_type_invariant(&self);
        }
        self.0
    }

    /// The level as the feature encodes it.
    pub fn wire(self) -> (value: u8)
        ensures
            value == 0x10 + self@,
            level_of_wire(value) == Some(self@),
    {
        proof {
            use_type_invariant(&self);
        }
        0x10 + self.0
    }

    /// The level that a wire value stands for.
    pub fn from_wire(value: u8) -> (level: Option<PointerSpeedLevel>)
        ensures
            match level {
                Some(l) => level_of_wire(value) == Some(l@),
                None => level_of_wire(value) is None,
            },
    {
        if value >= 0x10 && value <= 0x19 {
            Some(PointerSpeedLevel(value - 0x10))
        } else {
            None
        }
    }
}

/// A feature error a device can answer with.
#[derive(Clone, Copy, Debug, PartialEq, Eq, Structural)]
pub enum ErrorType {
    /// The request makes no sense to the device.
    InvalidArgument,
    /// The function does not exist.
    InvalidFunctionId,
    /// The device is busy.
    Busy,
    /// The device does not support the request.
    Unsupported,
}

/// Why a feature call failed.
#[derive(Clone, Copy, Debug, PartialEq, Eq, Structural)]
pub enum Hidpp20Error {
    /// The report did not get through.
    Channel,
    /// The device refused the call.
    Feature(ErrorType),
    /// The reply makes no sense to the host.
    UnsupportedResponse,
}

/// What the host was doing when a call failed.
#[derive(Clone, Copy, Debug, PartialEq, Eq, Structural)]
pub enum HidppOperation {
    /// Looking for a feature.
    ResolveFeature,
    /// Reading the pointer speed.
    ReadPointerSpeed,
    /// Writing the pointer speed.
    WritePointerSpeed,
}

/// Why a read or write of a device setting failed.
#[derive(Clone, Copy, Debug, PartialEq, Eq, Structural)]
pub enum WriteError {
    /// The device did not answer.
    DeviceUnreachable {
        /// Its index.
        index: u8,
    },
    /// The device does not have the feature, or not this much of it.
    FeatureUnsupported {
        /// The feature.
        feature_hex: u16,
    },
    /// A feature call failed.
    Hidpp {
        /// What the host was doing.
        operation: HidppOperation,
        /// The feature.
        feature_hex: u16,
        /// Why it failed.
        error: Hidpp20Error,
    },
    /// More than one raw device answers to the route.
    AmbiguousRawDevice,
    /// No agent could be reached; it is just restarting.
    AgentUnavailable,
}

/// What a failed feature call means.
pub open spec fn hidpp_failure(
    error: Hidpp20Error,
    operation: HidppOperation,
    feature_id: u16,
) -> WriteError {
    WriteError::Hidpp { operation, feature_hex: feature_id, error }
}

/// What a failed feature call means.
pub fn classify_hidpp_error(
    error: Hidpp20Error,
    operation: HidppOperation,
    feature_id: u16,
) -> (failure: WriteError)
    ensures
        failure == hidpp_failure(error, operation, feature_id),
{
    WriteError::Hidpp { operation, feature_hex: feature_id, error }
}

/// What a failed pointer-speed call means: a device that does not know the
/// function, or answers what the host cannot read, does not support the feature.
pub open spec fn pointer_speed_failure(
    error: Hidpp20Error,
    operation: HidppOperation,
) -> WriteError {
    if error == Hidpp20Error::Feature(ErrorType::Unsupported) || error == Hidpp20Error::Feature(
        ErrorType::InvalidFunctionId,
    ) || error == Hidpp20Error::UnsupportedResponse {
        WriteError::FeatureUnsupported { feature_hex: FEATURE_ID }
    } else {
        hidpp_failure(error, operation, FEATURE_ID)
    }
}

/// What a failed pointer-speed call means.
pub fn classify_pointer_speed_error(
    error: Hidpp20Error,
    operation: HidppOperation,
) -> (failure: WriteError)
    ensures
        failure == pointer_speed_failure(error, operation),
{
    match error {
        Hidpp20Error::Feature(ErrorType::Unsupported)
        | Hidpp20Error::Feature(ErrorType::InvalidFunctionId)
        | Hidpp20Error::UnsupportedResponse => WriteError::FeatureUnsupported {
            feature_hex: FEATURE_ID,
        },
        other => classify_hidpp_error(other, operation, FEATURE_ID),
    }
}

/// The pointer-motion scaling of one device.
#[derive(Clone, Copy, Debug, PartialEq, Eq, Structural)]
pub struct PointerSpeedFeature {
    /// Index of the device.
    pub device_index: u8,
    /// Where the device keeps the feature.
    pub feature_index: u8,
}

impl PointerSpeedFeature {
    /// The call that reads the level.
    pub fn get_speed_request(&self) -> (report: Vec<u8>)
        ensures
            report@ == seq![0x10u8, self.device_index, self.feature_index, 0u8, 0u8, 0u8, 0u8],
    {
        let report = hidpp20_short(self.device_index, self.feature_index, 0, [0, 0, 0]);
        assert(report@ =~= seq![0x10u8, self.device_index, self.feature_index, 0u8, 0u8, 0u8, 0u8]);
        report
    }

    /// The level in the payload of the reply.
    pub fn get_speed(&self, payload: &[u8; 16]) -> (level: Result<PointerSpeedLevel, Hidpp20Error>)
        ensures
            match level {
                Ok(l) => level_of_wire(payload@[0]) == Some(l@),
                Err(e) => e == Hidpp20Error::UnsupportedResponse && level_of_wire(
                    payload@[0],
                ) is None,
            },
    {
        match PointerSpeedLevel::from_wire(payload[0]) {
            Some(level) => Ok(level),
            None => Err(Hidpp20Error::UnsupportedResponse),
        }
    }

    /// The call that sets the level.
    pub fn set_speed(&self, speed: PointerSpeedLevel) -> (report: Vec<u8>)
        ensures
            report@ == seq![
                0x10u8,
                self.device_index,
                self.feature_index,
                0x10u8,
                (0x10 + speed@) as u8,
                0u8,
                0u8,
            ],
    {
        let report = hidpp20_short(self.device_index, self.feature_index, 1, [speed.wire(), 0, 0]);
        assert(report@ =~= seq![
            0x10u8,
            self.device_index,
            self.feature_index,
            0x10u8,
            (0x10 + speed@) as u8,
            0u8,
            0u8,
        ]);
        report
    }
}

/// The feature of the device at `index`, once it answered and said where it
/// keeps it.
pub fn open_pointer_speed(
    index: u8,
    reachable: bool,
    lookup: Result<Option<u8>, Hidpp20Error>,
) -> (feature: Result<PointerSpeedFeature, WriteError>)
    ensures
        feature == if !reachable {
            Err(WriteError::DeviceUnreachable { index })
        } else {
            match lookup {
                Err(error) => Err(hidpp_failure(error, HidppOperation::ResolveFeature, FEATURE_ID)),
                Ok(None) => Err(WriteError::FeatureUnsupported { feature_hex: FEATURE_ID }),
                Ok(Some(feature_index)) => Ok(
                    PointerSpeedFeature { device_index: index, feature_index },
                ),
            }
        },
{
    if !reachable {
        return Err(WriteError::DeviceUnreachable { index });
    }
    match lookup {
        Err(error) => Err(classify_hidpp_error(error, HidppOperation::ResolveFeature, FEATURE_ID)),
        Ok(None) => Err(WriteError::FeatureUnsupported { feature_hex: FEATURE_ID }),
        Ok(Some(feature_index)) => Ok(PointerSpeedFeature { device_index: index, feature_index }),
    }
}

/// The level of the device as the setting the rest of the library uses.
pub fn decode_speed(value: PointerSpeedLevel) -> (speed: PointerSpeed)
    ensures
        speed@ == value@,
{
    match PointerSpeed::new(value.get()) {
        Some(speed) => speed,
        None => PointerSpeed::max(),
    }
}

/// The setting as a level of the device.
pub fn encode_speed(speed: PointerSpeed) -> (level: Result<PointerSpeedLevel, WriteError>)
    ensures
        level matches Ok(l) && l@ == speed@,
{
    match PointerSpeedLevel::new(speed.get()) {
        Some(level) => Ok(level),
        None => Err(WriteError::FeatureUnsupported { feature_hex: FEATURE_ID }),
    }
}

/// What reading the pointer speed comes to, given the reply.
pub fn read_outcome(
    feature: &PointerSpeedFeature,
    reply: Result<[u8; 16], Hidpp20Error>,
) -> (speed: Result<PointerSpeed, WriteError>)
    ensures
        match reply {
            Err(error) => speed == Err::<PointerSpeed, WriteError>(
                pointer_speed_failure(error, HidppOperation::ReadPointerSpeed),
            ),
            Ok(payload) => match level_of_wire(payload@[0]) {
                Some(level) => speed matches Ok(s) && s@ == level,
                None => speed == Err::<PointerSpeed, WriteError>(
                    WriteError::FeatureUnsupported { feature_hex: FEATURE_ID },
                ),
            },
        },
{
    match reply {
        Err(error) => Err(classify_pointer_speed_error(error, HidppOperation::ReadPointerSpeed)),
        Ok(payload) => match feature.get_speed(&payload) {
            Ok(level) => Ok(decode_speed(level)),
            Err(error) => Err(
                classify_pointer_speed_error(error, HidppOperation::ReadPointerSpeed),
            ),
        },
    }
}

/// What writing the pointer speed comes to, given whether the call succeeded.
pub fn write_outcome(reply: Result<(), Hidpp20Error>) -> (done: Result<(), WriteError>)
    ensures
        done == match reply {
            Ok(_) => Ok::<(), WriteError>(()),
            Err(error) => Err::<(), WriteError>(
                pointer_speed_failure(error, HidppOperation::WritePointerSpeed),
            ),
        },
{
    match reply {
        Ok(_) => Ok(()),
        Err(error) => Err(classify_pointer_speed_error(error, HidppOperation::WritePointerSpeed)),
    }
}

/// What a pointer-speed call is for.
#[derive(Clone, Copy, Debug, PartialEq, Eq, Structural)]
pub enum SpeedGoal {
    /// To read the level.
    Read,
    /// To set this level.
    Write(PointerSpeed),
}

/// How far a pointer-speed call came.
#[derive(Clone, Copy, Debug, PartialEq, Eq)]
pub enum SpeedPhase {
    /// The device was not reached yet.
    Opening,
    /// The feature was not found yet.
    Finding,
    /// The feature is here.
    Calling(PointerSpeedFeature),
    /// It is over: the level that was read or set, or why there is none.
    Done(Result<PointerSpeed, WriteError>),
}

/// What a pointer-speed call asks for.
#[derive(Debug, PartialEq, Eq)]
pub enum SpeedAsk {
    /// Reach the device.
    Open(u8),
    /// Where the device keeps the feature.
    FindFeature(u16),
    /// Send this report and wait for the reply.
    Send(Vec<u8>),
    /// Nothing.
    Done(Result<PointerSpeed, WriteError>),
}

/// What came of it.
#[derive(Clone, Copy, Debug, PartialEq, Eq)]
pub enum SpeedAnswer {
    /// Whether the device answers.
    Opened(bool),
    /// Where the feature is, if the device has it.
    Feature(Result<Option<u8>, Hidpp20Error>),
    /// The payload of the reply.
    Reply(Result<[u8; 16], Hidpp20Error>),
}

/// A read or write of the pointer speed.
#[derive(Clone, Copy, Debug, PartialEq, Eq)]
pub struct SpeedCall {
    /// Index of the device.
    pub index: u8,
    /// What it is for.
    pub goal: SpeedGoal,
    /// How far it came.
    pub phase: SpeedPhase,
}

/// What the reply to a call means.
pub open spec fn replied(goal: SpeedGoal, reply: Result<[u8; 16], Hidpp20Error>, end: Result<
    PointerSpeed,
    WriteError,
>) -> bool {
    match (goal, reply) {
        (SpeedGoal::Read, Err(error)) => end == Err::<PointerSpeed, WriteError>(
            pointer_speed_failure(error, HidppOperation::ReadPointerSpeed),
        ),
        (SpeedGoal::Read, Ok(payload)) => match level_of_wire(payload@[0]) {
            Some(level) => end matches Ok(speed) && speed@ == level,
            None => end == Err::<PointerSpeed, WriteError>(
                WriteError::FeatureUnsupported { feature_hex: FEATURE_ID },
            ),
        },
        (SpeedGoal::Write(_), Err(error)) => end == Err::<PointerSpeed, WriteError>(
            pointer_speed_failure(error, HidppOperation::WritePointerSpeed),
        ),
        (SpeedGoal::Write(speed), Ok(_)) => end == Ok::<PointerSpeed, WriteError>(speed),
    }
}

/// A read of the pointer speed of the device at `index`.
pub fn get_pointer_speed(index: u8) -> (call: SpeedCall)
    ensures
        call == (SpeedCall { index, goal: SpeedGoal::Read, phase: SpeedPhase::Opening }),
{
    SpeedCall { index, goal: SpeedGoal::Read, phase: SpeedPhase::Opening }
}

/// A write of the pointer speed of the device at `index`.
pub fn set_pointer_speed(index: u8, speed: PointerSpeed) -> (call: SpeedCall)
    ensures
        call == (SpeedCall { index, goal: SpeedGoal::Write(speed), phase: SpeedPhase::Opening }),
{
    SpeedCall { index, goal: SpeedGoal::Write(speed), phase: SpeedPhase::Opening }
}

impl SpeedCall {
    /// What the call asks for: the device, the feature, and then one report.
    pub fn ask(&self) -> (ask: SpeedAsk)
        ensures
            match (self.phase, self.goal) {
                (SpeedPhase::Opening, _) => ask == SpeedAsk::Open(self.index),
                (SpeedPhase::Finding, _) => ask == SpeedAsk::FindFeature(FEATURE_ID),
                (SpeedPhase::Calling(at), SpeedGoal::Read) => ask matches SpeedAsk::Send(report)
                    && report@ == seq![
                    0x10u8,
                    at.device_index,
                    at.feature_index,
                    0u8,
                    0u8,
                    0u8,
                    0u8,
                ],
                (SpeedPhase::Calling(at), SpeedGoal::Write(speed)) => ask matches SpeedAsk::Send(
                    report,
                ) && report@ == seq![
                    0x10u8,
                    at.device_index,
                    at.feature_index,
                    0x10u8,
                    (0x10 + speed@) as u8,
                    0u8,
                    0u8,
                ],
                (SpeedPhase::Done(end), _) => ask == SpeedAsk::Done(end),
            },
    {
        match self.phase {
            SpeedPhase::Opening => SpeedAsk::Open(self.index),
            SpeedPhase::Finding => SpeedAsk::FindFeature(FEATURE_ID),
            SpeedPhase::Calling(at) => match self.goal {
                SpeedGoal::Read => SpeedAsk::Send(at.get_speed_request()),
                SpeedGoal::Write(speed) => match encode_speed(speed) {
                    Ok(level) => SpeedAsk::Send(at.set_speed(level)),
                    Err(error) => SpeedAsk::Done(Err(error)),
                },
            },
            SpeedPhase::Done(end) => SpeedAsk::Done(end),
        }
    }

    /// Takes what came of it. An answer to something else changes nothing.
    pub fn step(self, answer: SpeedAnswer) -> (next: SpeedCall)
        ensures
            next.index == self.index,
            next.goal == self.goal,
            match (self.phase, answer) {
                (SpeedPhase::Opening, SpeedAnswer::Opened(true)) => next.phase
                    == SpeedPhase::Finding,
                (SpeedPhase::Opening, SpeedAnswer::Opened(false)) => next.phase
                    == SpeedPhase::Done(Err(WriteError::DeviceUnreachable { index: self.index })),
                (SpeedPhase::Finding, SpeedAnswer::Feature(Err(error))) => next.phase
                    == SpeedPhase::Done(
                    Err(hidpp_failure(error, HidppOperation::ResolveFeature, FEATURE_ID)),
                ),
                (SpeedPhase::Finding, SpeedAnswer::Feature(Ok(None))) => next.phase
                    == SpeedPhase::Done(
                    Err(WriteError::FeatureUnsupported { feature_hex: FEATURE_ID }),
                ),
                (SpeedPhase::Finding, SpeedAnswer::Feature(Ok(Some(feature_index)))) => next.phase
                    == SpeedPhase::Calling(
                    PointerSpeedFeature { device_index: self.index, feature_index },
                ),
                (SpeedPhase::Calling(_), SpeedAnswer::Reply(reply)) => next.phase
                    matches SpeedPhase::Done(end) && replied(self.goal, reply, end),
                _ => next == self,
            },
    {
        let phase = match (self.phase, answer) {
            (SpeedPhase::Opening, SpeedAnswer::Opened(reachable)) => if reachable {
                SpeedPhase::Finding
            } else {
                SpeedPhase::Done(Err(WriteError::DeviceUnreachable { index: self.index }))
            },
            (SpeedPhase::Finding, SpeedAnswer::Feature(lookup)) => {
                match open_pointer_speed(self.index, true, lookup) {
                    Ok(feature) => SpeedPhase::Calling(feature),
                    Err(error) => SpeedPhase::Done(Err(error)),
                }
            },
            (SpeedPhase::Calling(at), SpeedAnswer::Reply(reply)) => match self.goal {
                SpeedGoal::Read => SpeedPhase::Done(read_outcome(&at, reply)),
                SpeedGoal::Write(speed) => {
                    let sent = match reply {
                        Ok(_) => Ok(()),
                        Err(error) => Err(error),
                    };
                    match write_outcome(sent) {
                        Ok(_) => SpeedPhase::Done(Ok(speed)),
                        Err(error) => SpeedPhase::Done(Err(error)),
                    }
                },
            },
            (phase, _) => phase,
        };
        SpeedCall { index: self.index, goal: self.goal, phase }
    }
}

/// Every level comes back from its wire encoding, and every wire value that is
/// accepted is the encoding of its level.
pub proof fn law_wire_round_trip(level: u8, value: u8)
    ensures
        level < PointerSpeedLevel::COUNT ==> level_of_wire((0x10 + level) as u8) == Some(level),
        level_of_wire(value) matches Some(l) ==> l < PointerSpeedLevel::COUNT && value == 0x10 + l,
{
}

} // verus!
