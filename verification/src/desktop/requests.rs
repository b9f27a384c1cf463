//! What the window asks of the agent, and what becomes of each answer.
//!
//! A request says for itself how its outcome reaches whoever asked, including
//! the outcome that no agent could be reached. Reads answer a ticket, light
//! writes and pairing commands report through the window's updates, and the rest
//! only log a refusal: the next snapshot shows what the device did.

use vstd::prelude::*;
use crate::config::links::Dpi;
use crate::color::Rgb;
use crate::desktop::events::DeviceKey;
use crate::device::pointer_speed::WriteError;
use crate::hook::foreground::ForegroundApp;
use crate::presenter::PointerSpeed;
use crate::route::DeviceRoute;

verus! {

/// The lighting of a keyboard.
#[derive(Clone, Copy, Debug, PartialEq, Eq)]
pub struct Lighting {
    /// Whether it is lit.
    pub enabled: bool,
    /// Its color.
    pub color: Rgb,
    /// Its brightness in percent.
    pub brightness: u8,
}

/// How a wheel switches between free spin and ratchet.
#[derive(Clone, Copy, Debug, PartialEq, Eq, Structural)]
pub struct SmartShiftStatus {
    /// Whether the wheel is ratcheted.
    pub ratchet: bool,
    /// The speed at which it lets go.
    pub auto_disengage: u8,
    /// The force of the ratchet.
    pub tunable_torque: u8,
}

/// A write to a standalone light.
#[derive(Clone, Copy, Debug, PartialEq, Eq, Structural)]
pub enum LightCommand {
    /// On or off.
    Power(bool),
    /// How bright.
    Brightness(u16),
    /// How warm, in kelvin.
    Temperature(u16),
}

/// Which receiver to pair with.
#[derive(Debug, PartialEq, Eq)]
pub enum ReceiverSelector {
    /// The first one found.
    First,
    /// The one with this identity.
    Uid(String),
}

/// Why the agent refused a pairing command.
#[derive(Clone, Copy, Debug, PartialEq, Eq, Structural)]
pub enum PairingCommandError {
    /// A session is already running.
    AlreadyRunning,
    /// No session is running.
    NotRunning,
}

/// Why pairing ended.
#[derive(Clone, Copy, Debug, PartialEq, Eq, Structural)]
pub enum PairingFailure {
    /// The agent went away.
    AgentRestarted,
    /// The agent refused the command.
    Refused(PairingCommandError),
}

/// Why the agent did not adopt a configuration.
#[derive(Debug, PartialEq, Eq)]
pub struct ConfigReloadError {
    /// What it says.
    pub message: String,
}

/// Whether the agent's device list can be trusted.
#[derive(Clone, Copy, Debug, PartialEq, Eq, Structural)]
pub enum InventoryHealth {
    /// The first scan is still running.
    Scanning,
    /// The list is complete.
    Ready,
}

/// What the agent says of itself.
#[derive(Debug, PartialEq, Eq)]
pub struct AgentStatus {
    /// Whether it may filter events.
    pub accessibility_granted: bool,
    /// Whether its hook runs.
    pub hook_installed: bool,
    /// Whether it starts at login.
    pub launch_at_login: bool,
    /// Whether its device list can be trusted.
    pub inventory: InventoryHealth,
    /// The protocol it speaks.
    pub protocol_version: u32,
    /// Its version.
    pub agent_version: String,
    /// Whether it may watch input.
    pub input_monitoring_granted: bool,
    /// Whether devices could not be opened.
    pub hid_open_failures: bool,
}

/// The applications the agent saw in front.
#[derive(Debug, PartialEq, Eq)]
pub struct ForegroundApps {
    /// The one in front.
    pub current: Option<ForegroundApp>,
    /// The ones seen lately, newest first, without this application's own.
    pub recent: Vec<ForegroundApp>,
}

/// The agent's state.
#[derive(Debug, PartialEq, Eq)]
pub struct AgentSnapshot {
    /// What the agent says of itself.
    pub status: AgentStatus,
    /// Whether a camera is in use.
    pub camera_active: bool,
    /// The applications in front.
    pub foreground: ForegroundApps,
}

/// What the client thread tells the window.
#[derive(Debug, PartialEq, Eq)]
pub enum GuiUpdate {
    /// The agent's state, as of a generation not seen before.
    Snapshot(AgentSnapshot),
    /// No usable connection for long enough to say so.
    Unreachable,
    /// The agent speaks a newer protocol: only a relaunch helps.
    OutdatedGui,
    /// What became of a write to a standalone light.
    LightCommandResult {
        /// The light.
        key: DeviceKey,
        /// Number of the write, to ignore stale results.
        request_id: u64,
        /// What was written.
        command: LightCommand,
        /// Whether it was accepted.
        result: Result<(), WriteError>,
    },
    /// Whether the agent adopted the saved configuration.
    ConfigReloadResult(Result<(), ConfigReloadError>),
    /// A pairing command came to nothing, so no session will ever show it.
    PairingUndeliverable(PairingFailure),
}

/// What the window knows of the agent.
#[derive(Debug, PartialEq, Eq)]
pub enum AgentLink {
    /// Nothing yet: the window just opened, or the agent is starting.
    Connecting,
    /// Still nothing well past startup.
    Unreachable,
    /// The agent is newer than this process.
    OutdatedGui,
    /// Connected and current.
    Ready(AgentStatus),
}

impl AgentLink {
    /// What an update makes of the link: a snapshot, an outage and a newer agent
    /// each supersede whatever was known; the rest say nothing of the link.
    pub open spec fn superseded(self, update: GuiUpdate) -> AgentLink {
        match update {
            GuiUpdate::Snapshot(snapshot) => AgentLink::Ready(snapshot.status),
            GuiUpdate::Unreachable => AgentLink::Unreachable,
            GuiUpdate::OutdatedGui => AgentLink::OutdatedGui,
            _ => self,
        }
    }

    /// Takes an update.
    pub fn after(self, update: GuiUpdate) -> (link: AgentLink)
        ensures
            link == self.superseded(update),
    {
        match update {
            GuiUpdate::Snapshot(snapshot) => AgentLink::Ready(snapshot.status),
            GuiUpdate::Unreachable => AgentLink::Unreachable,
            GuiUpdate::OutdatedGui => AgentLink::OutdatedGui,
            _ => self,
        }
    }
}

/// What became of a SmartShift write, confirmed by reading the value back.
#[derive(Clone, Copy, Debug, PartialEq, Eq, Structural)]
pub enum SmartShiftWriteStatus {
    /// The written value shows while the confirming read runs.
    Applying {
        /// What was written.
        expected: SmartShiftStatus,
        /// Number of the write, to reject replies to older ones.
        write_id: u64,
    },
    /// The device returned what was written.
    Confirmed,
    /// The confirming read failed or returned something else.
    Failed,
}

impl SmartShiftWriteStatus {
    /// What the reply to the confirming read of write `reply_to` makes of the
    /// status; no value stands for a read that failed or never came back.
    pub open spec fn settled(self, reply_to: u64, read: Option<SmartShiftStatus>)
        -> SmartShiftWriteStatus {
        match self {
            SmartShiftWriteStatus::Applying { expected, write_id } => if write_id != reply_to {
                self
            } else if read == Some(expected) {
                SmartShiftWriteStatus::Confirmed
            } else {
                SmartShiftWriteStatus::Failed
            },
            _ => self,
        }
    }

    /// Takes the reply to a confirming read.
    pub fn settle(self, reply_to: u64, read: Option<SmartShiftStatus>) -> (status:
        SmartShiftWriteStatus)
        ensures
            status == self.settled(reply_to, read),
    {
        match self {
            SmartShiftWriteStatus::Applying { expected, write_id } => {
                if write_id != reply_to {
                    return self;
                }
                match read {
                    Some(value) => if value == expected {
                        SmartShiftWriteStatus::Confirmed
                    } else {
                        SmartShiftWriteStatus::Failed
                    },
                    None => SmartShiftWriteStatus::Failed,
                }
            },
            _ => self,
        }
    }
}

/// No agent could be reached for a request.
#[derive(Clone, Copy, Debug, PartialEq, Eq, Structural)]
pub struct Unavailable;

/// The connection dropped while a request was in flight.
#[derive(Clone, Copy, Debug, PartialEq, Eq, Structural)]
pub struct LinkLost;

/// What running a request came to: the outcome to deliver, and whether the link
/// was lost. `call` is what the call over the client came to, or none when there
/// was no client.
pub fn run<A, E>(call: Option<Result<A, E>>) -> (ran: (Result<A, Unavailable>, Result<(), LinkLost>))
    ensures
        ran == match call {
            None => (Err::<A, Unavailable>(Unavailable), Ok::<(), LinkLost>(())),
            Some(Ok(answer)) => (Ok::<A, Unavailable>(answer), Ok::<(), LinkLost>(())),
            Some(Err(_)) => (Err::<A, Unavailable>(Unavailable), Err::<(), LinkLost>(LinkLost)),
        },
{
    match call {
        None => (Err(Unavailable), Ok(())),
        Some(Ok(answer)) => (Ok(answer), Ok(())),
        Some(Err(_)) => (Err(Unavailable), Err(LinkLost)),
    }
}

/// A device's answer, with an unreachable agent standing for a transient
/// failure: a panel keeps retrying instead of calling a feature unsupported.
pub open spec fn answered<T>(outcome: Result<Result<T, WriteError>, Unavailable>) -> Result<
    T,
    WriteError,
> {
    match outcome {
        Ok(answer) => answer,
        Err(_) => Err(WriteError::AgentUnavailable),
    }
}

/// A device's answer, or that the agent could not be reached.
pub fn or_unavailable<T>(outcome: Result<Result<T, WriteError>, Unavailable>) -> (answer: Result<
    T,
    WriteError,
>)
    ensures
        answer == answered(outcome),
{
    match outcome {
        Ok(answer) => answer,
        Err(_) => Err(WriteError::AgentUnavailable),
    }
}

/// What a fire-and-forget write logs: a refusal by the device, and nothing when
/// the agent was not even reached.
pub open spec fn refusal(outcome: Result<Result<(), WriteError>, Unavailable>) -> Option<
    WriteError,
> {
    match outcome {
        Ok(Err(error)) => Some(error),
        _ => None,
    }
}

/// What a fire-and-forget write logs.
pub fn log_rejection(outcome: Result<Result<(), WriteError>, Unavailable>) -> (logged: Option<
    WriteError,
>)
    ensures
        logged == refusal(outcome),
{
    match outcome {
        Ok(Err(error)) => Some(error),
        _ => None,
    }
}

/// What a pairing command reports: an accepted one shows in the observed state,
/// a refused or undelivered one never will.
pub open spec fn pairing_report(outcome: Result<Result<(), PairingCommandError>, Unavailable>)
    -> Option<GuiUpdate> {
    match outcome {
        Ok(Ok(_)) => None,
        Ok(Err(refused)) => Some(GuiUpdate::PairingUndeliverable(PairingFailure::Refused(refused))),
        Err(_) => Some(GuiUpdate::PairingUndeliverable(PairingFailure::AgentRestarted)),
    }
}

/// What a pairing command reports.
pub fn report_pairing_refusal(
    outcome: Result<Result<(), PairingCommandError>, Unavailable>,
) -> (report: Option<GuiUpdate>)
    ensures
        report == pairing_report(outcome),
{
    match outcome {
        Ok(Ok(_)) => None,
        Ok(Err(refused)) => Some(GuiUpdate::PairingUndeliverable(PairingFailure::Refused(refused))),
        Err(_) => Some(GuiUpdate::PairingUndeliverable(PairingFailure::AgentRestarted)),
    }
}

/// Apply a resolution to a device now.
#[derive(Debug, PartialEq, Eq)]
pub struct SetDpi {
    /// The device.
    pub route: DeviceRoute,
    /// The resolution.
    pub dpi: Dpi,
}

impl SetDpi {
    /// What to log.
    pub fn deliver(self, outcome: Result<Result<(), WriteError>, Unavailable>) -> (logged: Option<
        WriteError,
    >)
        ensures
            logged == refusal(outcome),
    {
        log_rejection(outcome)
    }
}

/// Apply a keyboard lighting now.
#[derive(Debug, PartialEq, Eq)]
pub struct SetLighting {
    /// The device.
    pub route: DeviceRoute,
    /// The lighting.
    pub lighting: Lighting,
}

impl SetLighting {
    /// What to log.
    pub fn deliver(self, outcome: Result<Result<(), WriteError>, Unavailable>) -> (logged: Option<
        WriteError,
    >)
        ensures
            logged == refusal(outcome),
    {
        log_rejection(outcome)
    }
}

/// Apply a SmartShift state now.
#[derive(Debug, PartialEq, Eq)]
pub struct SetSmartShift {
    /// The device.
    pub route: DeviceRoute,
    /// The state.
    pub status: SmartShiftStatus,
}

impl SetSmartShift {
    /// What to log.
    pub fn deliver(self, outcome: Result<Result<(), WriteError>, Unavailable>) -> (logged: Option<
        WriteError,
    >)
        ensures
            logged == refusal(outcome),
    {
        log_rejection(outcome)
    }
}

/// Apply a pointer speed now.
#[derive(Debug, PartialEq, Eq)]
pub struct SetPointerSpeed {
    /// The device.
    pub route: DeviceRoute,
    /// The speed.
    pub speed: PointerSpeed,
}

impl SetPointerSpeed {
    /// What to log.
    pub fn deliver(self, outcome: Result<Result<(), WriteError>, Unavailable>) -> (logged: Option<
        WriteError,
    >)
        ensures
            logged == refusal(outcome),
    {
        log_rejection(outcome)
    }
}

/// One write to a standalone light.
#[derive(Debug, PartialEq, Eq)]
pub struct SetLight {
    /// The device.
    pub route: DeviceRoute,
    /// The write.
    pub command: LightCommand,
    /// The light, as the edit that made the write names it.
    pub key: DeviceKey,
    /// Number of the write.
    pub request_id: u64,
}

impl SetLight {
    /// What to report. The key and the number say which edit it answers, so a
    /// slow failure cannot overwrite the status of a newer one.
    pub fn deliver(self, outcome: Result<Result<(), WriteError>, Unavailable>) -> (report:
        GuiUpdate)
        ensures
            report == (GuiUpdate::LightCommandResult {
                key: self.key,
                request_id: self.request_id,
                command: self.command,
                result: answered(outcome),
            }),
    {
        GuiUpdate::LightCommandResult {
            key: self.key,
            request_id: self.request_id,
            command: self.command,
            result: or_unavailable(outcome),
        }
    }
}

/// Switch a standalone light by hand.
#[derive(Debug, PartialEq, Eq)]
pub struct SetLightManualPower {
    /// The device.
    pub route: DeviceRoute,
    /// On or off.
    pub enabled: bool,
    /// The light, as the edit that made the write names it.
    pub key: DeviceKey,
    /// Number of the write.
    pub request_id: u64,
}

impl SetLightManualPower {
    /// What to report: the same as for a power write.
    pub fn deliver(self, outcome: Result<Result<(), WriteError>, Unavailable>) -> (report:
        GuiUpdate)
        ensures
            report == (GuiUpdate::LightCommandResult {
                key: self.key,
                request_id: self.request_id,
                command: LightCommand::Power(self.enabled),
                result: answered(outcome),
            }),
    {
        GuiUpdate::LightCommandResult {
            key: self.key,
            request_id: self.request_id,
            command: LightCommand::Power(self.enabled),
            result: or_unavailable(outcome),
        }
    }
}

/// What a read hands to whoever waits under its ticket.
#[derive(Debug, PartialEq, Eq)]
pub struct Reply<T> {
    /// Who waits.
    pub ticket: u64,
    /// What was read.
    pub result: Result<T, WriteError>,
}

/// Read the resolution of a device.
#[derive(Debug, PartialEq, Eq)]
pub struct ReadDpi {
    /// The device.
    pub route: DeviceRoute,
    /// Who waits.
    pub ticket: u64,
}

impl ReadDpi {
    /// What to answer: every read is answered.
    pub fn deliver<T>(self, outcome: Result<Result<T, WriteError>, Unavailable>) -> (reply: Reply<T>)
        ensures
            reply == (Reply { ticket: self.ticket, result: answered(outcome) }),
    {
        Reply { ticket: self.ticket, result: or_unavailable(outcome) }
    }
}

/// Read the SmartShift state of a device.
#[derive(Debug, PartialEq, Eq)]
pub struct ReadSmartShift {
    /// The device.
    pub route: DeviceRoute,
    /// Who waits.
    pub ticket: u64,
}

impl ReadSmartShift {
    /// What to answer.
    pub fn deliver(
        self,
        outcome: Result<Result<SmartShiftStatus, WriteError>, Unavailable>,
    ) -> (reply: Reply<SmartShiftStatus>)
        ensures
            reply == (Reply { ticket: self.ticket, result: answered(outcome) }),
    {
        Reply { ticket: self.ticket, result: or_unavailable(outcome) }
    }
}

/// Read the pointer speed of a device.
#[derive(Debug, PartialEq, Eq)]
pub struct ReadPointerSpeed {
    /// The device.
    pub route: DeviceRoute,
    /// Who waits.
    pub ticket: u64,
}

impl ReadPointerSpeed {
    /// What to answer.
    pub fn deliver(
        self,
        outcome: Result<Result<PointerSpeed, WriteError>, Unavailable>,
    ) -> (reply: Reply<PointerSpeed>)
        ensures
            reply == (Reply { ticket: self.ticket, result: answered(outcome) }),
    {
        Reply { ticket: self.ticket, result: or_unavailable(outcome) }
    }
}

/// Have the agent read the configuration again.
#[derive(Clone, Copy, Debug, PartialEq, Eq, Structural)]
pub struct ReloadConfig;

impl ReloadConfig {
    /// What to report: only the agent's own verdict. A reload that did not
    /// happen is not one the agent refused.
    pub fn deliver(
        self,
        outcome: Result<Result<(), ConfigReloadError>, Unavailable>,
    ) -> (report: Option<GuiUpdate>)
        ensures
            report == match outcome {
                Ok(verdict) => Some(GuiUpdate::ConfigReloadResult(verdict)),
                Err(_) => None,
            },
    {
        match outcome {
            Ok(verdict) => Some(GuiUpdate::ConfigReloadResult(verdict)),
            Err(_) => None,
        }
    }
}

/// Have the agent ask the system for permission to filter events. It reports
/// nothing: the snapshot shows the permission either way.
#[derive(Clone, Copy, Debug, PartialEq, Eq, Structural)]
pub struct RequestAccessibilityPrompt;

/// Begin pairing on a receiver.
#[derive(Debug, PartialEq, Eq)]
pub struct StartPairing {
    /// The receiver.
    pub selector: ReceiverSelector,
}

impl StartPairing {
    /// What to report.
    pub fn deliver(
        self,
        outcome: Result<Result<(), PairingCommandError>, Unavailable>,
    ) -> (report: Option<GuiUpdate>)
        ensures
            report == pairing_report(outcome),
    {
        report_pairing_refusal(outcome)
    }
}

/// Pair a discovered device.
#[derive(Clone, Copy, Debug, PartialEq, Eq)]
pub struct PairDevice {
    /// Its address.
    pub address: [u8; 6],
}

impl PairDevice {
    /// What to report.
    pub fn deliver(
        self,
        outcome: Result<Result<(), PairingCommandError>, Unavailable>,
    ) -> (report: Option<GuiUpdate>)
        ensures
            report == pairing_report(outcome),
    {
        report_pairing_refusal(outcome)
    }
}

/// End pairing.
#[derive(Clone, Copy, Debug, PartialEq, Eq, Structural)]
pub struct CancelPairing;

impl CancelPairing {
    /// What to report: only a refusal. Without an agent there is no session left
    /// to wait on.
    pub fn deliver(
        self,
        outcome: Result<Result<(), PairingCommandError>, Unavailable>,
    ) -> (report: Option<GuiUpdate>)
        ensures
            report == match outcome {
                Err(_) => None,
                Ok(_) => pairing_report(outcome),
            },
    {
        match outcome {
            Ok(Err(refused)) => Some(
                GuiUpdate::PairingUndeliverable(PairingFailure::Refused(refused)),
            ),
            _ => None,
        }
    }
}

/// Drain the agent's buffer of watched events.
#[derive(Clone, Copy, Debug, PartialEq, Eq, Structural)]
pub struct PollEventMonitor {
    /// Who waits.
    pub ticket: u64,
}

impl PollEventMonitor {
    /// What to answer: an unreachable agent has nothing to drain.
    pub fn deliver<T>(self, outcome: Result<Vec<T>, Unavailable>) -> (reply: (u64, Vec<T>))
        ensures
            reply.0 == self.ticket,
            reply.1@ == match outcome {
                Ok(events) => events@,
                Err(_) => Seq::<T>::empty(),
            },
    {
        match outcome {
            Ok(events) => (self.ticket, events),
            Err(_) => (self.ticket, Vec::new()),
        }
    }
}

/// A request from the window to the client thread.
#[derive(Debug, PartialEq, Eq)]
pub enum Command {
    /// Apply a resolution.
    SetDpi(SetDpi),
    /// Apply a keyboard lighting.
    SetLighting(SetLighting),
    /// Write to a standalone light.
    SetLight(SetLight),
    /// Switch a standalone light by hand.
    SetLightManualPower(SetLightManualPower),
    /// Apply a SmartShift state.
    SetSmartShift(SetSmartShift),
    /// Read a resolution.
    ReadDpi(ReadDpi),
    /// Read a SmartShift state.
    ReadSmartShift(ReadSmartShift),
    /// Apply a pointer speed.
    SetPointerSpeed(SetPointerSpeed),
    /// Read a pointer speed.
    ReadPointerSpeed(ReadPointerSpeed),
    /// Have the configuration read again.
    ReloadConfig(ReloadConfig),
    /// Ask for permission.
    RequestAccessibilityPrompt(RequestAccessibilityPrompt),
    /// Begin pairing.
    StartPairing(StartPairing),
    /// Pair a device.
    PairDevice(PairDevice),
    /// End pairing.
    CancelPairing(CancelPairing),
    /// Drain watched events.
    PollEventMonitor(PollEventMonitor),
}

} // verus!
