//! The window's link to the agent: the requests it carries and the loop around it.

use std::collections::VecDeque;

use openlogi::config::links::Dpi;
use openlogi::desktop::events::DeviceKey;
use openlogi::desktop::link::{Commanded, LoopEffect, LoopEvent, LoopStage, ObserveLoop, Observed};
use openlogi::desktop::requests::{
    log_rejection, or_unavailable, run, AgentLink, AgentStatus, CancelPairing, ConfigReloadError,
    ForegroundApps, GuiUpdate, InventoryHealth, LightCommand, LinkLost, PairDevice,
    PairingCommandError, PairingFailure, PollEventMonitor, ReadDpi, ReceiverSelector, ReloadConfig,
    SetDpi, SetLight, SetLightManualPower, SmartShiftStatus, SmartShiftWriteStatus, StartPairing,
    Unavailable,
};
use openlogi::desktop::requests::AgentSnapshot;
use openlogi::device::pointer_speed::WriteError;
use openlogi::ipc::{Observation, Observer};
use openlogi::route::DeviceRoute;

#[test]
fn a_pairing_command_the_agent_never_received_fails_the_window_out_of_waiting() {
    assert!(matches!(
        StartPairing { selector: ReceiverSelector::First }.deliver(Err(Unavailable)),
        Some(GuiUpdate::PairingUndeliverable(PairingFailure::AgentRestarted))
    ));
}

#[test]
fn an_accepted_pairing_command_reports_nothing() {
    assert!(PairDevice { address: [0; 6] }.deliver(Ok(Ok(()))).is_none());
}

#[test]
fn a_cancel_that_found_no_agent_reports_nothing() {
    assert!(CancelPairing.deliver(Err(Unavailable)).is_none());
}

#[test]
fn a_reload_that_never_reached_the_agent_is_not_a_verdict() {
    assert!(ReloadConfig.deliver(Err(Unavailable)).is_none());
}

#[test]
fn a_reload_the_agent_answered_is_a_verdict() {
    assert!(matches!(
        ReloadConfig.deliver(Ok(Ok(()))),
        Some(GuiUpdate::ConfigReloadResult(Ok(())))
    ));
    let Some(GuiUpdate::ConfigReloadResult(Err(error))) =
        ReloadConfig.deliver(Ok(Err(ConfigReloadError { message: "no".into() })))
    else {
        panic!("a refusal is a verdict too");
    };
    assert_eq!(error.message, "no");
}

#[test]
fn a_refused_pairing_command_says_why() {
    assert!(matches!(
        StartPairing { selector: ReceiverSelector::First }
            .deliver(Ok(Err(PairingCommandError::AlreadyRunning))),
        Some(GuiUpdate::PairingUndeliverable(PairingFailure::Refused(
            PairingCommandError::AlreadyRunning
        )))
    ));
}

#[test]
fn a_light_command_reports_its_result_to_the_light() {
    let light = SetLight {
        route: some_route(),
        command: LightCommand::Power(true),
        key: DeviceKey::new("light"),
        request_id: 7,
    };
    let GuiUpdate::LightCommandResult { key, request_id, result, .. } =
        light.deliver(Err(Unavailable))
    else {
        panic!("a light command always reports");
    };
    assert_eq!(key, DeviceKey::new("light"));
    assert_eq!(request_id, 7);
    assert!(matches!(result, Err(WriteError::AgentUnavailable)));

    let power = SetLightManualPower {
        route: some_route(),
        enabled: false,
        key: DeviceKey::new("light"),
        request_id: 8,
    };
    assert!(matches!(
        power.deliver(Ok(Ok(()))),
        GuiUpdate::LightCommandResult { request_id: 8, result: Ok(()), .. }
    ));
}

#[test]
fn a_lost_call_costs_the_link_and_a_missing_one_does_not() {
    let (outcome, link) = run::<u8, u8>(None);
    assert!(outcome.is_err());
    assert!(link.is_ok());
    let (outcome, link) = run::<u8, u8>(Some(Err(1)));
    assert!(outcome.is_err());
    assert!(matches!(link, Err(LinkLost)));
    let (outcome, link) = run::<u8, u8>(Some(Ok(5)));
    assert!(matches!(outcome, Ok(5)));
    assert!(link.is_ok());
    assert!(matches!(
        or_unavailable::<u8>(Err(Unavailable)),
        Err(WriteError::AgentUnavailable)
    ));
    assert!(log_rejection(Ok(Ok(()))).is_none());
    assert!(matches!(
        log_rejection(Ok(Err(WriteError::AmbiguousRawDevice))),
        Some(WriteError::AmbiguousRawDevice)
    ));
    let set = SetDpi { route: some_route(), dpi: Dpi { value: 800 } };
    assert!(set.deliver(Ok(Ok(()))).is_none());
    let (ticket, events) = PollEventMonitor { ticket: 3 }.deliver::<u8>(Err(Unavailable));
    assert_eq!((ticket, events.len()), (3, 0));
}

#[test]
fn a_wheel_mode_is_confirmed_by_the_reply_to_its_own_write() {
    let wanted = SmartShiftStatus { ratchet: true, auto_disengage: 10, tunable_torque: 50 };
    let other = SmartShiftStatus { ratchet: false, ..wanted };
    let applying = || SmartShiftWriteStatus::Applying { expected: wanted, write_id: 4 };
    assert!(matches!(applying().settle(4, Some(wanted)), SmartShiftWriteStatus::Confirmed));
    assert!(matches!(applying().settle(4, Some(other)), SmartShiftWriteStatus::Failed));
    assert!(matches!(
        applying().settle(3, Some(wanted)),
        SmartShiftWriteStatus::Applying { write_id: 4, .. }
    ));
}

fn some_route() -> DeviceRoute {
    DeviceRoute::Bolt { receiver_uid: "test-receiver".to_owned(), slot: 1 }
}

/// What one attempt to connect finds: an agent that answers requests or one that
/// vanishes with the first reload, or nothing.
#[derive(Clone, Copy, PartialEq, Eq)]
enum Found {
    Down,
    Answering,
    Vanishing,
}

/// The loop with scripted effects.
struct Scripted {
    turn: ObserveLoop,
    attempts: VecDeque<Found>,
    agent: Found,
    reloads: Vec<Found>,
    verdicts: usize,
    launches: usize,
    launched: bool,
}

impl Scripted {
    fn answering(attempts: Vec<Found>) -> Self {
        Scripted {
            turn: ObserveLoop::new(),
            attempts: attempts.into(),
            agent: Found::Down,
            reloads: Vec::new(),
            verdicts: 0,
            launches: 0,
            launched: false,
        }
    }

    fn ensure(&mut self) -> bool {
        if !self.turn.up {
            self.agent = self.attempts.pop_front().unwrap_or(Found::Down);
        }
        self.agent != Found::Down
    }

    /// Takes an event and runs the turn it starts to its end; `command` answers a
    /// command that is run, saying whether the connection was kept.
    fn turn(&mut self, event: LoopEvent, command: &mut dyn FnMut(bool) -> bool) {
        self.turn.step(event);
        loop {
            let answer = match self.turn.stage {
                LoopStage::Wait | LoopStage::Ended => return,
                LoopStage::EnsureForCommand | LoopStage::EnsureForTick => {
                    LoopEvent::Ensured(self.ensure())
                }
                LoopStage::RunCommand => LoopEvent::Ran(command(self.turn.up)),
                LoopStage::RunReload => {
                    self.reloads.push(self.agent);
                    let kept = self.agent == Found::Answering;
                    self.verdicts += usize::from(kept);
                    LoopEvent::Ran(kept)
                }
                LoopStage::CheckNotice => LoopEvent::Answer(false),
                LoopStage::CheckSpawn => LoopEvent::Answer(!self.turn.up && !self.launched),
            };
            if self.turn.step(answer) == LoopEffect::SpawnAgent {
                self.launches += 1;
                self.launched = true;
            }
        }
    }

    fn tick(&mut self) {
        self.turn(LoopEvent::Tick, &mut |_| true);
    }
}

#[test]
fn a_reload_requested_before_the_agent_is_up_waits_for_it() {
    let mut link = Scripted::answering(vec![Found::Down, Found::Down, Found::Answering]);
    link.turn(LoopEvent::Command(Commanded::Reload), &mut |_| true);
    assert!(link.turn.reload_owed);
    for _ in 0..3 {
        link.tick();
    }

    assert_eq!(link.verdicts, 1, "the agent's own verdict is what reaches the GUI");
    assert_eq!(link.reloads.len(), 1, "delivered exactly once");
    assert_eq!(link.launches, 1, "holding the reload does not stall the spawn reflex");
    assert!(!link.turn.reload_owed);
}

#[test]
fn a_reload_the_agent_took_down_with_it_reaches_its_successor() {
    let mut link = Scripted::answering(vec![Found::Vanishing, Found::Answering]);
    link.turn(LoopEvent::Command(Commanded::Reload), &mut |_| true);
    link.tick();
    assert_eq!(link.verdicts, 0, "the lost attempt is never reported as a verdict");
    link.tick();

    assert_eq!(link.verdicts, 1);
    assert!(link.reloads == [Found::Vanishing, Found::Answering]);
}

#[test]
fn a_read_while_the_agent_is_down_is_answered_unavailable() {
    let mut link = Scripted::answering(vec![]);
    let mut answer = None;
    link.turn(LoopEvent::Command(Commanded::Other), &mut |up| {
        assert!(!up);
        let (outcome, kept) = run::<Result<Dpi, WriteError>, ()>(None);
        answer = Some(ReadDpi { route: some_route(), ticket: 1 }.deliver(outcome));
        kept.is_ok()
    });

    let answer = answer.expect("every read is answered");
    assert_eq!(answer.ticket, 1);
    assert!(matches!(answer.result, Err(WriteError::AgentUnavailable)));
}

#[test]
fn a_command_brings_the_link_up_and_carries_the_agents_answer() {
    let mut link = Scripted::answering(vec![Found::Answering]);
    let mut answer = None;
    link.turn(LoopEvent::Command(Commanded::Other), &mut |up| {
        assert!(up);
        let reply: Result<Dpi, WriteError> = Err(WriteError::AmbiguousRawDevice);
        let (outcome, kept) = run::<Result<Dpi, WriteError>, ()>(Some(Ok(reply)));
        answer = Some(ReadDpi { route: some_route(), ticket: 1 }.deliver(outcome));
        kept.is_ok()
    });

    let answer = answer.expect("every read is answered");
    assert!(matches!(answer.result, Err(WriteError::AmbiguousRawDevice)));
    assert_eq!(link.launches, 0, "a reachable agent is never spawned at");
}

fn snapshot(camera_active: bool) -> AgentSnapshot {
    AgentSnapshot {
        status: AgentStatus {
            accessibility_granted: true,
            hook_installed: true,
            launch_at_login: false,
            inventory: InventoryHealth::Ready,
            protocol_version: openlogi::ipc::PROTOCOL_VERSION,
            agent_version: "observe-loop-test".to_owned(),
            input_monitoring_granted: true,
            hid_open_failures: false,
        },
        camera_active,
        foreground: ForegroundApps { current: None, recent: Vec::new() },
    }
}

#[test]
fn a_newer_snapshot_reaches_the_window_and_a_heartbeat_does_not() {
    let mut link = Scripted::answering(vec![Found::Answering]);
    link.tick();
    let mut observer = Observer::state();
    let mut seen = Vec::new();
    for (generation, camera) in [(1, false), (1, false), (2, true)] {
        let answered: Result<_, ()> = Ok(Observation { generation, snapshot: snapshot(camera) });
        let fresh = observer.next(answered).expect("the connection holds");
        let event = if fresh.is_some() { Observed::Fresh } else { Observed::Stale };
        let effect = link.turn.clone().step(LoopEvent::Observed(event));
        if effect == LoopEffect::ForwardSnapshot {
            seen.push(fresh.expect("what is forwarded is new").snapshot);
        }
        link.turn(LoopEvent::Observed(event), &mut |_| true);
    }

    assert_eq!(seen, [snapshot(false), snapshot(true)]);
}

#[test]
fn the_window_hanging_up_ends_the_loop() {
    let mut link = Scripted::answering(vec![]);
    link.turn(LoopEvent::Command(Commanded::HungUp), &mut |_| true);
    assert_eq!(link.turn.stage, LoopStage::Ended);
    link.tick();
    assert_eq!(link.turn.stage, LoopStage::Ended);
}

#[test]
fn the_link_shows_what_the_client_last_heard() {
    let link = AgentLink::Connecting.after(GuiUpdate::Unreachable);
    assert!(matches!(link, AgentLink::Unreachable));
    let link = link.after(GuiUpdate::Snapshot(snapshot(false)));
    assert!(matches!(link, AgentLink::Ready(_)));
    let link = link.after(GuiUpdate::OutdatedGui);
    assert!(matches!(link, AgentLink::OutdatedGui));
    let link = link.after(GuiUpdate::ConfigReloadResult(Ok(())));
    assert!(matches!(link, AgentLink::OutdatedGui));
}
