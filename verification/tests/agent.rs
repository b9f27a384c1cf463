//! The agent: which device is current, the presenter runtime and the button worker.

use std::collections::VecDeque;

use openlogi::agent::button::{
    ActivePress, ButtonCommand, ButtonInput, ButtonRuntimeEvent, CancelReason, EndReason,
    PressBehavior, PressKey, PressSource, PressToken,
};
use openlogi::agent::devices::{
    battery_needs_alert, build_devices, pick_current, presenter_low_battery_alerts, AgentDevice,
    BatteryInfo, BatteryLevel, BatteryStatus, DeviceInventory, PairedDevice, ScrollPreferences,
    StandaloneDevice,
};
use openlogi::agent::presenter::{
    cycle_locked, CycleDirection, PresenterManager, PresenterObservation, TimerTask, TimerTick,
};
use openlogi::agent::worker::{Answer, Ask, Worker};
use openlogi::binding::{Action, ButtonId};
use openlogi::config::identity::{
    Capabilities, DeviceIdentity, DeviceKind, DeviceModelInfo, DeviceTransports,
};
use openlogi::config::links::{DeviceStableId, Dpi, LinkAddress, LinkConfig, UnitIdentity};
use openlogi::config::scroll::{ThumbwheelSensitivity, VerticalScrollSensitivity};
use openlogi::config::settings::AppSettings;
use openlogi::config::Config;
use openlogi::presenter::{PresenterEffect, PresenterSettings, PresenterTimerMode};
use openlogi::route::DeviceRoute;

fn bolt(slot: u8) -> DeviceRoute {
    DeviceRoute::Bolt { receiver_uid: "AA00".to_string(), slot }
}

fn dev(key: &str, slot: u8, online: bool) -> AgentDevice {
    AgentDevice {
        config_key: key.to_string(),
        route: Some(bolt(slot)),
        presenter: false,
        online,
        low_battery: false,
    }
}

fn raw_light_dev(key: &str) -> AgentDevice {
    AgentDevice {
        config_key: key.to_string(),
        route: Some(DeviceRoute::RawHid {
            vendor_id: 0x046d,
            product_id: 0xc900,
            usage_page: 0xff43,
            usage_id: 0x0202,
            identity: "serial:glow-1".to_string(),
        }),
        presenter: false,
        online: true,
        low_battery: false,
    }
}

#[test]
fn standalone_selection_never_replaces_the_hidpp_capture_target() {
    let devices = vec![raw_light_dev("light"), dev("mouse", 1, true)];

    assert_eq!(pick_current(&devices, Some("light")), 1);
    assert_eq!(pick_current(&devices, None), 1);
}

#[test]
fn runtime_selection_falls_back_from_saved_offline_device_to_online_device() {
    let devices = vec![dev("saved", 1, false), dev("online", 2, true)];

    assert_eq!(pick_current(&devices, Some("saved")), 1);
}

#[test]
fn runtime_selection_keeps_saved_device_when_it_is_online() {
    let devices = vec![dev("other", 1, true), dev("saved", 2, true)];

    assert_eq!(pick_current(&devices, Some("saved")), 1);
}

#[test]
fn runtime_selection_keeps_saved_device_when_all_devices_are_offline() {
    let devices = vec![dev("other", 1, false), dev("saved", 2, false)];

    assert_eq!(pick_current(&devices, Some("saved")), 1);
}

#[test]
fn runtime_selection_tracks_online_transition_without_device_set_change() {
    let saved_key = "unit:01000000";
    let other_key = "unit:02000000";

    let config = Config::default();
    let current_key = |inventories: Vec<DeviceInventory>| {
        let devices = build_devices(&config, &inventories, &Vec::new());
        devices[pick_current(&devices, Some(saved_key))].config_key.clone()
    };
    assert_eq!(
        current_key(vec![
            direct_inventory_state(0xb023, None, [1, 0, 0, 0], true),
            direct_inventory_state(0xb034, None, [2, 0, 0, 0], false),
        ]),
        saved_key
    );
    assert_eq!(
        current_key(vec![
            direct_inventory_state(0xb023, None, [1, 0, 0, 0], false),
            direct_inventory_state(0xb034, None, [2, 0, 0, 0], true),
        ]),
        other_key
    );
}

fn paired(slot: u8, serial_number: Option<&str>, unit_id: [u8; 4], online: bool) -> PairedDevice {
    PairedDevice {
        slot,
        online,
        battery: None,
        identity: UnitIdentity { serial_number: serial_number.map(str::to_string), unit_id },
        presenter_controls: false,
    }
}

fn direct_inventory_state(
    product_id: u16,
    serial_number: Option<&str>,
    unit_id: [u8; 4],
    online: bool,
) -> DeviceInventory {
    DeviceInventory {
        vendor_id: 0x046d,
        product_id,
        receiver_uid: None,
        paired: vec![paired(0xff, serial_number, unit_id, online)],
    }
}

fn direct_inventory(serial_number: Option<&str>, unit_id: [u8; 4]) -> DeviceInventory {
    direct_inventory_state(0xb023, serial_number, unit_id, true)
}

fn bolt_inventory(unit_id: [u8; 4]) -> DeviceInventory {
    DeviceInventory {
        vendor_id: 0x046d,
        product_id: 0xc548,
        receiver_uid: Some("82839805".to_string()),
        paired: vec![paired(1, None, unit_id, true)],
    }
}

#[test]
fn build_devices_still_finds_settings_left_under_a_pre_upgrade_receiver_key() {
    let mut config = Config::default();
    config.set_dpi("receiver:82839805:slot:1", Dpi { value: 3200 });

    let inventories = vec![bolt_inventory([0x6b, 0xe9, 0xd3, 0x00])];
    let devices = build_devices(&config, &inventories, &Vec::new());
    let device = devices.first().expect("one paired device");
    assert_eq!(device.config_key, "receiver:82839805:slot:1");
    let route_key = LinkAddress::Receiver { uid: "82839805".to_string(), slot: 1 }.route_key();
    assert_eq!(
        config
            .device(device.config_key.as_str())
            .map(|entry| entry.effective_dpi(&route_key)),
        Some(Some(Dpi { value: 3200 })),
        "the DPI the agent re-applies on reconnect is still reachable"
    );

    let fresh = build_devices(&Config::default(), &inventories, &Vec::new());
    assert_eq!(fresh[0].config_key, "unit:6be9d300");
}

#[test]
fn build_devices_skips_transient_zero_unit_direct_identity() {
    assert!(build_devices(&Config::default(), &vec![direct_inventory(None, [0; 4])], &Vec::new())
        .is_empty());

    let devices = build_devices(
        &Config::default(),
        &vec![direct_inventory(Some("ABC123"), [0; 4])],
        &Vec::new(),
    );
    assert_eq!(devices.len(), 1);
    assert_eq!(devices[0].config_key, "serial:abc123");
}

#[test]
fn build_devices_keeps_serial_backed_standalone_lights_beside_hidpp_devices() {
    let standalone = StandaloneDevice {
        vendor_id: 0x046d,
        product_id: 0xc900,
        usage_page: 0xff43,
        usage_id: 0x0202,
        address: "serial:glow-1".to_string(),
        identity: UnitIdentity { serial_number: Some("Glow-1".to_string()), unit_id: [0; 4] },
        online: true,
    };

    let devices = build_devices(
        &Config::default(),
        &vec![direct_inventory(Some("ABC123"), [0; 4])],
        &vec![standalone],
    );

    assert_eq!(devices.len(), 2);
    let light = &devices[1];
    assert_eq!(light.config_key, "serial:glow-1");
    assert!(matches!(light.route, Some(DeviceRoute::RawHid { .. })));
}

#[test]
fn the_agent_reads_settings_under_the_device_key() {
    let mut config = Config::default();
    config.set_link("unit:6be9d300", "direct:046d:c08d", LinkConfig::default());
    config.set_dpi("unit:6be9d300", Dpi { value: 1600 });

    let direct_stable_id = DeviceStableId {
        identity: UnitIdentity { serial_number: None, unit_id: [0; 4] },
        address: LinkAddress::Direct { vendor_id: 0x046d, product_id: 0xc08d },
    };
    let key = config
        .resolve_device_key(&direct_stable_id)
        .expect("resolves through the indexed route");
    assert_eq!(config.device(key.as_str()).expect("stored").dpi, Some(Dpi { value: 1600 }));
}

#[test]
fn a_link_may_set_its_own_resolution() {
    let mut config = Config::default();
    config.set_dpi("unit:1", Dpi { value: 1600 });
    config.set_link("unit:1", "direct:046d:c08d", LinkConfig { dpi: Some(Dpi { value: 800 }) });
    let device = config.device("unit:1").expect("stored");
    assert_eq!(device.effective_dpi("direct:046d:c08d"), Some(Dpi { value: 800 }));
    assert_eq!(device.effective_dpi("receiver:1:slot:1"), Some(Dpi { value: 1600 }));
}

#[test]
fn without_a_capturable_device_the_first_place_is_answered() {
    assert_eq!(pick_current(&vec![raw_light_dev("light")], Some("light")), 0);
    assert_eq!(pick_current(&Vec::new(), None), 0);
}

#[test]
fn battery_alert_requires_a_low_discharging_reading() {
    let reading = |level, status| BatteryInfo { percentage: 10, level, status };

    assert!(battery_needs_alert(&reading(BatteryLevel::Low, BatteryStatus::Discharging)));
    assert!(battery_needs_alert(&reading(BatteryLevel::Critical, BatteryStatus::Discharging)));
    assert!(!battery_needs_alert(&reading(BatteryLevel::Low, BatteryStatus::Charging)));
    assert!(!battery_needs_alert(&reading(BatteryLevel::Good, BatteryStatus::Discharging)));
}

#[test]
fn low_battery_alert_targets_only_presenters() {
    let mut presenter = dev("spotlight", 1, true);
    presenter.presenter = true;
    presenter.low_battery = true;
    let mut mouse = dev("mouse", 2, true);
    mouse.low_battery = true;
    let devices = vec![presenter, mouse];

    let alerts = presenter_low_battery_alerts(&devices);
    assert_eq!(alerts.len(), 1);
    assert_eq!(devices[alerts[0]].config_key, "spotlight");
}

#[test]
fn config_reload_publishes_scroll_preferences_without_restarting_the_hook() {
    let mut preferences = ScrollPreferences::default();
    assert!(!preferences.smooth_scroll);
    assert_eq!(preferences.vertical_sensitivity, VerticalScrollSensitivity::default());

    let mut settings = AppSettings::default();
    settings.smooth_scroll = true;
    settings.vertical_scroll_sensitivity =
        VerticalScrollSensitivity::try_new(7).expect("valid sensitivity");
    preferences.reload(&settings);

    assert!(preferences.smooth_scroll);
    assert_eq!(
        preferences.vertical_sensitivity,
        VerticalScrollSensitivity::try_new(7).expect("valid sensitivity")
    );
}

#[test]
fn a_sensitivity_outside_its_range_is_refused_or_moved_to_the_nearest() {
    assert_eq!(VerticalScrollSensitivity::try_new(0), None);
    assert_eq!(VerticalScrollSensitivity::try_new(11), None);
    assert_eq!(VerticalScrollSensitivity::nearest(-5).level, 1);
    assert_eq!(VerticalScrollSensitivity::nearest(400).level, 10);
    assert_eq!(ThumbwheelSensitivity::try_new(101), None);
    assert_eq!(ThumbwheelSensitivity::nearest(50).level, 50);
    assert_eq!(ThumbwheelSensitivity::nearest(1000).level, 100);
}

#[test]
fn persisted_identity_strips_per_unit_identifiers() {
    let mut config = Config::default();
    config.set_device_identity(
        "receiver:test:slot:1",
        DeviceIdentity {
            display_name: "Mouse".into(),
            model_info: Some(DeviceModelInfo {
                entity_count: 1,
                serial_number: Some("private-serial".into()),
                unit_id: [1, 2, 3, 4],
                transports: DeviceTransports {
                    usb: false,
                    equad: false,
                    btle: false,
                    bluetooth: false,
                },
                model_ids: [0xb034, 0, 0],
                extended_model_id: 2,
            }),
            codename: None,
            kind: DeviceKind::Mouse,
            capabilities: Capabilities {
                buttons: false,
                pointer: false,
                lighting: false,
                scroll_inversion: false,
                hires_wheel: false,
                thumbwheel: false,
                haptic_feedback: false,
                haptic_panel: false,
                presenter_controls: false,
                dpi_gestures: false,
            },
            driver_id: None,
            registry_model_id: None,
        },
    );
    let identity = config.device_identity("receiver:test:slot:1").expect("identity");
    assert_eq!(identity.display_name, "Mouse");
    let model = identity.model_info.as_ref().expect("model info");
    assert_eq!(model.serial_number, None);
    assert_eq!(model.unit_id, [0; 4]);
    assert_eq!(model.model_ids, [0xb034, 0, 0]);
    assert!(config.device_identity("absent").is_none());
}

fn active(manager: &PresenterManager) -> Option<PresenterEffect> {
    manager.snapshot(0).overlay.map(|overlay| overlay.effect)
}

#[test]
fn press_is_momentary_by_default() {
    let mut manager = PresenterManager::default();
    manager.pointer_pressed();
    assert_eq!(active(&manager), Some(PresenterEffect::Highlight));
    assert!(manager.pointer_is_held());
    manager.pointer_released(Some((10, 20)));
    assert_eq!(active(&manager), None);
    assert!(!manager.pointer_is_held());
    assert_eq!(manager.should_recenter(), PresenterSettings::default().recenter_pointer);
}

#[test]
fn freeze_is_explicit() {
    let mut manager = PresenterManager::default();
    let settings = PresenterSettings { freeze_effect: true, ..PresenterSettings::default() };
    manager.set_configured_settings(settings);
    manager.pointer_pressed();
    manager.pointer_released(Some((10, 20)));
    let overlay = manager.snapshot(0).overlay;
    assert_eq!(overlay.map(|value| value.frozen_position), Some(Some((10, 20))));
}

#[test]
fn pressing_pointer_again_dismisses_a_frozen_effect() {
    let mut manager = PresenterManager::default();
    manager.set_configured_settings(PresenterSettings {
        freeze_effect: true,
        ..PresenterSettings::default()
    });
    manager.pointer_pressed();
    manager.pointer_released(Some((10, 20)));
    assert!(active(&manager).is_some());

    manager.pointer_pressed();
    manager.pointer_released(Some((10, 20)));
    assert_eq!(active(&manager), None);
}

#[test]
fn firmware_double_click_task_advances_after_the_first_release() {
    let mut manager = PresenterManager::default();
    manager.pointer_pressed();
    manager.pointer_released(None);
    manager.cycle_forward();

    assert_eq!(active(&manager), None);
    manager.pointer_pressed();
    assert_eq!(active(&manager), Some(PresenterEffect::Magnify));
}

#[test]
fn cycled_effect_survives_the_next_config_refresh_and_press() {
    let mut manager = PresenterManager::default();
    let mut settings = PresenterSettings::default();
    manager.set_configured_settings(settings);
    manager.cycle_forward();
    assert_eq!(active(&manager), None);

    settings.magnifier_radius += 1;
    manager.set_configured_settings(settings);
    manager.pointer_pressed();

    assert_eq!(active(&manager), Some(PresenterEffect::Magnify));
}

#[test]
fn explicit_default_effect_change_replaces_the_runtime_selection() {
    let mut manager = PresenterManager::default();
    manager.cycle_forward();
    manager.set_configured_settings(PresenterSettings {
        effect: PresenterEffect::DigitalLaser,
        ..PresenterSettings::default()
    });
    manager.pointer_pressed();

    assert_eq!(active(&manager), Some(PresenterEffect::DigitalLaser));
}

#[test]
fn backward_cycle_skips_disabled_effects() {
    let mut manager = PresenterManager::default();
    let state = &mut manager.state;
    state.configured.enabled_effects =
        PresenterEffect::Highlight.bit() | PresenterEffect::DigitalLaser.bit();
    state.effect = Some(PresenterEffect::Highlight);
    cycle_locked(state, CycleDirection::Backward);
    assert_eq!(state.effect, Some(PresenterEffect::DigitalLaser));
}

#[test]
fn cycling_back_undoes_cycling_forward_between_two_effects() {
    let mut manager = PresenterManager::default();
    let state = &mut manager.state;
    state.configured.enabled_effects =
        PresenterEffect::Highlight.bit() | PresenterEffect::DigitalLaser.bit();
    state.effect = Some(PresenterEffect::Highlight);
    cycle_locked(state, CycleDirection::Forward);
    assert_eq!(state.effect, Some(PresenterEffect::DigitalLaser));
    cycle_locked(state, CycleDirection::Backward);
    assert_eq!(state.effect, Some(PresenterEffect::Highlight));
}

#[test]
fn low_battery_alert_honors_toggle_and_intensity() {
    let manager = PresenterManager::default();
    let route = || DeviceRoute::Direct { vendor_id: 0x046d, product_id: 0xb503 };

    let silent = manager.alert_low_battery(
        route(),
        PresenterSettings { low_battery_alert: false, ..PresenterSettings::default() },
    );
    assert!(silent.is_none(), "disabled low-battery alert must stay silent");

    let Some(request) = manager.alert_low_battery(
        route(),
        PresenterSettings {
            low_battery_alert: true,
            vibration_intensity: 73,
            ..PresenterSettings::default()
        },
    ) else {
        panic!("enabled low-battery alert must vibrate");
    };
    assert_eq!(request.route, route());
    assert_eq!(request.intensity, 73);
}

#[test]
fn a_countdown_warns_once_and_vibrates_at_its_end() {
    let mut manager = PresenterManager::default();
    manager.set_active_route(bolt(1));
    manager.set_configured_settings(PresenterSettings {
        timer_mode: PresenterTimerMode::Countdown,
        timer_seconds: 600,
        haptic_alerts: true,
        vibration_intensity: 40,
        ..PresenterSettings::default()
    });
    assert_eq!(manager.start_configured_timer(1_000), TimerTask::Countdown { seconds: 600 });
    assert_eq!(manager.remaining(1_000), Some(600_000));

    let TimerTick::Sleep { haptic, warning_sent, .. } = manager.timer_tick(1_000, 600, false)
    else {
        panic!("a fresh countdown runs");
    };
    assert!(haptic.is_none());
    assert!(!warning_sent);

    let TimerTick::Sleep { haptic, warning_sent, .. } = manager.timer_tick(301_000, 600, false)
    else {
        panic!("half of the time is left");
    };
    assert_eq!(haptic.map(|request| request.intensity), Some(40));
    assert!(warning_sent);

    let TimerTick::Sleep { haptic, .. } = manager.timer_tick(302_000, 600, true) else {
        panic!("the countdown still runs");
    };
    assert!(haptic.is_none(), "the warning is given once");

    let TimerTick::Expired { haptic } = manager.timer_tick(601_000, 600, true) else {
        panic!("the time is up");
    };
    assert_eq!(haptic.map(|request| request.route), Some(bolt(1)));
    assert_eq!(manager.timer_tick(602_000, 600, true), TimerTick::Stopped);
}

#[test]
fn a_timer_is_kept_going_only_where_one_was_started() {
    let with = |timer_mode, timer_seconds| {
        let mut manager = PresenterManager::default();
        manager.set_configured_settings(PresenterSettings {
            timer_mode,
            timer_seconds,
            ..PresenterSettings::default()
        });
        manager
    };
    assert_eq!(with(PresenterTimerMode::Off, 0).start_configured_timer(0), TimerTask::Nothing);
    let mut unset = with(PresenterTimerMode::Countdown, 0);
    assert_eq!(unset.start_configured_timer(0), TimerTask::Nothing);
    assert!(!unset.state.timer_started);
    let mut clock = with(PresenterTimerMode::CurrentTime, 0);
    assert_eq!(clock.configured_timer_task(), TimerTask::Clock);
    assert_eq!(clock.start_configured_timer_once(0), TimerTask::Clock);
    assert_eq!(clock.start_configured_timer_once(5), TimerTask::Nothing, "it runs already");
}

#[test]
fn an_observer_hears_of_changes_and_of_heartbeats() {
    let mut manager = PresenterManager::default();
    let since = manager.snapshot(0).generation;
    assert!(manager.observe(since, false, 0).is_none());
    assert_eq!(
        manager.observe(since, true, 0),
        Some(PresenterObservation { generation: since, overlay: None })
    );
    manager.show(PresenterEffect::Magnify);
    let seen = manager.observe(since, false, 0).expect("a change is news");
    assert_eq!(seen.overlay.map(|overlay| overlay.effect), Some(PresenterEffect::Magnify));
    manager.toggle(PresenterEffect::Magnify);
    assert_eq!(active(&manager), None);
    manager.clear();
    assert_eq!(active(&manager), None);
}

struct World {
    shutdown: bool,
    generation: u64,
    clock: u64,
    queue: VecDeque<ButtonCommand>,
}

impl World {
    /// Answers the worker until it would wait for a command that is not there.
    fn drive(&mut self, worker: &mut Worker) -> Vec<ButtonRuntimeEvent> {
        let mut events = Vec::new();
        let mut waits = 0;
        while waits < 2 {
            let answer = match worker.ask() {
                Ask::Shutdown => Answer::Shutdown(self.shutdown),
                Ask::Generation => Answer::Generation(self.generation),
                Ask::Clock => Answer::Clock(self.clock),
                Ask::Command | Ask::QueuedCommand => match self.queue.pop_front() {
                    Some(command) => Answer::Command(command),
                    None => {
                        waits += 1;
                        Answer::NoCommand
                    }
                },
                Ask::Stop { .. } => break,
            };
            worker.step(answer, &mut events);
        }
        events
    }
}

fn key() -> PressKey {
    PressKey { source: PressSource::Hook, button: ButtonId::Back }
}

fn press(id: u64, behavior: PressBehavior) -> ActivePress {
    ActivePress { token: PressToken { key: key(), id }, behavior, pointer: None }
}

fn down(press: ActivePress) -> ButtonCommand {
    ButtonCommand::Input { generation: 1, input: ButtonInput::Down(press) }
}

fn up(released_at: u64) -> ButtonCommand {
    ButtonCommand::Input { generation: 1, input: ButtonInput::Up { key: key(), released_at } }
}

fn long_press() -> PressBehavior {
    PressBehavior::LongPress { short: Action::Copy, long: Action::Undo, deadline: 500 }
}

fn world(commands: Vec<ButtonCommand>) -> World {
    World { shutdown: false, generation: 1, clock: 0, queue: commands.into() }
}

#[test]
fn a_short_press_runs_its_short_arm_on_release() {
    let mut worker = Worker::new(1, 8);
    let held = press(1, long_press());
    let events = world(vec![down(held), up(100)]).drive(&mut worker);
    assert_eq!(
        events,
        vec![
            ButtonRuntimeEvent::Started(held),
            ButtonRuntimeEvent::Triggered { press: held, action: Action::Copy },
            ButtonRuntimeEvent::Ended { press: held, reason: EndReason::Released },
        ]
    );
}

#[test]
fn a_long_press_fires_at_its_deadline_and_only_once() {
    let mut worker = Worker::new(1, 8);
    let held = press(1, long_press());
    let mut world = world(vec![down(held)]);
    assert_eq!(world.drive(&mut worker), vec![ButtonRuntimeEvent::Started(held)]);

    world.clock = 500;
    let fired = press(1, PressBehavior::LongPressFired);
    assert_eq!(
        world.drive(&mut worker),
        vec![ButtonRuntimeEvent::Triggered { press: fired, action: Action::Undo }]
    );

    world.queue.push_back(up(600));
    assert_eq!(
        world.drive(&mut worker),
        vec![ButtonRuntimeEvent::Ended { press: fired, reason: EndReason::Released }]
    );
}

#[test]
fn another_generation_cancels_what_is_held() {
    let mut worker = Worker::new(1, 8);
    let held = press(1, PressBehavior::Plain);
    let mut world = world(vec![down(held)]);
    let _ = world.drive(&mut worker);
    world.generation = 2;
    world.queue.push_back(ButtonCommand::Wake);
    assert_eq!(
        world.drive(&mut worker),
        vec![ButtonRuntimeEvent::Ended {
            press: held,
            reason: EndReason::Canceled(CancelReason::Invalidated),
        }]
    );
}

#[test]
fn a_repeated_down_ends_the_press_before_it() {
    let mut worker = Worker::new(1, 8);
    let first = press(1, PressBehavior::Plain);
    let second = press(2, PressBehavior::Plain);
    assert_eq!(
        world(vec![down(first), down(second)]).drive(&mut worker),
        vec![
            ButtonRuntimeEvent::Started(first),
            ButtonRuntimeEvent::Ended {
                press: first,
                reason: EndReason::Canceled(CancelReason::RepeatedDown),
            },
            ButtonRuntimeEvent::Started(second),
        ]
    );
}

#[test]
fn a_shutdown_ends_every_press() {
    let mut worker = Worker::new(1, 8);
    let held = press(1, PressBehavior::Plain);
    let mut world = world(vec![down(held)]);
    let _ = world.drive(&mut worker);
    world.shutdown = true;
    assert_eq!(
        world.drive(&mut worker),
        vec![ButtonRuntimeEvent::Ended {
            press: held,
            reason: EndReason::Canceled(CancelReason::Shutdown),
        }]
    );
    assert_eq!(worker.ask(), Ask::Stop { acknowledge: true });
}

#[test]
fn a_press_of_another_generation_is_not_taken() {
    let mut worker = Worker::new(1, 8);
    let held = press(1, PressBehavior::Plain);
    let mut stale = world(vec![ButtonCommand::Input {
        generation: 7,
        input: ButtonInput::Down(held),
    }]);
    assert!(stale.drive(&mut worker).is_empty());
}
