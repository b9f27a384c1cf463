//! Capturing the controls of a device and handing them back.

use openlogi::binding::ButtonId;
use openlogi::device::arm::{
    ArmAnswer, ArmAsk, ArmedControls, Arming, CaptureSpec, PresenterRow, RearmWrite,
    ThumbwheelInfo, WheelDirection, GESTURE_BUTTON_CID, REPROG_FEATURE_ID, THUMBWHEEL_FEATURE_ID,
};
use openlogi::device::capture_restore::{
    restore_after_stop, rollback_start, setup_failure, stop_for_current_publication,
    ArmedReporting, CaptureError, CaptureSessionOutcome, CaptureStop, PendingCaptureRestore,
    ReprogRestore, RestoreWrite,
};
use openlogi::device::pointer_speed::{
    get_pointer_speed, set_pointer_speed, ErrorType, Hidpp20Error, HidppOperation, SpeedAnswer,
    SpeedAsk, WriteError, FEATURE_ID,
};
use openlogi::device::presenter_control::{
    PresenterControlFeature, PresenterVibrationIntensity, PresenterVibrationLength,
};
use openlogi::device::report::{
    hidpp10_register_write, hidpp20_short, reprog_reporting_change_payload,
    root_feature_lookup_request, set_cid_reporting, CidReporting, CtrlIdInfo,
};
use openlogi::presenter::PointerSpeed;

const REPROG_FEATURE_INDEX: u8 = 0x02;
const ORIGINAL_REMAP_CID: u16 = 0x0053;

/// A device with one reprogrammable control.
struct Device {
    cid: u16,
    control_flags: (u8, u8),
    remap: u16,
    thumbwheel: Option<ThumbwheelInfo>,
    fail_writes: bool,
    written: Vec<Vec<u8>>,
}

impl Device {
    fn new(cid: u16, control_flags: (u8, u8)) -> Self {
        Device {
            cid,
            control_flags,
            remap: 0,
            thumbwheel: None,
            fail_writes: false,
            written: Vec::new(),
        }
    }

    fn answer(&mut self, ask: ArmAsk) -> ArmAnswer {
        match ask {
            ArmAsk::FindFeature(REPROG_FEATURE_ID) => {
                ArmAnswer::Feature(Some(REPROG_FEATURE_INDEX))
            }
            ArmAsk::FindFeature(THUMBWHEEL_FEATURE_ID) => {
                ArmAnswer::Feature(self.thumbwheel.map(|_| 7))
            }
            ArmAsk::FindFeature(_) => ArmAnswer::Feature(None),
            ArmAsk::CountControls => ArmAnswer::Count(1),
            ArmAsk::ReadControl(_) => {
                let mut payload = [0u8; 16];
                payload[..2].copy_from_slice(&self.cid.to_be_bytes());
                payload[4] = self.control_flags.0;
                payload[8] = self.control_flags.1;
                ArmAnswer::Control(CtrlIdInfo::decode(&payload))
            }
            ArmAsk::ReadReporting(cid) => {
                let mut payload = [0u8; 16];
                payload[..2].copy_from_slice(&cid.to_be_bytes());
                payload[3..5].copy_from_slice(&self.remap.to_be_bytes());
                ArmAnswer::Reporting(CidReporting::decode(&payload))
            }
            ArmAsk::WriteReporting(cid, change) => {
                self.written.push(set_cid_reporting(0xff, REPROG_FEATURE_INDEX, cid, change));
                if self.fail_writes { ArmAnswer::Failed } else { ArmAnswer::Written }
            }
            ArmAsk::ReadThumbwheel => match self.thumbwheel {
                Some(info) => ArmAnswer::Thumbwheel(info),
                None => ArmAnswer::Failed,
            },
            ArmAsk::DivertThumbwheel(_) => ArmAnswer::Written,
            ArmAsk::Armed | ArmAsk::Failed => unreachable!(),
        }
    }

    fn arm(&mut self, spec: CaptureSpec) -> Result<ArmedControls, ArmedControls> {
        let mut session = Arming::new(spec);
        loop {
            match session.ask() {
                ArmAsk::Armed => return Ok(session.into_armed()),
                ArmAsk::Failed => return Err(session.into_armed()),
                ask => {
                    let answer = self.answer(ask);
                    session.step(answer);
                }
            }
        }
    }
}

#[test]
fn dpi_gesture_arming_never_overwrites_raw_xy_with_plain_diversion() {
    for cid in [0x00c4u16, 0x00ed, 0x00fd] {
        for (gestures, raw_xy, expected_flags) in [
            (true, true, vec![0x33]),
            (true, false, vec![]),
            (false, true, vec![0x23]),
            (false, false, vec![0x23]),
        ] {
            let mut device = Device::new(cid, (0x20, u8::from(raw_xy)));
            let spec = CaptureSpec {
                divert_gesture_buttons: if gestures {
                    vec![(cid, ButtonId::DpiToggle)]
                } else {
                    vec![]
                },
                ..CaptureSpec::default()
            };
            let armed = device.arm(spec).unwrap();
            let writes: Vec<_> = device.written.iter().map(|report| report[6]).collect();
            assert_eq!(
                writes, expected_flags,
                "CID {cid:04x}, gestures {gestures}, raw XY {raw_xy}"
            );
            assert_eq!(
                armed.gesture_button_cids,
                if gestures && raw_xy { vec![(cid, ButtonId::DpiToggle)] } else { vec![] }
            );
            assert_eq!(armed.dpi_cids, if gestures { vec![] } else { vec![cid] });
        }
    }
}

fn reporting() -> CidReporting {
    CidReporting { diverted: false, raw_xy: false, remap: None }
}

fn pending_gesture_button(retired: u64) -> PendingCaptureRestore {
    PendingCaptureRestore::new(
        retired,
        ReprogRestore::new(
            0x22,
            &vec![ArmedReporting { cid: GESTURE_BUTTON_CID, original: reporting() }],
        ),
        None,
    )
    .expect("one diverted control should require restoration")
}

fn reports(pending: &PendingCaptureRestore) -> Vec<Vec<u8>> {
    pending
        .plan
        .restore_writes()
        .into_iter()
        .map(|write| match write {
            RestoreWrite::Reporting { feature_index, cid, change } => {
                set_cid_reporting(0xff, feature_index, cid, change)
            }
            RestoreWrite::Thumbwheel { .. } => panic!("no thumb wheel was taken"),
        })
        .collect()
}

#[test]
fn pending_restore_waits_for_a_replacement_then_undiverts_through_it() {
    let (retired, replacement) = (1, 2);
    let pending = pending_gesture_button(retired);

    assert_eq!(
        pending.channel(Some(retired)),
        None,
        "the retired transport must never restore underneath a replacement"
    );
    assert_eq!(pending.channel(None), None);

    assert_eq!(pending.channel(Some(replacement)), Some(replacement));
    let reports = reports(&pending);
    assert_eq!(reports.len(), 1);
    let restore = &reports[0];
    assert_eq!(restore[2], 0x22, "restore must address ReprogControlsV4");
    assert_eq!(restore[3] >> 4, 3, "restore must call setCidReporting");
    assert_eq!(
        &restore[4..7],
        &[0x00, 0xc3, 0x22],
        "restore must clear diversion and raw-XY using their valid bits"
    );
    assert!(matches!(
        pending.settle(replacement, &vec![true], Some(replacement)),
        CaptureSessionOutcome::Restored
    ));
}

#[test]
fn restore_retries_when_inventory_changes_during_an_awaited_write() {
    let (retired, superseded, winner) = (1, 2, 3);
    let pending = pending_gesture_button(retired);
    assert_eq!(pending.channel(Some(superseded)), Some(superseded));

    let pending = match pending.settle(superseded, &vec![true], Some(winner)) {
        CaptureSessionOutcome::RestorePending(pending) => pending,
        CaptureSessionOutcome::Restored => {
            panic!("a write to a publication replaced during await is not final")
        }
    };
    assert_eq!(pending.channel(Some(winner)), Some(winner));
    assert!(matches!(
        pending.settle(winner, &vec![true], Some(winner)),
        CaptureSessionOutcome::Restored
    ));
}

#[test]
fn a_write_that_was_not_made_leaves_the_restore_owed() {
    let pending = pending_gesture_button(1);
    let pending = match pending.settle(2, &Vec::new(), Some(2)) {
        CaptureSessionOutcome::RestorePending(pending) => pending,
        CaptureSessionOutcome::Restored => panic!("nothing was written"),
    };
    assert!(pending.plan.restore_on(&vec![true]));
    assert!(!pending.plan.restore_on(&vec![true, true]));
    assert!(!pending.plan.restore_on(&vec![false]));
}

#[test]
fn failed_setup_rollback_returns_its_restore_capability() {
    let current = 1;
    let rollback = rollback_start(Some(pending_gesture_button(current))).expect("owed");
    assert_eq!(
        rollback.channel(Some(current)),
        Some(current),
        "rollback must attempt the compensating write on the current publication"
    );
    let outcome = rollback.settle(current, &vec![false], Some(current));
    let failure = setup_failure(CaptureError::Hidpp("diversion failed".into()), outcome);
    assert!(
        failure.pending.is_some(),
        "a failed compensating write must not discard firmware ownership"
    );
    assert_eq!(failure.error, CaptureError::Hidpp("diversion failed".into()));
    assert!(rollback_start(None).is_none());
    let released = setup_failure(CaptureError::DeviceNotFound, CaptureSessionOutcome::Restored);
    assert!(released.pending.is_none());
}

#[test]
fn channel_change_takes_teardown_precedence_over_ready_shutdown() {
    assert!(matches!(stop_for_current_publication(false), CaptureStop::ChannelChanged));
    assert!(matches!(stop_for_current_publication(true), CaptureStop::Shutdown));

    let kept = restore_after_stop(CaptureStop::ChannelChanged, Some(pending_gesture_button(1)));
    assert_eq!(kept.expect("owed").channel(Some(1)), None);
    let allowed = restore_after_stop(CaptureStop::Shutdown, Some(pending_gesture_button(1)));
    assert_eq!(allowed.expect("owed").channel(Some(1)), Some(1));
    assert!(restore_after_stop(CaptureStop::Shutdown, None).is_none());
}

#[test]
fn pending_restore_undiverts_a_virtual_presenter_hold_control() {
    let hold_cid = 0x00d7u16;
    let pending = PendingCaptureRestore::new(
        1,
        ReprogRestore::with_undivert_cids(0x22, &Vec::new(), &vec![hold_cid]),
        None,
    )
    .expect("a virtual presenter hold control should require restoration");

    // A normal teardown restores through the channel it still holds, so the
    // hold control is cleared without waiting for a replacement publication.
    let pending = pending.allow_current_channel();
    assert_eq!(pending.channel(Some(1)), Some(1));
    let reports = reports(&pending);
    assert_eq!(reports.len(), 1);
    assert_eq!(reports[0][2], 0x22, "restore must address ReprogControlsV4");
    assert_eq!(reports[0][3] >> 4, 3, "restore must call setCidReporting");
    assert_eq!(
        &reports[0][4..7],
        &[hold_cid.to_be_bytes()[0], hold_cid.to_be_bytes()[1], 0x22],
        "restore must clear diversion and raw-XY on the virtual hold CID"
    );
    assert!(matches!(
        pending.settle(1, &vec![true], Some(1)),
        CaptureSessionOutcome::Restored
    ));
}

#[test]
fn gesture_capture_replay_restores_original_reporting_on_normal_shutdown() {
    let mut device = Device::new(GESTURE_BUTTON_CID, (0x31, 0x01));
    device.remap = ORIGINAL_REMAP_CID;
    let armed = device
        .arm(CaptureSpec {
            divert_gesture_sources: vec![GESTURE_BUTTON_CID],
            ..CaptureSpec::default()
        })
        .unwrap();
    assert_eq!(armed.gesture_cids, vec![GESTURE_BUTTON_CID]);

    let pending = restore_after_stop(stop_for_current_publication(true), armed.into_pending(1))
        .expect("the gesture button was taken");
    assert_eq!(pending.channel(Some(1)), Some(1));
    device.written.extend(reports(&pending));

    let remap = ORIGINAL_REMAP_CID.to_be_bytes();
    let mut expected = [0u8; 16];
    expected[..2].copy_from_slice(&GESTURE_BUTTON_CID.to_be_bytes());
    expected[3..5].copy_from_slice(&remap);
    assert_eq!(device.written.len(), 2);
    expected[2] = 0x33;
    assert_eq!(
        &device.written[0][4..],
        &expected,
        "arming sets only the diversion this capture needs while preserving the original remap"
    );
    expected[2] = 0x22;
    assert_eq!(
        &device.written[1][4..],
        &expected,
        "shutdown clears only diversion and raw-XY while preserving the original remap"
    );
    assert!(matches!(
        pending.settle(1, &vec![true], Some(1)),
        CaptureSessionOutcome::Restored
    ));
}

#[test]
fn a_failed_write_is_owed_to_the_firmware_all_the_same() {
    let mut device = Device::new(GESTURE_BUTTON_CID, (0x31, 0x01));
    device.fail_writes = true;
    let armed = device
        .arm(CaptureSpec {
            divert_gesture_sources: vec![GESTURE_BUTTON_CID],
            ..CaptureSpec::default()
        })
        .expect_err("the write failed");
    assert!(armed.gesture_cids.is_empty());
    let pending = armed.into_pending(4).expect("the firmware may have taken the write");
    assert_eq!(reports(&pending)[0][6], 0x22);
}

#[test]
fn a_session_without_controls_is_idle_and_owes_nothing() {
    let mut device = Device::new(0x0050, (0x00, 0x00));
    let armed = device.arm(CaptureSpec::default()).unwrap();
    assert!(armed.is_idle());
    assert!(armed.into_pending(1).is_none());
    assert!(device.written.is_empty());
}

#[test]
fn what_a_device_lost_is_taken_again_in_the_same_mode() {
    let mut device = Device::new(GESTURE_BUTTON_CID, (0x31, 0x01));
    device.thumbwheel = Some(ThumbwheelInfo {
        resolution: 120,
        positive_is_forward: false,
        supports_single_tap: true,
    });
    let armed = device
        .arm(CaptureSpec {
            divert_gesture_sources: vec![GESTURE_BUTTON_CID],
            capture_thumbwheel: true,
            ..CaptureSpec::default()
        })
        .unwrap();
    assert!(!armed.is_idle());
    assert_eq!(armed.thumbwheel_direction(), Some(false));
    let rows: Vec<PresenterRow> = Vec::new();
    let writes = armed.rearm(&rows);
    assert_eq!(writes.len(), 2);
    let RearmWrite::Reporting { cid, change } = writes[0] else {
        panic!("controls come first");
    };
    assert_eq!(cid, GESTURE_BUTTON_CID);
    assert_eq!(reprog_reporting_change_payload(cid, change)[2], 0x33);
    let RearmWrite::Thumbwheel(direction) = writes[1] else {
        panic!("the thumb wheel comes last");
    };
    assert!(matches!(direction, WheelDirection::Inverted));
}

#[test]
fn requests_are_framed_as_reports() {
    assert_eq!(root_feature_lookup_request(0x1d4b)[..6], [0x10, 0xff, 0x00, 0x00, 0x1d, 0x4b]);
    assert_eq!(hidpp20_short(0xff, 0x00, 1, [0, 0, 0])[..4], [0x10, 0xff, 0x00, 0x10]);
    assert_eq!(
        hidpp10_register_write(0x00, [0x00, 0x09, 0x00])[4..],
        [0x00, 0x09, 0x00]
    );
}

#[test]
fn the_pointer_speed_is_read_from_the_feature_the_device_names() {
    let call = get_pointer_speed(3);
    assert_eq!(call.ask(), SpeedAsk::Open(3));
    let call = call.step(SpeedAnswer::Opened(true));
    assert_eq!(call.ask(), SpeedAsk::FindFeature(FEATURE_ID));
    let call = call.step(SpeedAnswer::Feature(Ok(Some(9))));
    assert_eq!(call.ask(), SpeedAsk::Send(vec![0x10, 3, 9, 0, 0, 0, 0]));
    let mut payload = [0u8; 16];
    payload[0] = 0x14;
    let call = call.step(SpeedAnswer::Reply(Ok(payload)));
    assert_eq!(call.ask(), SpeedAsk::Done(Ok(PointerSpeed::new(4).expect("a level"))));
}

#[test]
fn the_pointer_speed_is_written_as_its_wire_level() {
    let speed = PointerSpeed::new(7).expect("a level");
    let call = set_pointer_speed(3, speed)
        .step(SpeedAnswer::Opened(true))
        .step(SpeedAnswer::Feature(Ok(Some(9))));
    assert_eq!(call.ask(), SpeedAsk::Send(vec![0x10, 3, 9, 0x10, 0x17, 0, 0]));
    assert_eq!(call.step(SpeedAnswer::Reply(Ok([0; 16]))).ask(), SpeedAsk::Done(Ok(speed)));
    let busy = Hidpp20Error::Feature(ErrorType::Busy);
    assert_eq!(
        call.step(SpeedAnswer::Reply(Err(busy))).ask(),
        SpeedAsk::Done(Err(WriteError::Hidpp {
            operation: HidppOperation::WritePointerSpeed,
            feature_hex: FEATURE_ID,
            error: busy,
        }))
    );
}

#[test]
fn a_device_without_the_feature_does_not_support_the_speed() {
    let unsupported = WriteError::FeatureUnsupported { feature_hex: FEATURE_ID };
    let reached = get_pointer_speed(3).step(SpeedAnswer::Opened(true));
    assert_eq!(
        reached.step(SpeedAnswer::Feature(Ok(None))).ask(),
        SpeedAsk::Done(Err(unsupported))
    );
    let found = reached.step(SpeedAnswer::Feature(Ok(Some(9))));
    for error in [
        Hidpp20Error::Feature(ErrorType::Unsupported),
        Hidpp20Error::Feature(ErrorType::InvalidFunctionId),
        Hidpp20Error::UnsupportedResponse,
    ] {
        assert_eq!(
            found.step(SpeedAnswer::Reply(Err(error))).ask(),
            SpeedAsk::Done(Err(unsupported))
        );
    }
    assert_eq!(found.step(SpeedAnswer::Reply(Ok([0; 16]))).ask(), SpeedAsk::Done(Err(unsupported)));
    assert_eq!(
        get_pointer_speed(3).step(SpeedAnswer::Opened(false)).ask(),
        SpeedAsk::Done(Err(WriteError::DeviceUnreachable { index: 3 }))
    );
    assert_eq!(
        reached.step(SpeedAnswer::Feature(Err(Hidpp20Error::Channel))).ask(),
        SpeedAsk::Done(Err(WriteError::Hidpp {
            operation: HidppOperation::ResolveFeature,
            feature_hex: FEATURE_ID,
            error: Hidpp20Error::Channel,
        }))
    );
}

#[test]
fn a_vibration_is_one_short_report() {
    let feature = PresenterControlFeature { device_index: 2, feature_index: 6 };
    let length = PresenterVibrationLength::new(5).expect("a length");
    assert_eq!(
        feature.vibrate(length, PresenterVibrationIntensity::new(73)),
        vec![0x10, 2, 6, 0x10, 5, 0xe8, 73]
    );
}
