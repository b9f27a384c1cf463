//! Arming a device for capture: which of its controls a session takes, in what
//! order, and how they are taken again after the device lost them.
//!
//! The session does not talk to the device itself. It says which call it needs
//! next with [`Arming::ask`] and takes the reply in [`Arming::step`]. What it
//! may have changed is recorded before the write, because a failed write does
//! not prove that the firmware ignored it.

use vstd::prelude::*;
use crate::binding::ButtonId;
use crate::device::capture_restore::{
    divert_change, divert_spec, restore_items, ArmedReporting, PendingCaptureRestore,
    ReprogRestore,
};
use crate::device::report::{CidReporting, CidReportingChange, CtrlIdInfo};

verus! {

/// Feature number of the reprogrammable controls.
pub const REPROG_FEATURE_ID: u16 = 0x1b04;

/// Feature number of the thumb wheel.
pub const THUMBWHEEL_FEATURE_ID: u16 = 0x2150;

/// The control of the dedicated gesture button.
pub const GESTURE_BUTTON_CID: u16 = 0x00c3;

/// How a presenter button is found on a device.
#[derive(Debug, PartialEq, Eq)]
pub struct PresenterRow {
    /// The button.
    pub button: ButtonId,
    /// What its controls are for.
    pub task_ids: Vec<u16>,
    /// The control that stands in on devices that list none.
    pub hold_cid: Option<u16>,
    /// Whether it is captured together with pointer movement.
    pub raw_xy: bool,
}

/// How a presenter button is found on a device.
pub struct RowModel {
    /// The button.
    pub button: ButtonId,
    /// What its controls are for.
    pub task_ids: Seq<u16>,
    /// The control that stands in on devices that list none.
    pub hold_cid: Option<u16>,
    /// Whether it is captured together with pointer movement.
    pub raw_xy: bool,
}

impl View for PresenterRow {
    type V = RowModel;

    open spec fn view(&self) -> RowModel {
        RowModel {
            button: self.button,
            task_ids: self.task_ids@,
            hold_cid: self.hold_cid,
            raw_xy: self.raw_xy,
        }
    }
}

/// What a session is to capture.
#[derive(Debug, PartialEq, Eq)]
pub struct CaptureSpec {
    /// Controls taken as gesture sources.
    pub divert_gesture_sources: Vec<u16>,
    /// Further controls taken with pointer movement, and the button each stands for.
    pub divert_gesture_buttons: Vec<(u16, ButtonId)>,
    /// Controls taken as plain buttons.
    pub divert_buttons: Vec<(u16, ButtonId)>,
    /// Presenter buttons to take.
    pub divert_presenter_buttons: Vec<ButtonId>,
    /// How presenter buttons are found.
    pub presenter_rows: Vec<PresenterRow>,
    /// Whether the thumb wheel is taken.
    pub capture_thumbwheel: bool,
}

impl Default for CaptureSpec {
    fn default() -> (spec: Self)
        ensures
            spec.divert_gesture_sources@.len() == 0,
            spec.divert_gesture_buttons@.len() == 0,
            spec.divert_buttons@.len() == 0,
            spec.divert_presenter_buttons@.len() == 0,
            spec.presenter_rows@.len() == 0,
            !spec.capture_thumbwheel,
    {
        CaptureSpec {
            divert_gesture_sources: Vec::new(),
            divert_gesture_buttons: Vec::new(),
            divert_buttons: Vec::new(),
            divert_presenter_buttons: Vec::new(),
            presenter_rows: Vec::new(),
            capture_thumbwheel: false,
        }
    }
}

/// Why a control is taken.
#[derive(Clone, Copy, Debug, PartialEq, Eq, Structural)]
pub enum ArmRole {
    /// As a gesture source.
    GestureSource,
    /// As a button with pointer movement.
    GestureButton(ButtonId),
    /// As a DPI or mode-shift button.
    Dpi,
    /// As a plain or presenter button.
    Button(ButtonId),
    /// As the stand-in of a presenter button.
    PresenterHold(ButtonId),
}

/// One control to take.
#[derive(Clone, Copy, Debug, PartialEq, Eq, Structural)]
pub struct ArmStep {
    /// The control.
    pub cid: u16,
    /// Whether pointer movement comes with it.
    pub raw_xy: bool,
    /// Why it is taken.
    pub role: ArmRole,
}

/// Which way a diverted thumb wheel reports.
#[derive(Clone, Copy, Debug, PartialEq, Eq, Structural)]
pub enum WheelDirection {
    /// As the device counts.
    Default,
    /// The other way round.
    Inverted,
}

/// What a device says of its thumb wheel.
#[derive(Clone, Copy, Debug, PartialEq, Eq, Structural)]
pub struct ThumbwheelInfo {
    /// Steps per turn while diverted.
    pub resolution: u16,
    /// Whether a positive count is a turn away from the user.
    pub positive_is_forward: bool,
    /// Whether the wheel reports a tap.
    pub supports_single_tap: bool,
}

/// A taken thumb wheel.
#[derive(Clone, Copy, Debug, PartialEq, Eq, Structural)]
pub struct ArmedThumbwheel {
    /// Where the device keeps the feature.
    pub feature_index: u8,
    /// What the device said of the wheel, when it did.
    pub info: Option<ThumbwheelInfo>,
}

impl ArmedThumbwheel {
    /// Steps per turn, when the device said so.
    pub fn resolution(&self) -> (resolution: Option<u16>)
        ensures
            resolution == match self.info {
                Some(info) => Some(info.resolution),
                None => None,
            },
    {
        match self.info {
            Some(info) => Some(info.resolution),
            None => None,
        }
    }

    /// The direction that makes a positive count a turn away from the user.
    pub open spec fn direction_spec(self) -> WheelDirection {
        if self.info is Some && !self.info->0.positive_is_forward {
            WheelDirection::Inverted
        } else {
            WheelDirection::Default
        }
    }

    /// The direction that makes a positive count a turn away from the user.
    pub fn direction(&self) -> (direction: WheelDirection)
        ensures
            direction == self.direction_spec(),
    {
        match self.info {
            Some(info) => if !info.positive_is_forward {
                WheelDirection::Inverted
            } else {
                WheelDirection::Default
            },
            None => WheelDirection::Default,
        }
    }
}

/// The controls a session has taken, kept so that they can be handed back.
#[derive(Debug, PartialEq, Eq)]
pub struct ArmedControls {
    /// Where the device keeps its reprogrammable controls.
    pub reprog: Option<u8>,
    /// Gesture sources.
    pub gesture_cids: Vec<u16>,
    /// Buttons taken with pointer movement.
    pub gesture_button_cids: Vec<(u16, ButtonId)>,
    /// DPI and mode-shift buttons.
    pub dpi_cids: Vec<u16>,
    /// Plain and presenter buttons.
    pub button_cids: Vec<(u16, ButtonId)>,
    /// Stand-ins of presenter buttons.
    pub presenter_hold_cids: Vec<u16>,
    /// How every read control reported before.
    pub reporting: Vec<ArmedReporting>,
    /// The thumb wheel.
    pub thumb: Option<ArmedThumbwheel>,
}

/// The controls a session has taken.
pub struct ArmedModel {
    /// Where the device keeps its reprogrammable controls.
    pub reprog: Option<u8>,
    /// Gesture sources.
    pub gesture_cids: Seq<u16>,
    /// Buttons taken with pointer movement.
    pub gesture_button_cids: Seq<(u16, ButtonId)>,
    /// DPI and mode-shift buttons.
    pub dpi_cids: Seq<u16>,
    /// Plain and presenter buttons.
    pub button_cids: Seq<(u16, ButtonId)>,
    /// Stand-ins of presenter buttons.
    pub presenter_hold_cids: Seq<u16>,
    /// How every read control reported before.
    pub reporting: Seq<ArmedReporting>,
    /// The thumb wheel.
    pub thumb: Option<ArmedThumbwheel>,
}

impl View for ArmedControls {
    type V = ArmedModel;

    open spec fn view(&self) -> ArmedModel {
        ArmedModel {
            reprog: self.reprog,
            gesture_cids: self.gesture_cids@,
            gesture_button_cids: self.gesture_button_cids@,
            dpi_cids: self.dpi_cids@,
            button_cids: self.button_cids@,
            presenter_hold_cids: self.presenter_hold_cids@,
            reporting: self.reporting@,
            thumb: self.thumb,
        }
    }
}

/// No controls.
pub open spec fn nothing_armed() -> ArmedModel {
    ArmedModel {
        reprog: None,
        gesture_cids: Seq::empty(),
        gesture_button_cids: Seq::empty(),
        dpi_cids: Seq::empty(),
        button_cids: Seq::empty(),
        presenter_hold_cids: Seq::empty(),
        reporting: Seq::empty(),
        thumb: None,
    }
}

impl Default for ArmedControls {
    fn default() -> (armed: Self)
        ensures
            armed@ == nothing_armed(),
    {
        ArmedControls {
            reprog: None,
            gesture_cids: Vec::new(),
            gesture_button_cids: Vec::new(),
            dpi_cids: Vec::new(),
            button_cids: Vec::new(),
            presenter_hold_cids: Vec::new(),
            reporting: Vec::new(),
            thumb: None,
        }
    }
}

impl ArmedModel {
    /// The controls after `step` was taken.
    pub open spec fn with_step(self, step: ArmStep) -> ArmedModel {
        match step.role {
            ArmRole::GestureSource => ArmedModel {
                gesture_cids: self.gesture_cids.push(step.cid),
                ..self
            },
            ArmRole::GestureButton(button) => ArmedModel {
                gesture_button_cids: self.gesture_button_cids.push((step.cid, button)),
                ..self
            },
            ArmRole::Dpi => ArmedModel { dpi_cids: self.dpi_cids.push(step.cid), ..self },
            ArmRole::Button(button) => ArmedModel {
                button_cids: self.button_cids.push((step.cid, button)),
                ..self
            },
            ArmRole::PresenterHold(button) => ArmedModel {
                presenter_hold_cids: self.presenter_hold_cids.push(step.cid),
                button_cids: self.button_cids.push((step.cid, button)),
                ..self
            },
        }
    }
}

/// Whether `pairs` names the control `cid`.
pub open spec fn names_cid(pairs: Seq<(u16, ButtonId)>, cid: u16) -> bool {
    exists|i: int| 0 <= i < pairs.len() && (#[trigger] pairs[i]).0 == cid
}

/// Whether `pairs` names the control `cid`.
fn find_cid(pairs: &Vec<(u16, ButtonId)>, cid: u16) -> (found: bool)
    ensures
        found == names_cid(pairs@, cid),
{
    let mut i: usize = 0;
    while i < pairs.len()
        invariant
            i <= pairs@.len(),
            forall|k: int| 0 <= k < i ==> (#[trigger] pairs@[k]).0 != cid,
        decreases pairs@.len() - i,
    {
        if pairs[i].0 == cid {
            assert(pairs@[i as int].0 == cid);
            return true;
        }
        i = i + 1;
    }
    false
}

/// Whether `values` holds `value`.
fn holds(values: &Vec<u16>, value: u16) -> (found: bool)
    ensures
        found == values@.contains(value),
{
    let mut i: usize = 0;
    while i < values.len()
        invariant
            i <= values@.len(),
            forall|k: int| 0 <= k < i ==> values@[k] != value,
        decreases values@.len() - i,
    {
        if values[i] == value {
            assert(values@[i as int] == value);
            return true;
        }
        i = i + 1;
    }
    false
}

/// Whether the device lists `cid` with these capabilities.
pub open spec fn exposes(controls: Seq<CtrlIdInfo>, cid: u16, divert: bool, raw_xy: bool) -> bool {
    exists|i: int|
        0 <= i < controls.len() && (#[trigger] controls[i]).cid == cid && (divert
            ==> controls[i].divertable()) && (raw_xy ==> controls[i].raw_xy_capable())
}

/// Whether the device lists `cid` with these capabilities.
fn control_exposes(controls: &Vec<CtrlIdInfo>, cid: u16, divert: bool, raw_xy: bool) -> (found: bool)
    ensures
        found == exposes(controls@, cid, divert, raw_xy),
{
    let mut i: usize = 0;
    while i < controls.len()
        invariant
            i <= controls@.len(),
            forall|k: int|
                0 <= k < i ==> !((#[trigger] controls@[k]).cid == cid && (divert
                    ==> controls@[k].divertable()) && (raw_xy ==> controls@[k].raw_xy_capable())),
        decreases controls@.len() - i,
    {
        if controls[i].cid == cid && (!divert || controls[i].is_divertable()) && (!raw_xy
            || controls[i].supports_raw_xy()) {
            assert(controls@[i as int].cid == cid);
            return true;
        }
        i = i + 1;
    }
    false
}

/// Whether the first row the device lists for `cid` has both capabilities.
pub open spec fn first_captures(controls: Seq<CtrlIdInfo>, cid: u16) -> bool
    decreases controls.len(),
{
    if controls.len() == 0 {
        false
    } else if controls[0].cid == cid {
        controls[0].divertable() && controls[0].raw_xy_capable()
    } else {
        first_captures(controls.skip(1), cid)
    }
}

/// Whether the first row the device lists for `cid` has both capabilities.
fn control_captures(controls: &Vec<CtrlIdInfo>, cid: u16) -> (captures: bool)
    ensures
        captures == first_captures(controls@, cid),
{
    let mut i: usize = 0;
    assert(controls@.skip(0) =~= controls@);
    while i < controls.len()
        invariant
            i <= controls@.len(),
            first_captures(controls@, cid) == first_captures(controls@.skip(i as int), cid),
        decreases controls@.len() - i,
    {
        if controls[i].cid == cid {
            return controls[i].is_divertable() && controls[i].supports_raw_xy();
        }
        assert(controls@.skip(i as int).skip(1) =~= controls@.skip(i + 1));
        i = i + 1;
    }
    false
}

/// The steps that `pick` makes of `items`, in order.
pub open spec fn gather<T>(items: Seq<T>, pick: spec_fn(T) -> Option<ArmStep>) -> Seq<ArmStep>
    decreases items.len(),
{
    if items.len() == 0 {
        Seq::empty()
    } else {
        match pick(items.last()) {
            Some(step) => gather(items.drop_last(), pick).push(step),
            None => gather(items.drop_last(), pick),
        }
    }
}

proof fn lemma_gather_next<T>(items: Seq<T>, i: int, pick: spec_fn(T) -> Option<ArmStep>)
    requires
        0 <= i < items.len(),
    ensures
        gather(items.take(i + 1), pick) == match pick(items[i]) {
            Some(step) => gather(items.take(i), pick).push(step),
            None => gather(items.take(i), pick),
        },
{
    assert(items.take(i + 1).drop_last() =~= items.take(i));
}

/// What taking a gesture source comes to.
pub open spec fn pick_source(controls: Seq<CtrlIdInfo>) -> spec_fn(u16) -> Option<ArmStep> {
    |cid: u16|
        if exposes(controls, cid, false, true) {
            Some(ArmStep { cid, raw_xy: true, role: ArmRole::GestureSource })
        } else {
            None
        }
}

/// What taking a button with pointer movement comes to.
pub open spec fn pick_gesture_button(controls: Seq<CtrlIdInfo>) -> spec_fn(
    (u16, ButtonId),
) -> Option<ArmStep> {
    |pair: (u16, ButtonId)|
        if first_captures(controls, pair.0) {
            Some(ArmStep { cid: pair.0, raw_xy: true, role: ArmRole::GestureButton(pair.1) })
        } else {
            None
        }
}

/// Whether `cid` is asked for as the gesturing DPI button.
pub open spec fn gestures_as_dpi(gesture_buttons: Seq<(u16, ButtonId)>, cid: u16) -> bool {
    gesture_buttons.contains((cid, ButtonId::DpiToggle))
}

/// What taking a DPI or mode-shift button comes to: one that is asked for with
/// gestures stays native when it cannot report movement.
pub open spec fn pick_dpi(
    controls: Seq<CtrlIdInfo>,
    gesture_buttons: Seq<(u16, ButtonId)>,
) -> spec_fn(u16) -> Option<ArmStep> {
    |cid: u16|
        if !gestures_as_dpi(gesture_buttons, cid) && exposes(controls, cid, true, false) {
            Some(ArmStep { cid, raw_xy: false, role: ArmRole::Dpi })
        } else {
            None
        }
}

/// Whether `steps` take `cid`.
pub open spec fn takes_cid(steps: Seq<ArmStep>, cid: u16) -> bool {
    exists|i: int| 0 <= i < steps.len() && (#[trigger] steps[i]).cid == cid
}

/// What taking a plain button comes to: one that is taken with movement already
/// is left alone.
pub open spec fn pick_button(controls: Seq<CtrlIdInfo>, gestures: Seq<ArmStep>) -> spec_fn(
    (u16, ButtonId),
) -> Option<ArmStep> {
    |pair: (u16, ButtonId)|
        if !takes_cid(gestures, pair.0) && exposes(controls, pair.0, true, false) {
            Some(ArmStep { cid: pair.0, raw_xy: false, role: ArmRole::Button(pair.1) })
        } else {
            None
        }
}

/// The DPI and mode-shift controls.
pub open spec fn dpi_cids_spec() -> Seq<u16> {
    seq![0x00c4u16, 0x00edu16, 0x00fdu16]
}

/// The steps that take controls with pointer movement.
pub open spec fn gesture_plan(spec: CaptureSpec, controls: Seq<CtrlIdInfo>) -> Seq<ArmStep> {
    gather(spec.divert_gesture_sources@, pick_source(controls)) + gather(
        spec.divert_gesture_buttons@,
        pick_gesture_button(controls),
    )
}

/// The steps that take everything but presenter buttons, in order.
pub open spec fn control_plan(spec: CaptureSpec, controls: Seq<CtrlIdInfo>) -> Seq<ArmStep> {
    gesture_plan(spec, controls) + gather(
        dpi_cids_spec(),
        pick_dpi(controls, spec.divert_gesture_buttons@),
    ) + gather(spec.divert_buttons@, pick_button(controls, gesture_plan(spec, controls)))
}

/// The first row for `button`.
pub open spec fn row_for(rows: Seq<PresenterRow>, button: ButtonId) -> Option<RowModel>
    decreases rows.len(),
{
    if rows.len() == 0 {
        None
    } else if rows[0].button == button {
        Some(rows[0]@)
    } else {
        row_for(rows.skip(1), button)
    }
}

/// Whether a listed control serves a presenter button.
pub open spec fn serves(row: RowModel, control: CtrlIdInfo) -> bool {
    &&& row.task_ids.contains(control.task_id)
    &&& control.divertable()
    &&& row.raw_xy ==> control.raw_xy_capable()
}

/// The listed controls that serve a presenter button and are not taken yet, each
/// once and in order.
pub open spec fn serving(
    row: RowModel,
    controls: Seq<CtrlIdInfo>,
    button_cids: Seq<(u16, ButtonId)>,
) -> Seq<ArmStep>
    decreases controls.len(),
{
    if controls.len() == 0 {
        Seq::empty()
    } else {
        let rest = serving(row, controls.drop_last(), button_cids);
        let control = controls.last();
        if serves(row, control) && !names_cid(button_cids, control.cid) && !takes_cid(
            rest,
            control.cid,
        ) {
            rest.push(
                ArmStep {
                    cid: control.cid,
                    raw_xy: row.raw_xy,
                    role: ArmRole::Button(row.button),
                },
            )
        } else {
            rest
        }
    }
}

/// The steps that take one presenter button: the listed controls that serve it,
/// or its stand-in when none could be taken.
pub open spec fn presenter_plan(
    row: Option<RowModel>,
    controls: Seq<CtrlIdInfo>,
    button_cids: Seq<(u16, ButtonId)>,
) -> Seq<ArmStep> {
    match row {
        None => Seq::empty(),
        Some(row) => if row.task_ids.len() == 0 {
            Seq::empty()
        } else {
            let listed = serving(row, controls, button_cids);
            if listed.len() > 0 {
                listed
            } else {
                match row.hold_cid {
                    Some(cid) => if names_cid(button_cids, cid) {
                        Seq::empty()
                    } else {
                        seq![
                            ArmStep {
                                cid,
                                raw_xy: true,
                                role: ArmRole::PresenterHold(row.button),
                            },
                        ]
                    },
                    None => Seq::empty(),
                }
            }
        },
    }
}

/// Whether `steps` take `cid`.
fn step_takes(steps: &Vec<ArmStep>, cid: u16) -> (found: bool)
    ensures
        found == takes_cid(steps@, cid),
{
    let mut i: usize = 0;
    while i < steps.len()
        invariant
            i <= steps@.len(),
            forall|k: int| 0 <= k < i ==> (#[trigger] steps@[k]).cid != cid,
        decreases steps@.len() - i,
    {
        if steps[i].cid == cid {
            assert(steps@[i as int].cid == cid);
            return true;
        }
        i = i + 1;
    }
    false
}

/// The steps that take controls with pointer movement.
fn plan_gestures(spec: &CaptureSpec, controls: &Vec<CtrlIdInfo>) -> (steps: Vec<ArmStep>)
    ensures
        steps@ == gesture_plan(*spec, controls@),
{
    let mut steps: Vec<ArmStep> = Vec::new();
    let ghost source = pick_source(controls@);
    let ghost button = pick_gesture_button(controls@);
    let mut i: usize = 0;
    while i < spec.divert_gesture_sources.len()
        invariant
            i <= spec.divert_gesture_sources@.len(),
            source == pick_source(controls@),
            steps@ == gather(spec.divert_gesture_sources@.take(i as int), source),
        decreases spec.divert_gesture_sources@.len() - i,
    {
        proof {
            lemma_gather_next(spec.divert_gesture_sources@, i as int, source);
        }
        let cid: u16 = spec.divert_gesture_sources[i];
        if control_exposes(controls, cid, false, true) {
            steps.push(ArmStep { cid, raw_xy: true, role: ArmRole::GestureSource });
        }
        i = i + 1;
    }
    assert(spec.divert_gesture_sources@.take(i as int) =~= spec.divert_gesture_sources@);
    let ghost sources = steps@;
    let mut j: usize = 0;
    assert(sources + gather(spec.divert_gesture_buttons@.take(0), button) =~= sources);
    while j < spec.divert_gesture_buttons.len()
        invariant
            j <= spec.divert_gesture_buttons@.len(),
            button == pick_gesture_button(controls@),
            steps@ == sources + gather(spec.divert_gesture_buttons@.take(j as int), button),
        decreases spec.divert_gesture_buttons@.len() - j,
    {
        proof {
            lemma_gather_next(spec.divert_gesture_buttons@, j as int, button);
        }
        let (cid, id) = spec.divert_gesture_buttons[j];
        if control_captures(controls, cid) {
            steps.push(ArmStep { cid, raw_xy: true, role: ArmRole::GestureButton(id) });
        }
        assert(steps@ =~= sources + gather(spec.divert_gesture_buttons@.take(j + 1), button));
        j = j + 1;
    }
    assert(spec.divert_gesture_buttons@.take(j as int) =~= spec.divert_gesture_buttons@);
    steps
}

/// Whether `cid` is asked for as the gesturing DPI button.
fn asks_dpi_gesture(spec: &CaptureSpec, cid: u16) -> (asked: bool)
    ensures
        asked == gestures_as_dpi(spec.divert_gesture_buttons@, cid),
{
    let mut i: usize = 0;
    while i < spec.divert_gesture_buttons.len()
        invariant
            i <= spec.divert_gesture_buttons@.len(),
            forall|k: int|
                0 <= k < i ==> spec.divert_gesture_buttons@[k] != (cid, ButtonId::DpiToggle),
        decreases spec.divert_gesture_buttons@.len() - i,
    {
        if spec.divert_gesture_buttons[i].0 == cid && spec.divert_gesture_buttons[i].1
            == ButtonId::DpiToggle {
            assert(spec.divert_gesture_buttons@[i as int] == (cid, ButtonId::DpiToggle));
            return true;
        }
        i = i + 1;
    }
    false
}

/// The steps that take everything but presenter buttons, in order.
pub fn plan_controls(spec: &CaptureSpec, controls: &Vec<CtrlIdInfo>) -> (steps: Vec<ArmStep>)
    ensures
        steps@ == control_plan(*spec, controls@),
{
    let gestures = plan_gestures(spec, controls);
    let mut steps = plan_gestures(spec, controls);
    let ghost taken = steps@;
    let ghost dpi = pick_dpi(controls@, spec.divert_gesture_buttons@);
    let ghost plain = pick_button(controls@, taken);
    let cids: Vec<u16> = vec![0x00c4u16, 0x00edu16, 0x00fdu16];
    assert(cids@ =~= dpi_cids_spec());
    let mut i: usize = 0;
    assert(taken + gather(cids@.take(0), dpi) =~= taken);
    while i < cids.len()
        invariant
            i <= cids@.len(),
            dpi == pick_dpi(controls@, spec.divert_gesture_buttons@),
            steps@ == taken + gather(cids@.take(i as int), dpi),
        decreases cids@.len() - i,
    {
        proof {
            lemma_gather_next(cids@, i as int, dpi);
        }
        let cid: u16 = cids[i];
        if !asks_dpi_gesture(spec, cid) && control_exposes(controls, cid, true, false) {
            steps.push(ArmStep { cid, raw_xy: false, role: ArmRole::Dpi });
        }
        assert(steps@ =~= taken + gather(cids@.take(i + 1), dpi));
        i = i + 1;
    }
    assert(cids@.take(i as int) =~= cids@);
    let ghost before = steps@;
    let mut j: usize = 0;
    assert(before + gather(spec.divert_buttons@.take(0), plain) =~= before);
    while j < spec.divert_buttons.len()
        invariant
            j <= spec.divert_buttons@.len(),
            gestures@ == taken,
            plain == pick_button(controls@, taken),
            steps@ == before + gather(spec.divert_buttons@.take(j as int), plain),
        decreases spec.divert_buttons@.len() - j,
    {
        proof {
            lemma_gather_next(spec.divert_buttons@, j as int, plain);
        }
        let (cid, id) = spec.divert_buttons[j];
        if !step_takes(&gestures, cid) && control_exposes(controls, cid, true, false) {
            steps.push(ArmStep { cid, raw_xy: false, role: ArmRole::Button(id) });
        }
        assert(steps@ =~= before + gather(spec.divert_buttons@.take(j + 1), plain));
        j = j + 1;
    }
    assert(spec.divert_buttons@.take(j as int) =~= spec.divert_buttons@);
    steps
}

/// The steps that take the presenter button `button`.
pub fn plan_presenter(
    rows: &Vec<PresenterRow>,
    button: ButtonId,
    controls: &Vec<CtrlIdInfo>,
    button_cids: &Vec<(u16, ButtonId)>,
) -> (steps: Vec<ArmStep>)
    ensures
        steps@ == presenter_plan(row_for(rows@, button), controls@, button_cids@),
{
    let mut steps: Vec<ArmStep> = Vec::new();
    let mut r: usize = 0;
    assert(rows@.skip(0) =~= rows@);
    while r < rows.len() && rows[r].button != button
        invariant
            r <= rows@.len(),
            row_for(rows@, button) == row_for(rows@.skip(r as int), button),
        decreases rows@.len() - r,
    {
        assert(rows@.skip(r as int).skip(1) =~= rows@.skip(r + 1));
        r = r + 1;
    }
    if r == rows.len() {
        return steps;
    }
    let row = &rows[r];
    assert(row_for(rows@, button) == Some(row@));
    if row.task_ids.len() == 0 {
        return steps;
    }
    let mut i: usize = 0;
    while i < controls.len()
        invariant
            i <= controls@.len(),
            steps@ == serving(row@, controls@.take(i as int), button_cids@),
        decreases controls@.len() - i,
    {
        assert(controls@.take(i + 1).drop_last() =~= controls@.take(i as int));
        let control = controls[i];
        if holds(&row.task_ids, control.task_id) && control.is_divertable() && (!row.raw_xy
            || control.supports_raw_xy()) && !find_cid(button_cids, control.cid) && !step_takes(
            &steps,
            control.cid,
        ) {
            steps.push(
                ArmStep {
                    cid: control.cid,
                    raw_xy: row.raw_xy,
                    role: ArmRole::Button(row.button),
                },
            );
        }
        i = i + 1;
    }
    assert(controls@.take(i as int) =~= controls@);
    if steps.len() == 0 {
        if let Some(cid) = row.hold_cid {
            if !find_cid(button_cids, cid) {
                steps.push(
                    ArmStep { cid, raw_xy: true, role: ArmRole::PresenterHold(row.button) },
                );
            }
        }
    }
    assert(steps@ =~= presenter_plan(row_for(rows@, button), controls@, button_cids@));
    steps
}

/// What an arming session waits for.
#[derive(Clone, Copy, Debug, PartialEq, Eq, Structural)]
pub enum ArmPhase {
    /// Where the device keeps its reprogrammable controls.
    FindReprog,
    /// How many controls it lists.
    CountControls(u8),
    /// The next of this many controls.
    ReadControls(u8, u8),
    /// How the control of the current step reports.
    ReadReporting,
    /// The write that takes the control of the current step.
    WriteReporting(CidReportingChange),
    /// The write that takes the stand-in of the current step.
    WriteHold,
    /// Where the device keeps its thumb wheel.
    FindThumbwheel,
    /// What the device says of its thumb wheel.
    ReadThumbwheel(u8),
    /// The write that takes the thumb wheel.
    DivertThumbwheel,
    /// Nothing: everything is taken.
    Armed,
    /// Nothing: a call failed.
    Failed,
}

/// The call an arming session needs next.
#[derive(Clone, Copy, Debug, PartialEq, Eq, Structural)]
pub enum ArmAsk {
    /// Where the device keeps a feature.
    FindFeature(u16),
    /// How many controls the device lists.
    CountControls,
    /// The control with this number.
    ReadControl(u8),
    /// How a control reports.
    ReadReporting(u16),
    /// A change to how a control reports.
    WriteReporting(u16, CidReportingChange),
    /// What the device says of its thumb wheel.
    ReadThumbwheel,
    /// Taking the thumb wheel.
    DivertThumbwheel(WheelDirection),
    /// None: everything is taken.
    Armed,
    /// None: a call failed.
    Failed,
}

/// The reply to a call.
#[derive(Clone, Copy, Debug, PartialEq, Eq, Structural)]
pub enum ArmAnswer {
    /// Where the device keeps the feature, if it has it.
    Feature(Option<u8>),
    /// How many controls the device lists.
    Count(u8),
    /// A control.
    Control(CtrlIdInfo),
    /// How a control reports.
    Reporting(CidReporting),
    /// The write was taken.
    Written,
    /// What the device says of its thumb wheel.
    Thumbwheel(ThumbwheelInfo),
    /// The call failed.
    Failed,
}

/// An arming session as values.
pub struct ArmModel {
    /// What is to be captured.
    pub spec: CaptureSpec,
    /// The controls the device listed so far.
    pub controls: Seq<CtrlIdInfo>,
    /// What was taken so far.
    pub armed: ArmedModel,
    /// The steps at hand.
    pub queue: Seq<ArmStep>,
    /// How many of them are done.
    pub at: int,
    /// How many presenter buttons were planned.
    pub presenters: int,
    /// What the session waits for.
    pub phase: ArmPhase,
}

impl ArmModel {
    /// The session in another phase.
    pub open spec fn in_phase(self, phase: ArmPhase) -> ArmModel {
        ArmModel { phase, ..self }
    }

    /// The session once no reprogrammable control is left to take.
    pub open spec fn to_thumbwheel(self) -> ArmModel {
        self.in_phase(
            if self.spec.capture_thumbwheel {
                ArmPhase::FindThumbwheel
            } else {
                ArmPhase::Armed
            },
        )
    }

    /// The session at its next step: the steps at hand, then those of the next
    /// presenter button that has any, then the thumb wheel.
    pub open spec fn resumed(self) -> ArmModel
        decreases self.spec.divert_presenter_buttons@.len() - self.presenters,
    {
        if 0 <= self.at < self.queue.len() {
            self.in_phase(
                if self.queue[self.at].role is PresenterHold {
                    ArmPhase::WriteHold
                } else {
                    ArmPhase::ReadReporting
                },
            )
        } else if 0 <= self.presenters < self.spec.divert_presenter_buttons@.len() {
            (ArmModel {
                queue: presenter_plan(
                    row_for(
                        self.spec.presenter_rows@,
                        self.spec.divert_presenter_buttons@[self.presenters],
                    ),
                    self.controls,
                    self.armed.button_cids,
                ),
                at: 0,
                presenters: self.presenters + 1,
                ..self
            }).resumed()
        } else {
            self.to_thumbwheel()
        }
    }

    /// The session once the device listed all its controls.
    pub open spec fn enumerated(self, feature_index: u8) -> ArmModel {
        (ArmModel {
            armed: ArmedModel { reprog: Some(feature_index), ..self.armed },
            queue: control_plan(self.spec, self.controls),
            at: 0,
            presenters: 0,
            ..self
        }).resumed()
    }

    /// The session once the current step is done.
    pub open spec fn step_done(self, armed: ArmedModel) -> ArmModel {
        (ArmModel { armed, at: self.at + 1, ..self }).resumed()
    }

    /// What a reply does. A reply to something else changes nothing.
    pub open spec fn step(self, answer: ArmAnswer) -> ArmModel {
        match (self.phase, answer) {
            (ArmPhase::FindReprog, ArmAnswer::Feature(None)) => self.to_thumbwheel(),
            (ArmPhase::FindReprog, ArmAnswer::Feature(Some(index))) => self.in_phase(
                ArmPhase::CountControls(index),
            ),
            (ArmPhase::CountControls(index), ArmAnswer::Count(count)) => if count == 0 {
                self.enumerated(index)
            } else {
                self.in_phase(ArmPhase::ReadControls(index, count))
            },
            (ArmPhase::ReadControls(index, count), ArmAnswer::Control(info)) => {
                let read = ArmModel { controls: self.controls.push(info), ..self };
                if read.controls.len() >= count {
                    read.enumerated(index)
                } else {
                    read
                }
            },
            (ArmPhase::ReadReporting, ArmAnswer::Reporting(original)) => (ArmModel {
                armed: ArmedModel {
                    reporting: self.armed.reporting.push(
                        ArmedReporting { cid: self.queue[self.at].cid, original },
                    ),
                    ..self.armed
                },
                ..self
            }).in_phase(
                ArmPhase::WriteReporting(divert_spec(original, self.queue[self.at].raw_xy)),
            ),
            (ArmPhase::WriteReporting(_), ArmAnswer::Written) => self.step_done(
                self.armed.with_step(self.queue[self.at]),
            ),
            (ArmPhase::WriteHold, ArmAnswer::Written) => self.step_done(
                self.armed.with_step(self.queue[self.at]),
            ),
            (ArmPhase::WriteHold, ArmAnswer::Failed) => self.step_done(self.armed),
            (ArmPhase::FindThumbwheel, ArmAnswer::Feature(None)) => self.in_phase(
                ArmPhase::Armed,
            ),
            (ArmPhase::FindThumbwheel, ArmAnswer::Feature(Some(index))) => self.in_phase(
                ArmPhase::ReadThumbwheel(index),
            ),
            (ArmPhase::ReadThumbwheel(index), ArmAnswer::Thumbwheel(info)) => (ArmModel {
                armed: ArmedModel {
                    thumb: Some(ArmedThumbwheel { feature_index: index, info: Some(info) }),
                    ..self.armed
                },
                ..self
            }).in_phase(ArmPhase::DivertThumbwheel),
            (ArmPhase::ReadThumbwheel(index), ArmAnswer::Failed) => (ArmModel {
                armed: ArmedModel {
                    thumb: Some(
                        ArmedThumbwheel { feature_index: index, info: None::<ThumbwheelInfo> },
                    ),
                    ..self.armed
                },
                ..self
            }).in_phase(ArmPhase::DivertThumbwheel),
            (ArmPhase::DivertThumbwheel, ArmAnswer::Written) => self.in_phase(ArmPhase::Armed),
            (ArmPhase::Armed, _) => self,
            (ArmPhase::Failed, _) => self,
            (_, ArmAnswer::Failed) => self.in_phase(ArmPhase::Failed),
            _ => self,
        }
    }

    /// The call the session needs next.
    pub open spec fn asks(self) -> ArmAsk {
        match self.phase {
            ArmPhase::FindReprog => ArmAsk::FindFeature(REPROG_FEATURE_ID),
            ArmPhase::CountControls(_) => ArmAsk::CountControls,
            ArmPhase::ReadControls(_, _) => ArmAsk::ReadControl(self.controls.len() as u8),
            ArmPhase::ReadReporting => ArmAsk::ReadReporting(self.queue[self.at].cid),
            ArmPhase::WriteReporting(change) => ArmAsk::WriteReporting(
                self.queue[self.at].cid,
                change,
            ),
            ArmPhase::WriteHold => ArmAsk::WriteReporting(self.queue[self.at].cid, hold_change()),
            ArmPhase::FindThumbwheel => ArmAsk::FindFeature(THUMBWHEEL_FEATURE_ID),
            ArmPhase::ReadThumbwheel(_) => ArmAsk::ReadThumbwheel,
            ArmPhase::DivertThumbwheel => ArmAsk::DivertThumbwheel(
                match self.armed.thumb {
                    Some(thumb) => thumb.direction_spec(),
                    None => WheelDirection::Default,
                },
            ),
            ArmPhase::Armed => ArmAsk::Armed,
            ArmPhase::Failed => ArmAsk::Failed,
        }
    }

    /// What always holds: a phase that works on a step has one, and the control
    /// table is read up to its count.
    pub open spec fn valid(self) -> bool {
        &&& 0 <= self.presenters <= self.spec.divert_presenter_buttons@.len()
        &&& 0 <= self.at <= self.queue.len()
        &&& (self.phase is ReadReporting || self.phase is WriteReporting || self.phase is WriteHold)
            ==> self.at < self.queue.len()
        &&& self.phase matches ArmPhase::ReadControls(index, count) ==> self.controls.len() < count
        &&& self.phase is WriteReporting ==> self.armed.reporting.len() > 0
            && self.armed.reporting.last().cid == self.queue[self.at].cid
        &&& (self.phase is FindReprog || self.phase is CountControls) ==> self.controls.len() == 0
    }
}

/// The change that takes the stand-in of a presenter button.
pub open spec fn hold_change() -> CidReportingChange {
    CidReportingChange { diverted: Some(true), raw_xy: Some(true), remap: None }
}

/// A session that takes a device's controls.
#[derive(Debug)]
pub struct Arming {
    spec: CaptureSpec,
    controls: Vec<CtrlIdInfo>,
    armed: ArmedControls,
    queue: Vec<ArmStep>,
    at: usize,
    presenters: usize,
    phase: ArmPhase,
}

impl View for Arming {
    type V = ArmModel;

    closed spec fn view(&self) -> ArmModel {
        ArmModel {
            spec: self.spec,
            controls: self.controls@,
            armed: self.armed@,
            queue: self.queue@,
            at: self.at as int,
            presenters: self.presenters as int,
            phase: self.phase,
        }
    }
}

impl Arming {
    /// A session that has taken nothing yet.
    pub fn new(spec: CaptureSpec) -> (session: Arming)
        ensures
            session@ == (ArmModel {
                spec,
                controls: Seq::empty(),
                armed: nothing_armed(),
                queue: Seq::empty(),
                at: 0,
                presenters: 0,
                phase: ArmPhase::FindReprog,
            }),
            session@.valid(),
    {
        Arming {
            spec,
            controls: Vec::new(),
            armed: ArmedControls::default(),
            queue: Vec::new(),
            at: 0,
            presenters: 0,
            phase: ArmPhase::FindReprog,
        }
    }

    /// What was taken so far.
    pub fn armed(&self) -> (armed: &ArmedControls)
        ensures
            armed@ == self@.armed,
    {
        &self.armed
    }

    /// What was taken, once the session is over.
    pub fn into_armed(self) -> (armed: ArmedControls)
        ensures
            armed@ == self@.armed,
    {
        self.armed
    }

    /// The call the session needs next.
    pub fn ask(&self) -> (ask: ArmAsk)
        requires
            self@.valid(),
        ensures
            ask == self@.asks(),
    {
        match self.phase {
            ArmPhase::FindReprog => ArmAsk::FindFeature(REPROG_FEATURE_ID),
            ArmPhase::CountControls(_) => ArmAsk::CountControls,
            ArmPhase::ReadControls(_, _) => ArmAsk::ReadControl(self.controls.len() as u8),
            ArmPhase::ReadReporting => ArmAsk::ReadReporting(self.queue[self.at].cid),
            ArmPhase::WriteReporting(change) => ArmAsk::WriteReporting(
                self.queue[self.at].cid,
                change,
            ),
            ArmPhase::WriteHold => ArmAsk::WriteReporting(
                self.queue[self.at].cid,
                CidReportingChange { diverted: Some(true), raw_xy: Some(true), remap: None },
            ),
            ArmPhase::FindThumbwheel => ArmAsk::FindFeature(THUMBWHEEL_FEATURE_ID),
            ArmPhase::ReadThumbwheel(_) => ArmAsk::ReadThumbwheel,
            ArmPhase::DivertThumbwheel => ArmAsk::DivertThumbwheel(
                match self.armed.thumb {
                    Some(thumb) => thumb.direction(),
                    None => WheelDirection::Default,
                },
            ),
            ArmPhase::Armed => ArmAsk::Armed,
            ArmPhase::Failed => ArmAsk::Failed,
        }
    }

    fn go_to_thumbwheel(&mut self)
        ensures
            final(self)@ == old(self)@.to_thumbwheel(),
    {
        self.phase = if self.spec.capture_thumbwheel {
            ArmPhase::FindThumbwheel
        } else {
            ArmPhase::Armed
        };
    }

    fn resume(&mut self)
        requires
            0 <= old(self)@.presenters <= old(self)@.spec.divert_presenter_buttons@.len(),
            0 <= old(self)@.at <= old(self)@.queue.len(),
        ensures
            final(self)@ == old(self)@.resumed(),
            final(self)@.valid(),
    {
        let ghost start = self@;
        loop
            invariant
                start == old(self)@,
                self@.resumed() == start.resumed(),
                0 <= self@.presenters <= self@.spec.divert_presenter_buttons@.len(),
                0 <= self@.at <= self@.queue.len(),
            decreases self.spec.divert_presenter_buttons@.len() - self.presenters,
        {
            if self.at < self.queue.len() {
                self.phase = match self.queue[self.at].role {
                    ArmRole::PresenterHold(_) => ArmPhase::WriteHold,
                    _ => ArmPhase::ReadReporting,
                };
                return;
            }
            if self.presenters < self.spec.divert_presenter_buttons.len() {
                let button = self.spec.divert_presenter_buttons[self.presenters];
                self.queue = plan_presenter(
                    &self.spec.presenter_rows,
                    button,
                    &self.controls,
                    &self.armed.button_cids,
                );
                self.at = 0;
                self.presenters = self.presenters + 1;
            } else {
                self.go_to_thumbwheel();
                return;
            }
        }
    }

    fn enumerate_done(&mut self, feature_index: u8)
        ensures
            final(self)@ == old(self)@.enumerated(feature_index),
            final(self)@.valid(),
    {
        self.armed.reprog = Some(feature_index);
        self.queue = plan_controls(&self.spec, &self.controls);
        self.at = 0;
        self.presenters = 0;
        self.resume();
    }

    fn record(&mut self, step: ArmStep)
        ensures
            final(self)@ == (ArmModel {
                armed: old(self)@.armed.with_step(step),
                ..old(self)@
            }),
    {
        match step.role {
            ArmRole::GestureSource => {
                self.armed.gesture_cids.push(step.cid);
            },
            ArmRole::GestureButton(button) => {
                self.armed.gesture_button_cids.push((step.cid, button));
            },
            ArmRole::Dpi => {
                self.armed.dpi_cids.push(step.cid);
            },
            ArmRole::Button(button) => {
                self.armed.button_cids.push((step.cid, button));
            },
            ArmRole::PresenterHold(button) => {
                self.armed.presenter_hold_cids.push(step.cid);
                self.armed.button_cids.push((step.cid, button));
            },
        }
    }

    /// Takes a reply.
    pub fn step(&mut self, answer: ArmAnswer)
        requires
            old(self)@.valid(),
        ensures
            final(self)@ == old(self)@.step(answer),
            final(self)@.valid(),
    {
        match (self.phase, answer) {
            (ArmPhase::FindReprog, ArmAnswer::Feature(found)) => match found {
                None => {
                    self.go_to_thumbwheel();
                },
                Some(index) => {
                    self.phase = ArmPhase::CountControls(index);
                },
            },
            (ArmPhase::CountControls(index), ArmAnswer::Count(count)) => {
                if count == 0 {
                    self.enumerate_done(index);
                } else {
                    self.phase = ArmPhase::ReadControls(index, count);
                }
            },
            (ArmPhase::ReadControls(index, count), ArmAnswer::Control(info)) => {
                self.controls.push(info);
                if self.controls.len() >= count as usize {
                    self.enumerate_done(index);
                }
            },
            (ArmPhase::ReadReporting, ArmAnswer::Reporting(original)) => {
                let step = self.queue[self.at];
                self.armed.reporting.push(ArmedReporting { cid: step.cid, original });
                self.phase = ArmPhase::WriteReporting(divert_change(original, step.raw_xy));
            },
            (ArmPhase::WriteReporting(_), ArmAnswer::Written) => {
                let step = self.queue[self.at];
                assert(self.at < self.queue.len());
                let next: usize = self.at + 1;
                self.record(step);
                self.at = next;
                self.resume();
            },
            (ArmPhase::WriteHold, ArmAnswer::Written) => {
                let step = self.queue[self.at];
                assert(self.at < self.queue.len());
                let next: usize = self.at + 1;
                self.record(step);
                self.at = next;
                self.resume();
            },
            (ArmPhase::WriteHold, ArmAnswer::Failed) => {
                assert(self.at < self.queue.len());
                self.at = self.at + 1;
                self.resume();
            },
            (ArmPhase::FindThumbwheel, ArmAnswer::Feature(found)) => match found {
                None => {
                    self.phase = ArmPhase::Armed;
                },
                Some(index) => {
                    self.phase = ArmPhase::ReadThumbwheel(index);
                },
            },
            (ArmPhase::ReadThumbwheel(index), ArmAnswer::Thumbwheel(info)) => {
                self.armed.thumb = Some(ArmedThumbwheel { feature_index: index, info: Some(info) });
                self.phase = ArmPhase::DivertThumbwheel;
            },
            (ArmPhase::ReadThumbwheel(index), ArmAnswer::Failed) => {
                self.armed.thumb = Some(ArmedThumbwheel { feature_index: index, info: None });
                self.phase = ArmPhase::DivertThumbwheel;
            },
            (ArmPhase::DivertThumbwheel, ArmAnswer::Written) => {
                self.phase = ArmPhase::Armed;
            },
            (ArmPhase::Armed, _) => {},
            (ArmPhase::Failed, _) => {},
            (_, ArmAnswer::Failed) => {
                self.phase = ArmPhase::Failed;
            },
            _ => {},
        }
    }
}

/// One write that takes something again.
#[derive(Clone, Copy, Debug, PartialEq, Eq, Structural)]
pub enum RearmWrite {
    /// Takes a control.
    Reporting {
        /// The control.
        cid: u16,
        /// The change.
        change: CidReportingChange,
    },
    /// Takes the thumb wheel.
    Thumbwheel(WheelDirection),
}

/// Whether presenter rows take `button` together with pointer movement.
pub open spec fn needs_raw_xy(rows: Seq<PresenterRow>, button: ButtonId) -> bool {
    row_for(rows, button) matches Some(row) && row.raw_xy
}

/// Whether presenter rows take `button` together with pointer movement.
pub fn presenter_button_needs_raw_xy(rows: &Vec<PresenterRow>, button: ButtonId) -> (needs: bool)
    ensures
        needs == needs_raw_xy(rows@, button),
{
    let mut r: usize = 0;
    assert(rows@.skip(0) =~= rows@);
    while r < rows.len()
        invariant
            r <= rows@.len(),
            row_for(rows@, button) == row_for(rows@.skip(r as int), button),
        decreases rows@.len() - r,
    {
        if rows[r].button == button {
            return rows[r].raw_xy;
        }
        assert(rows@.skip(r as int).skip(1) =~= rows@.skip(r + 1));
        r = r + 1;
    }
    false
}

/// Whether `cid` was taken together with pointer movement.
pub open spec fn taken_with_movement(
    armed: ArmedModel,
    rows: Seq<PresenterRow>,
    cid: u16,
) -> bool {
    ||| armed.gesture_cids.contains(cid)
    ||| names_cid(armed.gesture_button_cids, cid)
    ||| exists|i: int|
        0 <= i < armed.button_cids.len() && (#[trigger] armed.button_cids[i]).0 == cid
            && needs_raw_xy(rows, armed.button_cids[i].1)
}

/// The writes that take everything again.
pub open spec fn rearm_writes(armed: ArmedModel, rows: Seq<PresenterRow>) -> Seq<RearmWrite> {
    let controls = if armed.reprog is Some {
        Seq::new(
            armed.reporting.len(),
            |i: int|
                RearmWrite::Reporting {
                    cid: armed.reporting[i].cid,
                    change: divert_spec(
                        armed.reporting[i].original,
                        taken_with_movement(armed, rows, armed.reporting[i].cid),
                    ),
                },
        ) + Seq::new(
            armed.presenter_hold_cids.len(),
            |i: int|
                RearmWrite::Reporting {
                    cid: armed.presenter_hold_cids[i],
                    change: hold_change(),
                },
        )
    } else {
        Seq::empty()
    };
    match armed.thumb {
        Some(thumb) => controls.push(RearmWrite::Thumbwheel(thumb.direction_spec())),
        None => controls,
    }
}

impl ArmedControls {
    /// Whether a positive count of the thumb wheel is a turn away from the user,
    /// once the device said so.
    pub fn thumbwheel_direction(&self) -> (positive_is_forward: Option<bool>)
        ensures
            positive_is_forward == match self@.thumb {
                Some(thumb) => match thumb.info {
                    Some(info) => Some(info.positive_is_forward),
                    None => None,
                },
                None => None,
            },
    {
        match self.thumb {
            Some(thumb) => match thumb.info {
                Some(info) => Some(info.positive_is_forward),
                None => None,
            },
            None => None,
        }
    }

    /// Everything taken through the channel `retired`, as the one restore that can
    /// release it.
    pub fn into_pending(self, retired: u64) -> (pending: Option<PendingCaptureRestore>)
        ensures
            match pending {
                Some(pending) => {
                    let p = pending.plan;
                    &&& pending.retired == retired
                    &&& !pending.allow_current_channel
                    &&& p.thumb_index == match self@.thumb {
                        Some(thumb) => Some(thumb.feature_index),
                        None => None,
                    }
                    &&& match p.reprog {
                        Some(r) => self@.reprog == Some(r.feature_index) && r.items@
                            == restore_items(self@.reporting, self@.presenter_hold_cids)
                            && r.items@.len() > 0,
                        None => self@.reprog is None || (self@.reporting.len() == 0
                            && self@.presenter_hold_cids.len() == 0),
                    }
                    &&& p.reprog is Some || p.thumb_index is Some
                },
                None => self@.thumb is None && (self@.reprog is None || (self@.reporting.len() == 0
                    && self@.presenter_hold_cids.len() == 0)),
            },
    {
        let reprog = match self.reprog {
            Some(index) => ReprogRestore::with_undivert_cids(
                index,
                &self.reporting,
                &self.presenter_hold_cids,
            ),
            None => None,
        };
        let thumb_index = match self.thumb {
            Some(thumb) => Some(thumb.feature_index),
            None => None,
        };
        PendingCaptureRestore::new(retired, reprog, thumb_index)
    }

    /// Whether nothing was taken, so that the session has nothing to do.
    pub fn is_idle(&self) -> (idle: bool)
        ensures
            idle == (self@.gesture_cids.len() == 0 && self@.gesture_button_cids.len() == 0
                && self@.dpi_cids.len() == 0 && self@.button_cids.len() == 0
                && self@.presenter_hold_cids.len() == 0 && self@.thumb is None),
    {
        self.gesture_cids.len() == 0 && self.gesture_button_cids.len() == 0 && self.dpi_cids.len()
            == 0 && self.button_cids.len() == 0 && self.presenter_hold_cids.len() == 0
            && self.thumb.is_none()
    }

    fn took_with_movement(&self, rows: &Vec<PresenterRow>, cid: u16) -> (movement: bool)
        ensures
            movement == taken_with_movement(self@, rows@, cid),
    {
        if holds(&self.gesture_cids, cid) || find_cid(&self.gesture_button_cids, cid) {
            return true;
        }
        let mut i: usize = 0;
        while i < self.button_cids.len()
            invariant
                i <= self.button_cids@.len(),
                forall|k: int|
                    0 <= k < i ==> !((#[trigger] self.button_cids@[k]).0 == cid && needs_raw_xy(
                        rows@,
                        self.button_cids@[k].1,
                    )),
            decreases self.button_cids@.len() - i,
        {
            let (taken, button) = self.button_cids[i];
            if taken == cid && presenter_button_needs_raw_xy(rows, button) {
                assert(self@.button_cids[i as int].0 == cid);
                return true;
            }
            i = i + 1;
        }
        false
    }

    /// The writes that take everything again after the device lost it, each to
    /// be tried whatever the others come to.
    pub fn rearm(&self, rows: &Vec<PresenterRow>) -> (writes: Vec<RearmWrite>)
        ensures
            writes@ == rearm_writes(self@, rows@),
    {
        let mut writes: Vec<RearmWrite> = Vec::new();
        if self.reprog.is_some() {
            let mut i: usize = 0;
            while i < self.reporting.len()
                invariant
                    i <= self.reporting@.len(),
                    writes@ == Seq::new(
                        i as nat,
                        |k: int|
                            RearmWrite::Reporting {
                                cid: self@.reporting[k].cid,
                                change: divert_spec(
                                    self@.reporting[k].original,
                                    taken_with_movement(self@, rows@, self@.reporting[k].cid),
                                ),
                            },
                    ),
                decreases self.reporting@.len() - i,
            {
                let reporting = self.reporting[i];
                let raw_xy = self.took_with_movement(rows, reporting.cid);
                writes.push(
                    RearmWrite::Reporting {
                        cid: reporting.cid,
                        change: divert_change(reporting.original, raw_xy),
                    },
                );
                assert(writes@ =~= Seq::new(
                    (i + 1) as nat,
                    |k: int|
                        RearmWrite::Reporting {
                            cid: self@.reporting[k].cid,
                            change: divert_spec(
                                self@.reporting[k].original,
                                taken_with_movement(self@, rows@, self@.reporting[k].cid),
                            ),
                        },
                ));
                i = i + 1;
            }
            let ghost read = writes@;
            let mut j: usize = 0;
            while j < self.presenter_hold_cids.len()
                invariant
                    j <= self.presenter_hold_cids@.len(),
                    writes@ == read + Seq::new(
                        j as nat,
                        |k: int|
                            RearmWrite::Reporting {
                                cid: self@.presenter_hold_cids[k],
                                change: hold_change(),
                            },
                    ),
                decreases self.presenter_hold_cids@.len() - j,
            {
                writes.push(
                    RearmWrite::Reporting {
                        cid: self.presenter_hold_cids[j],
                        change: CidReportingChange {
                            diverted: Some(true),
                            raw_xy: Some(true),
                            remap: None,
                        },
                    },
                );
                assert(writes@ =~= read + Seq::new(
                    (j + 1) as nat,
                    |k: int|
                        RearmWrite::Reporting {
                            cid: self@.presenter_hold_cids[k],
                            change: hold_change(),
                        },
                ));
                j = j + 1;
            }
        }
        if let Some(thumb) = self.thumb {
            writes.push(RearmWrite::Thumbwheel(thumb.direction()));
        }
        assert(writes@ =~= rearm_writes(self@, rows@));
        writes
    }
}

/// A DPI or mode-shift control that is asked for with gestures is never taken as
/// a plain DPI button, and a control that is taken with movement is never taken
/// again as a plain button: a plain write would strip the movement reporting.
pub proof fn law_plain_capture_never_strips_movement(
    spec: CaptureSpec,
    controls: Seq<CtrlIdInfo>,
    i: int,
)
    requires
        0 <= i < control_plan(spec, controls).len(),
    ensures
        control_plan(spec, controls)[i].role == ArmRole::Dpi ==> !gestures_as_dpi(
            spec.divert_gesture_buttons@,
            control_plan(spec, controls)[i].cid,
        ),
        control_plan(spec, controls)[i].role is Button ==> !takes_cid(
            gesture_plan(spec, controls),
            control_plan(spec, controls)[i].cid,
        ),
        control_plan(spec, controls)[i].raw_xy == (control_plan(spec, controls)[i].role
            == ArmRole::GestureSource || control_plan(spec, controls)[i].role is GestureButton),
{
    let gestures = gesture_plan(spec, controls);
    let dpi_pick = pick_dpi(controls, spec.divert_gesture_buttons@);
    let plain_pick = pick_button(controls, gestures);
    let dpi = gather(dpi_cids_spec(), dpi_pick);
    let plain = gather(spec.divert_buttons@, plain_pick);
    let sources = gather(spec.divert_gesture_sources@, pick_source(controls));
    let buttons = gather(spec.divert_gesture_buttons@, pick_gesture_button(controls));
    if i < sources.len() {
        lemma_gathered(spec.divert_gesture_sources@, pick_source(controls), i);
    } else if i < gestures.len() {
        lemma_gathered(
            spec.divert_gesture_buttons@,
            pick_gesture_button(controls),
            i - sources.len(),
        );
    } else if i < gestures.len() + dpi.len() {
        lemma_gathered(dpi_cids_spec(), dpi_pick, i - gestures.len());
    } else {
        lemma_gathered(spec.divert_buttons@, plain_pick, i - gestures.len() - dpi.len());
    }
}

proof fn lemma_gathered<T>(items: Seq<T>, pick: spec_fn(T) -> Option<ArmStep>, i: int)
    requires
        0 <= i < gather(items, pick).len(),
    ensures
        exists|item: T| items.contains(item) && #[trigger] pick(item) == Some(gather(items, pick)[i]),
    decreases items.len(),
{
    let last = items.last();
    let head = items.drop_last();
    assert(items[items.len() - 1] == last);
    if pick(last) is Some && i == gather(head, pick).len() {
        assert(items.contains(last));
    } else {
        lemma_gathered(head, pick, i);
        let item = choose|item: T|
            head.contains(item) && #[trigger] pick(item) == Some(gather(head, pick)[i]);
        let k = choose|k: int| 0 <= k < head.len() && head[k] == item;
        assert(items[k] == item);
        assert(items.contains(item));
    }
}

/// Every control whose capture may have reached the firmware can be handed back:
/// while its write is under way, and ever after, its reporting is on record.
pub proof fn law_ownership_is_recorded_before_the_write(session: ArmModel, answer: ArmAnswer)
    requires
        session.valid(),
    ensures
        session.asks() matches ArmAsk::WriteReporting(cid, change) ==> session.phase is WriteHold
            || session.armed.reporting.last().cid == cid,
        forall|k: int|
            0 <= k < session.armed.reporting.len() ==> session.step(answer).armed.reporting.len() > k
                && session.step(answer).armed.reporting[k] == #[trigger] session.armed.reporting[k],
{
    match (session.phase, answer) {
        (ArmPhase::CountControls(index), ArmAnswer::Count(count)) => {
            if count == 0 {
                lemma_resumed_keeps_armed(
                    ArmModel {
                        armed: ArmedModel { reprog: Some(index), ..session.armed },
                        queue: control_plan(session.spec, session.controls),
                        at: 0,
                        presenters: 0,
                        ..session
                    },
                );
            }
        },
        (ArmPhase::ReadControls(index, count), ArmAnswer::Control(info)) => {
            let read = ArmModel { controls: session.controls.push(info), ..session };
            lemma_resumed_keeps_armed(
                ArmModel {
                    armed: ArmedModel { reprog: Some(index), ..read.armed },
                    queue: control_plan(read.spec, read.controls),
                    at: 0,
                    presenters: 0,
                    ..read
                },
            );
        },
        (ArmPhase::WriteReporting(_), ArmAnswer::Written) => {
            lemma_resumed_keeps_armed(
                ArmModel {
                    armed: session.armed.with_step(session.queue[session.at]),
                    at: session.at + 1,
                    ..session
                },
            );
        },
        (ArmPhase::WriteHold, ArmAnswer::Written) => {
            lemma_resumed_keeps_armed(
                ArmModel {
                    armed: session.armed.with_step(session.queue[session.at]),
                    at: session.at + 1,
                    ..session
                },
            );
        },
        (ArmPhase::WriteHold, ArmAnswer::Failed) => {
            lemma_resumed_keeps_armed(ArmModel { at: session.at + 1, ..session });
        },
        _ => {},
    }
}

proof fn lemma_resumed_keeps_armed(session: ArmModel)
    ensures
        session.resumed().armed == session.armed,
    decreases session.spec.divert_presenter_buttons@.len() - session.presenters,
{
    if 0 <= session.at < session.queue.len() {
    } else if 0 <= session.presenters < session.spec.divert_presenter_buttons@.len() {
        lemma_resumed_keeps_armed(
            ArmModel {
                queue: presenter_plan(
                    row_for(
                        session.spec.presenter_rows@,
                        session.spec.divert_presenter_buttons@[session.presenters],
                    ),
                    session.controls,
                    session.armed.button_cids,
                ),
                at: 0,
                presenters: session.presenters + 1,
                ..session
            },
        );
    }
}

/// Taking the controls again writes to exactly the controls on record, in the
/// mode in which they were taken and with their remap targets.
pub proof fn law_rearm_covers_what_is_owed(armed: ArmedModel, rows: Seq<PresenterRow>, i: int)
    requires
        armed.reprog is Some,
        0 <= i < armed.reporting.len(),
    ensures
        rearm_writes(armed, rows)[i] == (RearmWrite::Reporting {
            cid: armed.reporting[i].cid,
            change: CidReportingChange {
                diverted: Some(true),
                raw_xy: Some(taken_with_movement(armed, rows, armed.reporting[i].cid)),
                remap: armed.reporting[i].original.remap,
            },
        }),
{
}

} // verus!
