//! What arming a device takes, said of the device's own table and of what was
//! asked for.

use vstd::prelude::*;
use crate::binding::ButtonId;
use crate::device::arm::{
    control_plan, dpi_cids_spec, exposes, first_captures, gather, gesture_plan, needs_raw_xy,
    pick_button, pick_dpi, pick_gesture_button, pick_source, presenter_plan, rearm_writes, row_for,
    serving, takes_cid, taken_with_movement, ArmAnswer, ArmAsk, ArmModel, ArmPhase, ArmRole,
    ArmStep, ArmedModel, ArmedThumbwheel, CaptureSpec, PresenterRow, RearmWrite, RowModel,
    ThumbwheelInfo, WheelDirection,
};
use crate::device::capture_restore::ArmedReporting;
use crate::device::report::{CidReporting, CidReportingChange, CtrlIdInfo};

verus! {

/// Whether some row for `cid` carries the bit that lets its events go to the host.
pub open spec fn lists_divertable(controls: Seq<CtrlIdInfo>, cid: u16) -> bool {
    exists|k: int|
        0 <= k < controls.len() && (#[trigger] controls[k]).cid == cid && controls[k].flags & 0x20
            != 0
}

/// Whether some row for `cid` carries the bit that lets movement go to the host.
pub open spec fn lists_movement(controls: Seq<CtrlIdInfo>, cid: u16) -> bool {
    exists|k: int|
        0 <= k < controls.len() && (#[trigger] controls[k]).cid == cid
            && controls[k].additional_flags & 0x01 != 0
}

/// Whether the first row for `cid` carries both bits.
pub open spec fn first_row_has_both(controls: Seq<CtrlIdInfo>, cid: u16) -> bool {
    exists|k: int|
        0 <= k < controls.len() && (#[trigger] controls[k]).cid == cid && controls[k].flags & 0x20
            != 0 && controls[k].additional_flags & 0x01 != 0 && forall|j: int|
            0 <= j < k ==> (#[trigger] controls[j]).cid != cid
}

proof fn lemma_first_row(controls: Seq<CtrlIdInfo>, cid: u16)
    ensures
        first_captures(controls, cid) == first_row_has_both(controls, cid),
    decreases controls.len(),
{
    if controls.len() > 0 {
        let rest = controls.skip(1);
        if controls[0].cid == cid {
            if first_row_has_both(controls, cid) {
                let k = choose|k: int|
                    0 <= k < controls.len() && (#[trigger] controls[k]).cid == cid
                        && controls[k].flags & 0x20 != 0 && controls[k].additional_flags & 0x01 != 0
                        && forall|j: int| 0 <= j < k ==> (#[trigger] controls[j]).cid != cid;
                if k > 0 {
                    assert(controls[0].cid != cid);
                }
            }
        } else {
            lemma_first_row(rest, cid);
            if first_row_has_both(rest, cid) {
                let k = choose|k: int|
                    0 <= k < rest.len() && (#[trigger] rest[k]).cid == cid && rest[k].flags & 0x20
                        != 0 && rest[k].additional_flags & 0x01 != 0 && forall|j: int|
                        0 <= j < k ==> (#[trigger] rest[j]).cid != cid;
                assert(controls[k + 1] == rest[k]);
                assert forall|j: int| 0 <= j < k + 1 implies (#[trigger] controls[j]).cid != cid by {
                    if j > 0 {
                        assert(rest[j - 1] == controls[j]);
                    }
                }
            }
            if first_row_has_both(controls, cid) {
                let k = choose|k: int|
                    0 <= k < controls.len() && (#[trigger] controls[k]).cid == cid
                        && controls[k].flags & 0x20 != 0 && controls[k].additional_flags & 0x01 != 0
                        && forall|j: int| 0 <= j < k ==> (#[trigger] controls[j]).cid != cid;
                assert(rest[k - 1] == controls[k]);
                assert forall|j: int| 0 <= j < k - 1 implies (#[trigger] rest[j]).cid != cid by {
                    assert(controls[j + 1] == rest[j]);
                }
            }
        }
    }
}

proof fn lemma_gathered_from<T>(items: Seq<T>, pick: spec_fn(T) -> Option<ArmStep>, i: int)
    requires
        0 <= i < gather(items, pick).len(),
    ensures
        exists|k: int| 0 <= k < items.len() && pick(#[trigger] items[k]) == Some(
            gather(items, pick)[i],
        ),
    decreases items.len(),
{
    let last = items.last();
    let head = items.drop_last();
    if pick(last) is Some && i == gather(head, pick).len() {
        assert(pick(items[items.len() - 1]) == Some(gather(items, pick)[i]));
    } else {
        lemma_gathered_from(head, pick, i);
        let k = choose|k: int| 0 <= k < head.len() && pick(#[trigger] head[k]) == Some(
            gather(head, pick)[i],
        );
        assert(items[k] == head[k]);
    }
}

proof fn lemma_gathers<T>(items: Seq<T>, pick: spec_fn(T) -> Option<ArmStep>, k: int)
    requires
        0 <= k < items.len(),
        pick(items[k]) is Some,
    ensures
        gather(items, pick).contains(pick(items[k])->0),
    decreases items.len(),
{
    let head = items.drop_last();
    if k == items.len() - 1 {
        assert(gather(items, pick)[gather(head, pick).len() as int] == pick(items[k])->0);
    } else {
        assert(head[k] == items[k]);
        lemma_gathers(head, pick, k);
        let i = choose|i: int|
            0 <= i < gather(head, pick).len() && gather(head, pick)[i] == pick(items[k])->0;
        assert(gather(items, pick)[i] == pick(items[k])->0);
    }
}

/// The parts a plan is made of, in order.
pub open spec fn plan_parts(spec: CaptureSpec, controls: Seq<CtrlIdInfo>) -> (
    Seq<ArmStep>,
    Seq<ArmStep>,
    Seq<ArmStep>,
    Seq<ArmStep>,
) {
    (
        gather(spec.divert_gesture_sources@, pick_source(controls)),
        gather(spec.divert_gesture_buttons@, pick_gesture_button(controls)),
        gather(dpi_cids_spec(), pick_dpi(controls, spec.divert_gesture_buttons@)),
        gather(spec.divert_buttons@, pick_button(controls, gesture_plan(spec, controls))),
    )
}

proof fn lemma_plan(spec: CaptureSpec, controls: Seq<CtrlIdInfo>)
    ensures
        ({
            let (a, b, c, d) = plan_parts(spec, controls);
            control_plan(spec, controls) == a + b + c + d
        }),
{
}

/// Whether a control is asked for with movement and can have it: as a gesture
/// source, or as a button that gestures.
pub open spec fn takes_movement(spec: CaptureSpec, controls: Seq<CtrlIdInfo>, cid: u16) -> bool {
    ||| spec.divert_gesture_sources@.contains(cid) && lists_movement(controls, cid)
    ||| (exists|b: ButtonId| spec.divert_gesture_buttons@.contains((cid, b)))
        && first_row_has_both(controls, cid)
}

proof fn lemma_taken_with_movement(spec: CaptureSpec, controls: Seq<CtrlIdInfo>, cid: u16)
    ensures
        takes_cid(gesture_plan(spec, controls), cid) == takes_movement(spec, controls, cid),
{
    let plan = gesture_plan(spec, controls);
    let (a, b, c, d) = plan_parts(spec, controls);
    assert(plan == a + b);
    lemma_first_row(controls, cid);
    if takes_cid(plan, cid) {
        let i = choose|i: int| 0 <= i < plan.len() && (#[trigger] plan[i]).cid == cid;
        if i < a.len() {
            lemma_gathered_from(spec.divert_gesture_sources@, pick_source(controls), i);
            assert(spec.divert_gesture_sources@.contains(cid));
            let k = choose|k: int|
                0 <= k < controls.len() && (#[trigger] controls[k]).cid == cid && (false
                    ==> controls[k].divertable()) && (true ==> controls[k].raw_xy_capable());
            assert(lists_movement(controls, cid));
        } else {
            lemma_gathered_from(
                spec.divert_gesture_buttons@,
                pick_gesture_button(controls),
                i - a.len(),
            );
            let k = choose|k: int|
                0 <= k < spec.divert_gesture_buttons@.len() && pick_gesture_button(controls)(
                    #[trigger] spec.divert_gesture_buttons@[k],
                ) == Some(b[i - a.len()]);
            let pair = spec.divert_gesture_buttons@[k];
            assert(spec.divert_gesture_buttons@.contains((cid, pair.1)));
        }
    }
    if spec.divert_gesture_sources@.contains(cid) && lists_movement(controls, cid) {
        let k = choose|k: int|
            0 <= k < spec.divert_gesture_sources@.len() && spec.divert_gesture_sources@[k] == cid;
        let r = choose|r: int|
            0 <= r < controls.len() && (#[trigger] controls[r]).cid == cid
                && controls[r].additional_flags & 0x01 != 0;
        assert(exposes(controls, cid, false, true)) by {
            assert(controls[r].cid == cid && controls[r].raw_xy_capable());
        }
        lemma_gathers(spec.divert_gesture_sources@, pick_source(controls), k);
        let i = choose|i: int|
            0 <= i < a.len() && a[i] == (ArmStep {
                cid,
                raw_xy: true,
                role: ArmRole::GestureSource,
            });
        assert(plan[i].cid == cid);
    }
    if (exists|b: ButtonId| spec.divert_gesture_buttons@.contains((cid, b))) && first_row_has_both(
        controls,
        cid,
    ) {
        let id = choose|b: ButtonId| spec.divert_gesture_buttons@.contains((cid, b));
        let k = choose|k: int|
            0 <= k < spec.divert_gesture_buttons@.len() && spec.divert_gesture_buttons@[k] == (
                cid,
                id,
            );
        lemma_gathers(spec.divert_gesture_buttons@, pick_gesture_button(controls), k);
        let i = choose|i: int|
            0 <= i < b.len() && b[i] == (ArmStep {
                cid,
                raw_xy: true,
                role: ArmRole::GestureButton(id),
            });
        assert(plan[a.len() + i].cid == cid);
    }
}

/// Every step of a plan was asked for, in its role and as its button, and the
/// device lists the control with what the step needs. A control is taken with
/// movement as a gesture source or a button that gestures, and without it as a
/// DPI button or a plain one; a control that is taken with movement is never also
/// taken as a plain button, nor one that is to gesture as a plain DPI button.
pub proof fn law_every_step_was_asked_for(spec: CaptureSpec, controls: Seq<CtrlIdInfo>, i: int)
    requires
        0 <= i < control_plan(spec, controls).len(),
    ensures
        ({
            let step = control_plan(spec, controls)[i];
            match step.role {
                ArmRole::GestureSource => {
                    &&& step.raw_xy
                    &&& spec.divert_gesture_sources@.contains(step.cid)
                    &&& lists_movement(controls, step.cid)
                },
                ArmRole::GestureButton(button) => {
                    &&& step.raw_xy
                    &&& spec.divert_gesture_buttons@.contains((step.cid, button))
                    &&& first_row_has_both(controls, step.cid)
                },
                ArmRole::Dpi => {
                    &&& !step.raw_xy
                    &&& step.cid == 0x00c4 || step.cid == 0x00ed || step.cid == 0x00fd
                    &&& !spec.divert_gesture_buttons@.contains((step.cid, ButtonId::DpiToggle))
                    &&& lists_divertable(controls, step.cid)
                },
                ArmRole::Button(button) => {
                    &&& !step.raw_xy
                    &&& spec.divert_buttons@.contains((step.cid, button))
                    &&& lists_divertable(controls, step.cid)
                    &&& !takes_movement(spec, controls, step.cid)
                },
                ArmRole::PresenterHold(_) => false,
            }
        }),
{
    lemma_plan(spec, controls);
    let (a, b, c, d) = plan_parts(spec, controls);
    let step = control_plan(spec, controls)[i];
    if i < a.len() {
        lemma_gathered_from(spec.divert_gesture_sources@, pick_source(controls), i);
        let k = choose|k: int|
            0 <= k < controls.len() && (#[trigger] controls[k]).cid == step.cid && (false
                ==> controls[k].divertable()) && (true ==> controls[k].raw_xy_capable());
        assert(controls[k].cid == step.cid);
    } else if i < a.len() + b.len() {
        lemma_gathered_from(
            spec.divert_gesture_buttons@,
            pick_gesture_button(controls),
            i - a.len(),
        );
        lemma_first_row(controls, step.cid);
    } else if i < a.len() + b.len() + c.len() {
        lemma_gathered_from(
            dpi_cids_spec(),
            pick_dpi(controls, spec.divert_gesture_buttons@),
            i - a.len() - b.len(),
        );
        let k = choose|k: int|
            0 <= k < controls.len() && (#[trigger] controls[k]).cid == step.cid && (true
                ==> controls[k].divertable()) && (false ==> controls[k].raw_xy_capable());
        assert(controls[k].cid == step.cid);
    } else {
        lemma_gathered_from(
            spec.divert_buttons@,
            pick_button(controls, gesture_plan(spec, controls)),
            i - a.len() - b.len() - c.len(),
        );
        lemma_taken_with_movement(spec, controls, step.cid);
        let k = choose|k: int|
            0 <= k < controls.len() && (#[trigger] controls[k]).cid == step.cid && (true
                ==> controls[k].divertable()) && (false ==> controls[k].raw_xy_capable());
        assert(controls[k].cid == step.cid);
    }
}

/// Everything that is asked for and that the device can give is in the plan: each
/// gesture source it lists with movement, each gesturing button whose first row
/// has both capabilities, each of the three DPI and mode-shift controls it lists
/// as divertable and that is not to gesture, and each plain button it lists as
/// divertable and that is not taken with movement, as the very button asked for.
pub proof fn law_everything_asked_for_is_taken(
    spec: CaptureSpec,
    controls: Seq<CtrlIdInfo>,
    cid: u16,
    button: ButtonId,
)
    ensures
        spec.divert_gesture_sources@.contains(cid) && lists_movement(controls, cid)
            ==> control_plan(spec, controls).contains(
            ArmStep { cid, raw_xy: true, role: ArmRole::GestureSource },
        ),
        spec.divert_gesture_buttons@.contains((cid, button)) && first_row_has_both(controls, cid)
            ==> control_plan(spec, controls).contains(
            ArmStep { cid, raw_xy: true, role: ArmRole::GestureButton(button) },
        ),
        (cid == 0x00c4 || cid == 0x00ed || cid == 0x00fd)
            && !spec.divert_gesture_buttons@.contains((cid, ButtonId::DpiToggle))
            && lists_divertable(controls, cid) ==> control_plan(spec, controls).contains(
            ArmStep { cid, raw_xy: false, role: ArmRole::Dpi },
        ),
        spec.divert_buttons@.contains((cid, button)) && lists_divertable(controls, cid)
            && !takes_movement(spec, controls, cid) ==> control_plan(spec, controls).contains(
            ArmStep { cid, raw_xy: false, role: ArmRole::Button(button) },
        ),
{
    lemma_plan(spec, controls);
    let plan = control_plan(spec, controls);
    let (a, b, c, d) = plan_parts(spec, controls);
    lemma_first_row(controls, cid);
    lemma_taken_with_movement(spec, controls, cid);
    if lists_movement(controls, cid) {
        let r = choose|r: int|
            0 <= r < controls.len() && (#[trigger] controls[r]).cid == cid
                && controls[r].additional_flags & 0x01 != 0;
        assert(controls[r].cid == cid && controls[r].raw_xy_capable());
        assert(exposes(controls, cid, false, true));
    }
    if lists_divertable(controls, cid) {
        let r = choose|r: int|
            0 <= r < controls.len() && (#[trigger] controls[r]).cid == cid && controls[r].flags
                & 0x20 != 0;
        assert(controls[r].cid == cid && controls[r].divertable());
        assert(exposes(controls, cid, true, false));
    }
    if spec.divert_gesture_sources@.contains(cid) && lists_movement(controls, cid) {
        let k = choose|k: int|
            0 <= k < spec.divert_gesture_sources@.len() && spec.divert_gesture_sources@[k] == cid;
        lemma_gathers(spec.divert_gesture_sources@, pick_source(controls), k);
        let step = ArmStep { cid, raw_xy: true, role: ArmRole::GestureSource };
        let i = choose|i: int| 0 <= i < a.len() && a[i] == step;
        assert(plan[i] == step);
    }
    if spec.divert_gesture_buttons@.contains((cid, button)) && first_row_has_both(controls, cid) {
        let k = choose|k: int|
            0 <= k < spec.divert_gesture_buttons@.len() && spec.divert_gesture_buttons@[k] == (
                cid,
                button,
            );
        lemma_gathers(spec.divert_gesture_buttons@, pick_gesture_button(controls), k);
        let step = ArmStep { cid, raw_xy: true, role: ArmRole::GestureButton(button) };
        let i = choose|i: int| 0 <= i < b.len() && b[i] == step;
        assert(plan[a.len() + i] == step);
    }
    if (cid == 0x00c4 || cid == 0x00ed || cid == 0x00fd)
        && !spec.divert_gesture_buttons@.contains((cid, ButtonId::DpiToggle)) && lists_divertable(
        controls,
        cid,
    ) {
        let k: int = if cid == 0x00c4 {
            0
        } else if cid == 0x00ed {
            1
        } else {
            2
        };
        assert(dpi_cids_spec()[k] == cid);
        lemma_gathers(dpi_cids_spec(), pick_dpi(controls, spec.divert_gesture_buttons@), k);
        let step = ArmStep { cid, raw_xy: false, role: ArmRole::Dpi };
        let i = choose|i: int| 0 <= i < c.len() && c[i] == step;
        assert(plan[a.len() + b.len() + i] == step);
    }
    if spec.divert_buttons@.contains((cid, button)) && lists_divertable(controls, cid)
        && !takes_movement(spec, controls, cid) {
        let k = choose|k: int|
            0 <= k < spec.divert_buttons@.len() && spec.divert_buttons@[k] == (cid, button);
        lemma_gathers(
            spec.divert_buttons@,
            pick_button(controls, gesture_plan(spec, controls)),
            k,
        );
        let step = ArmStep { cid, raw_xy: false, role: ArmRole::Button(button) };
        let i = choose|i: int| 0 <= i < d.len() && d[i] == step;
        assert(plan[a.len() + b.len() + c.len() + i] == step);
    }
}

/// The order of roles in a plan.
pub open spec fn role_rank(role: ArmRole) -> int {
    match role {
        ArmRole::GestureSource => 0,
        ArmRole::GestureButton(_) => 1,
        ArmRole::Dpi => 2,
        ArmRole::Button(_) => 3,
        ArmRole::PresenterHold(_) => 4,
    }
}

/// Controls are taken with movement before any is taken without: sources, then
/// gesturing buttons, then DPI buttons, then plain ones. There are no more steps
/// than were asked for.
pub proof fn law_movement_is_taken_first(
    spec: CaptureSpec,
    controls: Seq<CtrlIdInfo>,
    i: int,
    j: int,
)
    requires
        0 <= i < j < control_plan(spec, controls).len(),
    ensures
        role_rank(control_plan(spec, controls)[i].role) <= role_rank(
            control_plan(spec, controls)[j].role,
        ),
        control_plan(spec, controls).len() <= spec.divert_gesture_sources@.len()
            + spec.divert_gesture_buttons@.len() + 3 + spec.divert_buttons@.len(),
{
    lemma_plan(spec, controls);
    let (a, b, c, d) = plan_parts(spec, controls);
    lemma_rank(spec, controls, i);
    lemma_rank(spec, controls, j);
    lemma_gather_length(spec.divert_gesture_sources@, pick_source(controls));
    lemma_gather_length(spec.divert_gesture_buttons@, pick_gesture_button(controls));
    lemma_gather_length(dpi_cids_spec(), pick_dpi(controls, spec.divert_gesture_buttons@));
    lemma_gather_length(
        spec.divert_buttons@,
        pick_button(controls, gesture_plan(spec, controls)),
    );
}

proof fn lemma_gather_length<T>(items: Seq<T>, pick: spec_fn(T) -> Option<ArmStep>)
    ensures
        gather(items, pick).len() <= items.len(),
    decreases items.len(),
{
    if items.len() > 0 {
        lemma_gather_length(items.drop_last(), pick);
    }
}

proof fn lemma_rank(spec: CaptureSpec, controls: Seq<CtrlIdInfo>, i: int)
    requires
        0 <= i < control_plan(spec, controls).len(),
    ensures
        ({
            let (a, b, c, d) = plan_parts(spec, controls);
            role_rank(control_plan(spec, controls)[i].role) == if i < a.len() {
                0int
            } else if i < a.len() + b.len() {
                1
            } else if i < a.len() + b.len() + c.len() {
                2
            } else {
                3
            }
        }),
{
    lemma_plan(spec, controls);
    let (a, b, c, d) = plan_parts(spec, controls);
    if i < a.len() {
        lemma_gathered_from(spec.divert_gesture_sources@, pick_source(controls), i);
    } else if i < a.len() + b.len() {
        lemma_gathered_from(
            spec.divert_gesture_buttons@,
            pick_gesture_button(controls),
            i - a.len(),
        );
    } else if i < a.len() + b.len() + c.len() {
        lemma_gathered_from(
            dpi_cids_spec(),
            pick_dpi(controls, spec.divert_gesture_buttons@),
            i - a.len() - b.len(),
        );
    } else {
        lemma_gathered_from(
            spec.divert_buttons@,
            pick_button(controls, gesture_plan(spec, controls)),
            i - a.len() - b.len() - c.len(),
        );
    }
}

/// Whether a listed control does what a presenter button is for, and can be taken
/// the way the button needs.
pub open spec fn fits(row: RowModel, control: CtrlIdInfo) -> bool {
    &&& row.task_ids.contains(control.task_id)
    &&& control.flags & 0x20 != 0
    &&& row.raw_xy ==> control.additional_flags & 0x01 != 0
}

/// Whether pairs name a control.
pub open spec fn named(pairs: Seq<(u16, ButtonId)>, cid: u16) -> bool {
    exists|k: int| 0 <= k < pairs.len() && (#[trigger] pairs[k]).0 == cid
}

proof fn lemma_serving(
    row: RowModel,
    controls: Seq<CtrlIdInfo>,
    button_cids: Seq<(u16, ButtonId)>,
)
    ensures
        ({
            let steps = serving(row, controls, button_cids);
            &&& forall|i: int|
                0 <= i < steps.len() ==> {
                    &&& (#[trigger] steps[i]).role == ArmRole::Button(row.button)
                    &&& steps[i].raw_xy == row.raw_xy
                    &&& !named(button_cids, steps[i].cid)
                    &&& exists|k: int|
                        0 <= k < controls.len() && (#[trigger] controls[k]).cid == steps[i].cid
                            && fits(row, controls[k])
                }
            &&& forall|k: int|
                0 <= k < controls.len() && fits(row, #[trigger] controls[k]) && !named(
                    button_cids,
                    controls[k].cid,
                ) ==> takes_cid(steps, controls[k].cid)
            &&& forall|i: int, j: int|
                0 <= i < j < steps.len() ==> (#[trigger] steps[i]).cid != (#[trigger] steps[j]).cid
        }),
    decreases controls.len(),
{
    if controls.len() > 0 {
        let head = controls.drop_last();
        let control = controls.last();
        lemma_serving(row, head, button_cids);
        let rest = serving(row, head, button_cids);
        let steps = serving(row, controls, button_cids);
        assert(controls[controls.len() - 1] == control);
        assert forall|i: int| 0 <= i < steps.len() implies {
            &&& (#[trigger] steps[i]).role == ArmRole::Button(row.button)
            &&& steps[i].raw_xy == row.raw_xy
            &&& !named(button_cids, steps[i].cid)
            &&& exists|k: int|
                0 <= k < controls.len() && (#[trigger] controls[k]).cid == steps[i].cid && fits(
                    row,
                    controls[k],
                )
        } by {
            if i < rest.len() {
                assert(steps[i] == rest[i]);
                let k = choose|k: int|
                    0 <= k < head.len() && (#[trigger] head[k]).cid == rest[i].cid && fits(
                        row,
                        head[k],
                    );
                assert(controls[k] == head[k]);
            } else {
                assert(controls[controls.len() - 1].cid == steps[i].cid);
            }
        }
        assert forall|k: int|
            0 <= k < controls.len() && fits(row, #[trigger] controls[k]) && !named(
                button_cids,
                controls[k].cid,
            ) implies takes_cid(steps, controls[k].cid) by {
            if k < head.len() {
                assert(head[k] == controls[k]);
                let i = choose|i: int|
                    0 <= i < rest.len() && (#[trigger] rest[i]).cid == controls[k].cid;
                assert(steps[i].cid == controls[k].cid);
            } else if takes_cid(rest, control.cid) {
                let i = choose|i: int|
                    0 <= i < rest.len() && (#[trigger] rest[i]).cid == control.cid;
                assert(steps[i].cid == control.cid);
            } else {
                assert(steps[rest.len() as int].cid == control.cid);
            }
        }
        assert forall|i: int, j: int| 0 <= i < j < steps.len() implies (#[trigger] steps[i]).cid
            != (#[trigger] steps[j]).cid by {
            assert(steps[i] == rest[i]);
            if j < rest.len() {
                assert(steps[j] == rest[j]);
            }
        }
    }
}

/// A presenter button is taken by every listed control that does what it is for,
/// can be taken the way it needs and is not taken yet, each once and as that very
/// button. Only where there is none does its stand-in take its place, with
/// movement, unless that is taken already; a button without anything it is for is
/// not taken at all.
pub proof fn law_a_presenter_button_is_found_by_its_task(
    row: RowModel,
    controls: Seq<CtrlIdInfo>,
    button_cids: Seq<(u16, ButtonId)>,
)
    ensures
        presenter_plan(None, controls, button_cids).len() == 0,
        ({
            let steps = presenter_plan(Some(row), controls, button_cids);
            let served = exists|k: int|
                0 <= k < controls.len() && fits(row, #[trigger] controls[k]) && !named(
                    button_cids,
                    controls[k].cid,
                );
            &&& row.task_ids.len() == 0 ==> steps.len() == 0
            &&& served ==> forall|i: int|
                0 <= i < steps.len() ==> {
                    &&& (#[trigger] steps[i]).role == ArmRole::Button(row.button)
                    &&& steps[i].raw_xy == row.raw_xy
                    &&& !named(button_cids, steps[i].cid)
                    &&& exists|k: int|
                        0 <= k < controls.len() && (#[trigger] controls[k]).cid == steps[i].cid
                            && fits(row, controls[k])
                }
            &&& forall|k: int|
                0 <= k < controls.len() && fits(row, #[trigger] controls[k]) && !named(
                    button_cids,
                    controls[k].cid,
                ) ==> takes_cid(steps, controls[k].cid)
            &&& forall|i: int, j: int|
                0 <= i < j < steps.len() ==> (#[trigger] steps[i]).cid != (#[trigger] steps[j]).cid
            &&& row.task_ids.len() > 0 && !served ==> steps == match row.hold_cid {
                Some(cid) => if named(button_cids, cid) {
                    Seq::empty()
                } else {
                    seq![ArmStep { cid, raw_xy: true, role: ArmRole::PresenterHold(row.button) }]
                },
                None => Seq::empty(),
            }
        }),
{
    lemma_serving(row, controls, button_cids);
    let listed = serving(row, controls, button_cids);
    let served = exists|k: int|
        0 <= k < controls.len() && fits(row, #[trigger] controls[k]) && !named(
            button_cids,
            controls[k].cid,
        );
    if served {
        let k = choose|k: int|
            0 <= k < controls.len() && fits(row, #[trigger] controls[k]) && !named(
                button_cids,
                controls[k].cid,
            );
        assert(takes_cid(listed, controls[k].cid));
        let t = choose|t: int|
            0 <= t < row.task_ids.len() && row.task_ids[t] == controls[k].task_id;
        assert(row.task_ids.len() > 0);
    } else if listed.len() > 0 {
        let step = listed[0];
        let k = choose|k: int|
            0 <= k < controls.len() && (#[trigger] controls[k]).cid == step.cid && fits(
                row,
                controls[k],
            );
        assert(fits(row, controls[k]) && !named(button_cids, controls[k].cid));
    }
    assert forall|k: int|
        0 <= k < controls.len() && fits(row, #[trigger] controls[k]) && !named(
            button_cids,
            controls[k].cid,
        ) implies takes_cid(
        presenter_plan(Some(row), controls, button_cids),
        controls[k].cid,
    ) by {
        assert(served);
        assert(listed.len() > 0);
    }
}

/// A control that was taken is on record under its role and its button, behind
/// what was taken before, and nothing else changes; the stand-in of a presenter
/// button is also one of the buttons.
pub proof fn law_a_taken_control_is_on_record(armed: ArmedModel, step: ArmStep)
    ensures
        ({
            let after = armed.with_step(step);
            &&& after.reprog == armed.reprog
            &&& after.reporting == armed.reporting
            &&& after.thumb == armed.thumb
            &&& after.gesture_cids == if step.role == ArmRole::GestureSource {
                armed.gesture_cids.push(step.cid)
            } else {
                armed.gesture_cids
            }
            &&& after.gesture_button_cids == if step.role is GestureButton {
                armed.gesture_button_cids.push((step.cid, step.role->GestureButton_0))
            } else {
                armed.gesture_button_cids
            }
            &&& after.dpi_cids == if step.role == ArmRole::Dpi {
                armed.dpi_cids.push(step.cid)
            } else {
                armed.dpi_cids
            }
            &&& after.button_cids == if step.role is Button {
                armed.button_cids.push((step.cid, step.role->Button_0))
            } else if step.role is PresenterHold {
                armed.button_cids.push((step.cid, step.role->PresenterHold_0))
            } else {
                armed.button_cids
            }
            &&& after.presenter_hold_cids == if step.role is PresenterHold {
                armed.presenter_hold_cids.push(step.cid)
            } else {
                armed.presenter_hold_cids
            }
        }),
{
}

proof fn lemma_resumed_changes_no_record(session: ArmModel)
    ensures
        session.resumed().armed == session.armed,
        session.resumed().controls == session.controls,
        session.resumed().spec == session.spec,
    decreases session.spec.divert_presenter_buttons@.len() - session.presenters,
{
    if !(0 <= session.at < session.queue.len()) && 0 <= session.presenters
        < session.spec.divert_presenter_buttons@.len() {
        lemma_resumed_changes_no_record(
            ArmModel {
                queue: presenter_plan(
                    row_for(
                        session.spec.presenter_rows@,
                        session.spec.divert_presenter_buttons@[session.presenters],
                    ),
                    session.controls,
                    session.armed.button_cids,
                ),
                at: 0,
                presenters: session.presenters + 1,
                ..session
            },
        );
    }
}

/// Each control is read before it is written: its reporting goes on record, and
/// the write diverts it, with movement exactly where its step asks for it, and
/// keeps its remap target. Once the write is through, the control counts as taken
/// in its role. A read or write that fails ends the session with its record.
pub proof fn law_a_control_is_read_written_and_recorded(
    session: ArmModel,
    original: CidReporting,
)
    requires
        session.valid(),
        session.phase == ArmPhase::ReadReporting,
    ensures
        ({
            let step = session.queue[session.at];
            let written = session.step(ArmAnswer::Reporting(original));
            let done = written.step(ArmAnswer::Written);
            &&& session.asks() == ArmAsk::ReadReporting(step.cid)
            &&& written.armed.reporting == session.armed.reporting.push(
                ArmedReporting { cid: step.cid, original },
            )
            &&& written.asks() == ArmAsk::WriteReporting(
                step.cid,
                CidReportingChange {
                    diverted: Some(true),
                    raw_xy: Some(step.raw_xy),
                    remap: original.remap,
                },
            )
            &&& done.armed == written.armed.with_step(step)
            &&& session.step(ArmAnswer::Failed).phase == ArmPhase::Failed
            &&& session.step(ArmAnswer::Failed).armed == session.armed
            &&& written.step(ArmAnswer::Failed).phase == ArmPhase::Failed
            &&& written.step(ArmAnswer::Failed).armed == written.armed
        }),
{
    let step = session.queue[session.at];
    let written = session.step(ArmAnswer::Reporting(original));
    lemma_resumed_changes_no_record(
        ArmModel { armed: written.armed.with_step(step), at: written.at + 1, ..written },
    );
}

/// What is planned for the presenter button at `j`.
pub open spec fn button_plan(session: ArmModel, j: int) -> Seq<ArmStep> {
    presenter_plan(
        row_for(session.spec.presenter_rows@, session.spec.divert_presenter_buttons@[j]),
        session.controls,
        session.armed.button_cids,
    )
}

proof fn lemma_next_button(session: ArmModel, j: int)
    requires
        session.at == session.queue.len(),
        0 <= session.presenters <= j <= session.spec.divert_presenter_buttons@.len(),
        forall|k: int| session.presenters <= k < j ==> (#[trigger] button_plan(session, k)).len() == 0,
    ensures
        j < session.spec.divert_presenter_buttons@.len() && button_plan(session, j).len() > 0 ==> {
            let next = session.resumed();
            &&& next.queue == button_plan(session, j)
            &&& next.at == 0
            &&& next.presenters == j + 1
            &&& next.phase == if next.queue[0].role is PresenterHold {
                ArmPhase::WriteHold
            } else {
                ArmPhase::ReadReporting
            }
        },
        j == session.spec.divert_presenter_buttons@.len() ==> session.resumed().phase
            == if session.spec.capture_thumbwheel {
            ArmPhase::FindThumbwheel
        } else {
            ArmPhase::Armed
        },
    decreases j - session.presenters,
{
    if session.presenters < session.spec.divert_presenter_buttons@.len() {
        let plan = button_plan(session, session.presenters);
        let next = ArmModel { queue: plan, at: 0, presenters: session.presenters + 1, ..session };
        assert(session.resumed() == next.resumed());
        if session.presenters < j {
            assert(plan.len() == 0);
            assert forall|k: int| next.presenters <= k < j implies (#[trigger] button_plan(
                next,
                k,
            )).len() == 0 by {
                assert(button_plan(session, k).len() == 0);
            }
            lemma_next_button(next, j);
            assert(button_plan(next, j) == button_plan(session, j));
        }
    }
}

/// The steps of a plan are taken one after the other. Behind the last of them comes the
/// first presenter button, in the order asked for, that has a step, planned with what
/// was taken by then; behind the last of those comes the thumb wheel, where it is asked
/// for, and then everything is taken.
pub proof fn law_everything_planned_is_taken_in_order(session: ArmModel, j: int)
    requires
        session.valid(),
        session.phase is WriteReporting,
        session.presenters <= j <= session.spec.divert_presenter_buttons@.len(),
    ensures
        ({
            let next = session.step(ArmAnswer::Written);
            let taken = ArmModel {
                armed: session.armed.with_step(session.queue[session.at]),
                ..session
            };
            let last = session.at + 1 == session.queue.len();
            let none_before = forall|k: int|
                session.presenters <= k < j ==> (#[trigger] button_plan(taken, k)).len() == 0;
            &&& !last ==> {
                &&& next.queue == session.queue
                &&& next.at == session.at + 1
                &&& next.presenters == session.presenters
                &&& !(session.queue[session.at + 1].role is PresenterHold) ==> next.asks()
                    == ArmAsk::ReadReporting(session.queue[session.at + 1].cid)
                &&& session.queue[session.at + 1].role is PresenterHold ==> next.asks()
                    is WriteReporting && next.asks()->WriteReporting_0 == session.queue[session.at
                    + 1].cid
            }
            &&& last && none_before && j < session.spec.divert_presenter_buttons@.len()
                && button_plan(taken, j).len() > 0 ==> {
                &&& next.queue == button_plan(taken, j)
                &&& next.at == 0
                &&& next.presenters == j + 1
            }
            &&& last && none_before && j == session.spec.divert_presenter_buttons@.len()
                ==> next.asks() == if session.spec.capture_thumbwheel {
                ArmAsk::FindFeature(0x2150)
            } else {
                ArmAsk::Armed
            }
        }),
{
    let taken = ArmModel { armed: session.armed.with_step(session.queue[session.at]), ..session };
    let moved = ArmModel { at: session.at + 1, ..taken };
    assert(session.step(ArmAnswer::Written) == moved.resumed());
    if session.at + 1 == session.queue.len() && (forall|k: int|
        session.presenters <= k < j ==> (#[trigger] button_plan(taken, k)).len() == 0) {
        assert forall|k: int| moved.presenters <= k < j implies (#[trigger] button_plan(
            moved,
            k,
        )).len() == 0 by {
            assert(button_plan(taken, k).len() == 0);
        }
        lemma_next_button(moved, j);
        assert(button_plan(moved, j) == button_plan(taken, j));
    }
}

/// The stand-in of a presenter button is diverted with movement without being
/// read. It counts as taken once that worked; where it did not, the session goes
/// on without it.
pub proof fn law_a_stand_in_is_optional(session: ArmModel)
    requires
        session.valid(),
        session.phase == ArmPhase::WriteHold,
    ensures
        ({
            let step = session.queue[session.at];
            &&& session.asks() == ArmAsk::WriteReporting(
                step.cid,
                CidReportingChange { diverted: Some(true), raw_xy: Some(true), remap: None },
            )
            &&& session.step(ArmAnswer::Written).armed == session.armed.with_step(step)
            &&& session.step(ArmAnswer::Failed).armed == session.armed
            &&& session.step(ArmAnswer::Failed).phase != ArmPhase::Failed
        }),
{
    let step = session.queue[session.at];
    let done = ArmModel { armed: session.armed.with_step(step), at: session.at + 1, ..session };
    let skipped = ArmModel { at: session.at + 1, ..session };
    lemma_resumed_changes_no_record(done);
    lemma_resumed_changes_no_record(skipped);
    lemma_resumed_never_fails(skipped);
}

proof fn lemma_resumed_never_fails(session: ArmModel)
    ensures
        session.resumed().phase != ArmPhase::Failed,
    decreases session.spec.divert_presenter_buttons@.len() - session.presenters,
{
    if !(0 <= session.at < session.queue.len()) && 0 <= session.presenters
        < session.spec.divert_presenter_buttons@.len() {
        lemma_resumed_never_fails(
            ArmModel {
                queue: presenter_plan(
                    row_for(
                        session.spec.presenter_rows@,
                        session.spec.divert_presenter_buttons@[session.presenters],
                    ),
                    session.controls,
                    session.armed.button_cids,
                ),
                at: 0,
                presenters: session.presenters + 1,
                ..session
            },
        );
    }
}

/// The table of controls is read row by row up to its count, and only then is
/// anything planned, from the whole table: the plan of controls first. A device
/// without reprogrammable controls is asked for its thumb wheel alone.
pub proof fn law_the_whole_table_is_read_first(
    session: ArmModel,
    index: u8,
    count: u8,
    info: CtrlIdInfo,
)
    requires
        session.valid(),
    ensures
        session.phase == ArmPhase::FindReprog ==> {
            &&& session.asks() == ArmAsk::FindFeature(0x1b04)
            &&& session.step(ArmAnswer::Feature(Some(index))).asks() == ArmAsk::CountControls
            &&& session.step(ArmAnswer::Feature(None)).asks()
                == if session.spec.capture_thumbwheel {
                ArmAsk::FindFeature(0x2150)
            } else {
                ArmAsk::Armed
            }
            &&& session.step(ArmAnswer::Feature(None)).armed == session.armed
        },
        session.phase == ArmPhase::CountControls(index) && count > 0 ==> session.step(
            ArmAnswer::Count(count),
        ).asks() == ArmAsk::ReadControl(0),
        session.phase == ArmPhase::ReadControls(index, count) ==> {
            let next = session.step(ArmAnswer::Control(info));
            &&& session.asks() == ArmAsk::ReadControl(session.controls.len() as u8)
            &&& next.controls == session.controls.push(info)
            &&& session.controls.len() + 1 < count ==> next.phase == session.phase && next.armed
                == session.armed
            &&& session.controls.len() + 1 == count ==> {
                &&& next.armed == (ArmedModel { reprog: Some(index), ..session.armed })
                &&& control_plan(session.spec, next.controls).len() > 0 ==> next.asks()
                    == ArmAsk::ReadReporting(control_plan(session.spec, next.controls)[0].cid)
            }
        },
{
    if session.phase == ArmPhase::ReadControls(index, count) {
        let read = ArmModel { controls: session.controls.push(info), ..session };
        lemma_resumed_changes_no_record(
            ArmModel {
                armed: ArmedModel { reprog: Some(index), ..read.armed },
                queue: control_plan(read.spec, read.controls),
                at: 0,
                presenters: 0,
                ..read
            },
        );
        if control_plan(read.spec, read.controls).len() > 0 {
            lemma_plan_has_no_stand_in(read.spec, read.controls, 0);
        }
    }
}

proof fn lemma_plan_has_no_stand_in(spec: CaptureSpec, controls: Seq<CtrlIdInfo>, i: int)
    requires
        0 <= i < control_plan(spec, controls).len(),
    ensures
        !(control_plan(spec, controls)[i].role is PresenterHold),
{
    law_every_step_was_asked_for(spec, controls, i);
}

/// The thumb wheel is taken so that a positive count is a turn away from the
/// user: inverted exactly where the device says that it counts the other way. A
/// device that does not say is taken as it counts, and one without a thumb wheel
/// is armed without it.
pub proof fn law_the_thumb_wheel_counts_forward(
    session: ArmModel,
    index: u8,
    info: ThumbwheelInfo,
)
    requires
        session.valid(),
    ensures
        session.phase == ArmPhase::FindThumbwheel ==> {
            &&& session.asks() == ArmAsk::FindFeature(0x2150)
            &&& session.step(ArmAnswer::Feature(None)).asks() == ArmAsk::Armed
            &&& session.step(ArmAnswer::Feature(None)).armed == session.armed
            &&& session.step(ArmAnswer::Feature(Some(index))).asks() == ArmAsk::ReadThumbwheel
        },
        session.phase == ArmPhase::ReadThumbwheel(index) ==> {
            let told = session.step(ArmAnswer::Thumbwheel(info));
            let untold = session.step(ArmAnswer::Failed);
            &&& told.armed.thumb == Some(ArmedThumbwheel { feature_index: index, info: Some(info) })
            &&& told.asks() == ArmAsk::DivertThumbwheel(
                if info.positive_is_forward {
                    WheelDirection::Default
                } else {
                    WheelDirection::Inverted
                },
            )
            &&& untold.armed.thumb == Some(
                ArmedThumbwheel { feature_index: index, info: None::<ThumbwheelInfo> },
            )
            &&& untold.asks() == ArmAsk::DivertThumbwheel(WheelDirection::Default)
            &&& told.step(ArmAnswer::Written).asks() == ArmAsk::Armed
            &&& told.step(ArmAnswer::Written).armed == told.armed
        },
{
}

/// Taking everything again writes to the controls on record in order, with
/// movement exactly for gesture sources, gesturing buttons and presenter buttons
/// that need it; then to the stand-ins, with movement; then to the thumb wheel, in
/// the direction it was taken in. Without reprogrammable controls only the thumb
/// wheel is written to.
pub proof fn law_rearming_restores_the_same_modes(armed: ArmedModel, rows: Seq<PresenterRow>)
    ensures
        ({
            let writes = rearm_writes(armed, rows);
            let n = armed.reporting.len();
            let m = armed.presenter_hold_cids.len();
            &&& armed.reprog is Some ==> {
                &&& writes.len() == n + m + if armed.thumb is Some {
                    1int
                } else {
                    0
                }
                &&& forall|i: int|
                    0 <= i < n ==> #[trigger] writes[i] == (RearmWrite::Reporting {
                        cid: armed.reporting[i].cid,
                        change: CidReportingChange {
                            diverted: Some(true),
                            raw_xy: Some(was_with_movement(armed, rows, armed.reporting[i].cid)),
                            remap: armed.reporting[i].original.remap,
                        },
                    })
                &&& forall|j: int|
                    0 <= j < m ==> writes[n + j] == (RearmWrite::Reporting {
                        cid: #[trigger] armed.presenter_hold_cids[j],
                        change: CidReportingChange {
                            diverted: Some(true),
                            raw_xy: Some(true),
                            remap: None,
                        },
                    })
            }
            &&& armed.reprog is None ==> writes.len() == if armed.thumb is Some {
                1int
            } else {
                0
            }
            &&& armed.thumb matches Some(thumb) ==> writes.last() == RearmWrite::Thumbwheel(
                if thumb.info is Some && !thumb.info->0.positive_is_forward {
                    WheelDirection::Inverted
                } else {
                    WheelDirection::Default
                },
            )
        }),
{
    assert forall|cid: u16| #[trigger] taken_with_movement(armed, rows, cid) == was_with_movement(
        armed,
        rows,
        cid,
    ) by {
        assert forall|button: ButtonId| #[trigger] needs_raw_xy(rows, button) == row_needs_movement(
            rows,
            button,
        ) by {
            lemma_row(rows, button);
        }
        if was_with_movement(armed, rows, cid) && !armed.gesture_cids.contains(cid) && !named(
            armed.gesture_button_cids,
            cid,
        ) {
            let i = choose|i: int|
                0 <= i < armed.button_cids.len() && (#[trigger] armed.button_cids[i]).0 == cid
                    && row_needs_movement(rows, armed.button_cids[i].1);
            assert(needs_raw_xy(rows, armed.button_cids[i].1));
        }
        if taken_with_movement(armed, rows, cid) && !armed.gesture_cids.contains(cid) && !named(
            armed.gesture_button_cids,
            cid,
        ) {
            let i = choose|i: int|
                0 <= i < armed.button_cids.len() && (#[trigger] armed.button_cids[i]).0 == cid
                    && needs_raw_xy(rows, armed.button_cids[i].1);
            assert(row_needs_movement(rows, armed.button_cids[i].1));
        }
    }
}

/// Whether the first row for a presenter button asks for movement.
pub open spec fn row_needs_movement(rows: Seq<PresenterRow>, button: ButtonId) -> bool {
    exists|r: int|
        0 <= r < rows.len() && (#[trigger] rows[r]).button == button && rows[r].raw_xy && forall|
            q: int,
        |
            0 <= q < r ==> (#[trigger] rows[q]).button != button
}

proof fn lemma_row(rows: Seq<PresenterRow>, button: ButtonId)
    ensures
        needs_raw_xy(rows, button) == row_needs_movement(rows, button),
{
    law_a_presenter_button_has_its_first_row(rows, button);
    let found = row_for(rows, button);
    if found is Some {
        let r = choose|r: int|
            #[trigger] first_row_at(rows, button, r) && found->0.raw_xy == rows[r].raw_xy;
        if row_needs_movement(rows, button) {
            let k = choose|k: int|
                0 <= k < rows.len() && (#[trigger] rows[k]).button == button && rows[k].raw_xy
                    && forall|q: int| 0 <= q < k ==> (#[trigger] rows[q]).button != button;
            if k < r {
                assert(rows[k].button != button);
            }
            if r < k {
                assert(rows[r].button != button);
            }
        }
        if rows[r].raw_xy {
            assert(rows[r].button == button);
        }
    } else if row_needs_movement(rows, button) {
        let k = choose|k: int|
            0 <= k < rows.len() && (#[trigger] rows[k]).button == button && rows[k].raw_xy
                && forall|q: int| 0 <= q < k ==> (#[trigger] rows[q]).button != button;
        assert(false);
    }
}

/// Whether the first row for a presenter button stands at an index.
pub open spec fn first_row_at(rows: Seq<PresenterRow>, button: ButtonId, r: int) -> bool {
    &&& 0 <= r < rows.len()
    &&& rows[r].button == button
    &&& forall|q: int| 0 <= q < r ==> (#[trigger] rows[q]).button != button
}

/// The row of a presenter button is the first that bears its name; without such a
/// row there is none.
pub proof fn law_a_presenter_button_has_its_first_row(rows: Seq<PresenterRow>, button: ButtonId)
    ensures
        row_for(rows, button) is None ==> forall|q: int|
            0 <= q < rows.len() ==> (#[trigger] rows[q]).button != button,
        row_for(rows, button) matches Some(row) ==> exists|r: int|
            {
                &&& #[trigger] first_row_at(rows, button, r)
                &&& row.button == button
                &&& row.raw_xy == rows[r].raw_xy
                &&& row.task_ids == rows[r].task_ids@
                &&& row.hold_cid == rows[r].hold_cid
            },
    decreases rows.len(),
{
    if rows.len() > 0 {
        let rest = rows.skip(1);
        if rows[0].button == button {
            assert(first_row_at(rows, button, 0));
        } else {
            law_a_presenter_button_has_its_first_row(rest, button);
            if row_for(rest, button) is None {
                assert forall|q: int| 0 <= q < rows.len() implies (#[trigger] rows[q]).button
                    != button by {
                    if q > 0 {
                        assert(rest[q - 1] == rows[q]);
                    }
                }
            } else {
                let row = row_for(rest, button)->0;
                let r = choose|r: int|
                    {
                        &&& #[trigger] first_row_at(rest, button, r)
                        &&& row.button == button
                        &&& row.raw_xy == rest[r].raw_xy
                        &&& row.task_ids == rest[r].task_ids@
                        &&& row.hold_cid == rest[r].hold_cid
                    };
                assert(rows[r + 1] == rest[r]);
                assert forall|q: int| 0 <= q < r + 1 implies (#[trigger] rows[q]).button
                    != button by {
                    if q > 0 {
                        assert(rest[q - 1] == rows[q]);
                    }
                }
                assert(first_row_at(rows, button, r + 1));
            }
        }
    }
}

/// Whether a control was taken together with pointer movement.
pub open spec fn was_with_movement(armed: ArmedModel, rows: Seq<PresenterRow>, cid: u16) -> bool {
    ||| armed.gesture_cids.contains(cid)
    ||| named(armed.gesture_button_cids, cid)
    ||| exists|i: int|
        0 <= i < armed.button_cids.len() && (#[trigger] armed.button_cids[i]).0 == cid
            && row_needs_movement(rows, armed.button_cids[i].1)
}

} // verus!
