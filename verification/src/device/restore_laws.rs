//! What a device is handed back with, and what its replies mean.

use vstd::prelude::*;
use crate::device::capture_restore::{
    bare_undivert, divert_spec, owed_after, plan_writes, restore_items, undivert_spec,
    ArmedReporting, CaptureRestorePlan, CaptureStop, PendingCaptureRestore, ReprogRestoreItem,
    RestoreWrite,
};
use crate::device::pointer_speed::{
    level_of_wire, pointer_speed_failure, replied, ErrorType, Hidpp20Error, HidppOperation,
    SpeedGoal, WriteError,
};
use crate::device::report::{
    change_flags, change_payload, from_bytes, high_byte, low_byte, CidReporting,
    CidReportingChange,
};
use crate::presenter::PointerSpeed;

verus! {

/// Handing a control back says in so many words that it is no longer diverted and no
/// longer reports movement, and keeps its remap target; taking it says the opposite of
/// the first, and of movement what is asked.
pub proof fn law_handing_back_undoes_taking(reporting: CidReporting, raw_xy: bool)
    ensures
        divert_spec(reporting, raw_xy) == (CidReportingChange {
            diverted: Some(true),
            raw_xy: Some(raw_xy),
            remap: reporting.remap,
        }),
        undivert_spec(reporting) == (CidReportingChange {
            diverted: Some(false),
            raw_xy: Some(false),
            remap: reporting.remap,
        }),
        bare_undivert() == (CidReportingChange {
            diverted: Some(false),
            raw_xy: Some(false),
            remap: None,
        }),
{
}

/// Every control on record is handed back in order, then every stand-in, each with its
/// own write to the feature that the controls are in; the thumb wheel comes last. There
/// are no other writes.
pub proof fn law_everything_taken_is_handed_back(plan: CaptureRestorePlan, i: int)
    ensures
        ({
            let writes = plan_writes(plan);
            let n = if plan.reprog is Some {
                plan.reprog->0.items@.len() as int
            } else {
                0
            };
            &&& writes.len() == n + if plan.thumb_index is Some {
                1int
            } else {
                0
            }
            &&& plan.thumb_index matches Some(feature_index) ==> writes[n]
                == (RestoreWrite::Thumbwheel { feature_index })
            &&& (plan.reprog is Some && 0 <= i < n) ==> match plan.reprog->0.items@[i] {
                ReprogRestoreItem::Reporting(armed) => writes[i] == (RestoreWrite::Reporting {
                    feature_index: plan.reprog->0.feature_index,
                    cid: armed.cid,
                    change: CidReportingChange {
                        diverted: Some(false),
                        raw_xy: Some(false),
                        remap: armed.original.remap,
                    },
                }),
                ReprogRestoreItem::Undivert(cid) => writes[i] == (RestoreWrite::Reporting {
                    feature_index: plan.reprog->0.feature_index,
                    cid,
                    change: CidReportingChange {
                        diverted: Some(false),
                        raw_xy: Some(false),
                        remap: None,
                    },
                }),
            }
        }),
{
}

/// What is to be handed back is every control on record and then every stand-in.
pub proof fn law_items_are_records_and_then_stand_ins(
    controls: Seq<ArmedReporting>,
    bare: Seq<u16>,
    i: int,
    j: int,
)
    requires
        0 <= i < controls.len(),
        0 <= j < bare.len(),
    ensures
        restore_items(controls, bare).len() == controls.len() + bare.len(),
        restore_items(controls, bare)[i] == ReprogRestoreItem::Reporting(controls[i]),
        restore_items(controls, bare)[controls.len() + j] == ReprogRestoreItem::Undivert(bare[j]),
{
}

/// A plan is fulfilled exactly when each of its writes was taken.
pub proof fn law_a_plan_is_fulfilled_by_every_write(
    plan: CaptureRestorePlan,
    results: Seq<bool>,
    i: int,
)
    ensures
        plan.fulfilled(results) ==> results.len() == plan_writes(plan).len(),
        0 <= i < results.len() && !results[i] ==> !plan.fulfilled(results),
        results.len() < plan_writes(plan).len() ==> !plan.fulfilled(results),
        results.len() == plan_writes(plan).len() && (forall|k: int|
            0 <= k < results.len() ==> #[trigger] results[k]) ==> plan.fulfilled(results),
{
}

/// What is owed to a device is written over a channel that is open: over any where the
/// one it was taken over may be used again, else over another one only.
pub proof fn law_a_debt_is_paid_over_an_open_channel(
    pending: PendingCaptureRestore,
    published: Option<u64>,
)
    ensures
        published is None ==> pending.channel_spec(published) is None,
        pending.allow_current_channel ==> pending.channel_spec(published) == published,
        !pending.allow_current_channel && published == Some(pending.retired)
            ==> pending.channel_spec(published) is None,
        published is Some && published != Some(pending.retired) ==> pending.channel_spec(published)
            == published,
{
}

/// After a deliberate stop what is owed may be written over the channel that is still
/// held, after a replaced channel it may not; nothing owed stays nothing, and what is
/// owed stays the same.
pub proof fn law_a_stop_keeps_what_is_owed(pending: PendingCaptureRestore, stop: CaptureStop)
    ensures
        owed_after(stop, None) is None,
        owed_after(stop, Some(pending)) is Some,
        owed_after(stop, Some(pending))->0.plan == pending.plan,
        owed_after(stop, Some(pending))->0.retired == pending.retired,
        owed_after(CaptureStop::Shutdown, Some(pending))->0.allow_current_channel,
        owed_after(CaptureStop::ChannelChanged, Some(pending)) == Some(pending),
        owed_after(CaptureStop::Shutdown, Some(pending))->0.channel_spec(Some(pending.retired))
            == Some(pending.retired),
{
}

/// What is owed is released when every write was taken over a channel that is still the
/// published one then, and by nothing less.
pub proof fn law_only_writes_to_the_current_channel_release(
    pending: PendingCaptureRestore,
    channel: u64,
    results: Seq<bool>,
    published: Option<u64>,
    i: int,
)
    ensures
        published != Some(channel) ==> !pending.released_by(channel, results, published),
        0 <= i < results.len() && !results[i] ==> !pending.released_by(channel, results, published),
        results.len() < plan_writes(pending.plan).len() ==> !pending.released_by(
            channel,
            results,
            published,
        ),
        results.len() == plan_writes(pending.plan).len() && (forall|k: int|
            0 <= k < results.len() ==> #[trigger] results[k]) ==> pending.released_by(
            channel,
            results,
            Some(channel),
        ),
{
}

/// A word is sent with its higher byte first, and read the same way.
pub proof fn law_words_are_sent_high_byte_first(value: u16, high: u8, low: u8)
    ensures
        256 * high_byte(value) + low_byte(value) == value,
        from_bytes(high_byte(value), low_byte(value)) == value,
        from_bytes(high, low) == 256 * high + low,
        high_byte(from_bytes(high, low)) == high,
        low_byte(from_bytes(high, low)) == low,
{
}

/// A change names its control and its remap target, and says of diverting and of
/// movement whether it is about them and which way; what it is not about it leaves.
pub proof fn law_a_change_says_what_it_is_about(cid: u16, change: CidReportingChange, i: int)
    ensures
        ({
            let payload = change_payload(cid, change);
            let flags = payload[2];
            &&& payload.len() == 16
            &&& 256 * payload[0] + payload[1] == cid
            &&& (flags & 0x02 != 0) == (change.diverted is Some)
            &&& (flags & 0x01 != 0) == (change.diverted == Some(true))
            &&& (flags & 0x20 != 0) == (change.raw_xy is Some)
            &&& (flags & 0x10 != 0) == (change.raw_xy == Some(true))
            &&& flags & 0xcc == 0
            &&& change.remap matches Some(target) ==> 256 * payload[3] + payload[4] == target
            &&& change.remap is None ==> payload[3] == 0 && payload[4] == 0
            &&& 5 <= i < 16 ==> payload[i] == 0
        }),
{
    let f = change_flags(change) as u8;
    assert(change_payload(cid, change)[2] == f);
    assert(f == 0 || f == 2 || f == 3 || f == 0x20 || f == 0x22 || f == 0x23 || f == 0x30 || f
        == 0x32 || f == 0x33);
    assert((f & 0x02 != 0) == (f == 2 || f == 3 || f == 0x22 || f == 0x23 || f == 0x32 || f == 0x33)
        && (f & 0x01 != 0) == (f == 3 || f == 0x23 || f == 0x33) && (f & 0x20 != 0) == (f >= 0x20)
        && (f & 0x10 != 0) == (f >= 0x30) && f & 0xcc == 0) by (bit_vector)
        requires
            f == 0 || f == 2 || f == 3 || f == 0x20 || f == 0x22 || f == 0x23 || f == 0x30 || f
                == 0x32 || f == 0x33,
    ;
}

/// A control that reports as a change says is read as the change says: diverted and with
/// movement as set, and remapped to its target, where zero is none.
pub proof fn law_what_is_written_is_read_back(
    cid: u16,
    diverted: bool,
    raw_xy: bool,
    remap: Option<u16>,
)
    requires
        remap != Some(0u16),
    ensures
        CidReporting::decoded(
            change_payload(
                cid,
                CidReportingChange { diverted: Some(diverted), raw_xy: Some(raw_xy), remap },
            ),
        ) == (CidReporting { diverted, raw_xy, remap }),
{
    let change = CidReportingChange { diverted: Some(diverted), raw_xy: Some(raw_xy), remap };
    law_a_change_says_what_it_is_about(cid, change, 5);
    match remap {
        Some(target) => {
            law_words_are_sent_high_byte_first(target, 0, 0);
        },
        None => {},
    }
}

/// Of what a device can answer, that it lacks the function is the feature missing; any
/// other failure is passed on with what was being done.
pub proof fn law_a_missing_function_is_a_missing_feature(
    error: Hidpp20Error,
    operation: HidppOperation,
)
    ensures
        ({
            let lacks = error == Hidpp20Error::Feature(ErrorType::Unsupported) || error
                == Hidpp20Error::Feature(ErrorType::InvalidFunctionId) || error
                == Hidpp20Error::UnsupportedResponse;
            let failure = pointer_speed_failure(error, operation);
            &&& lacks ==> failure is FeatureUnsupported
            &&& !lacks ==> failure is Hidpp && failure->error == error && failure->operation
                == operation
        }),
{
}

/// A read ends with the level that the first byte of the reply stands for, counted from
/// 16, and with the feature missing where it stands for none; a write ends with the
/// speed that was written. A failure ends either one with what was being done.
pub proof fn law_a_reply_says_the_level(
    payload: [u8; 16],
    speed: PointerSpeed,
    error: Hidpp20Error,
    end: Result<PointerSpeed, WriteError>,
)
    ensures
        16 <= payload@[0] <= 25 && replied(SpeedGoal::Read, Ok(payload), end) ==> end is Ok
            && end->Ok_0@ + 16 == payload@[0],
        (payload@[0] < 16 || payload@[0] > 25) && replied(SpeedGoal::Read, Ok(payload), end)
            ==> end is Err && end->Err_0 is FeatureUnsupported,
        replied(SpeedGoal::Write(speed), Ok(payload), end) ==> end == Ok::<
            PointerSpeed,
            WriteError,
        >(speed),
        replied(SpeedGoal::Read, Err(error), end) ==> end is Err,
        replied(SpeedGoal::Write(speed), Err(error), end) ==> end is Err,
        error == Hidpp20Error::Channel && replied(SpeedGoal::Read, Err(error), end)
            ==> end->Err_0->operation == HidppOperation::ReadPointerSpeed,
        error == Hidpp20Error::Channel && replied(SpeedGoal::Write(speed), Err(error), end)
            ==> end->Err_0->operation == HidppOperation::WritePointerSpeed,
        level_of_wire(16) == Some(0u8) && level_of_wire(25) == Some(9u8),
        level_of_wire(15) is None && level_of_wire(26) is None,
{
}

} // verus!
