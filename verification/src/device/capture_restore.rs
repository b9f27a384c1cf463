//! What capture owes the firmware: the writes that hand every captured control
//! back, and what a session comes to when it stops.

use vstd::prelude::*;
use crate::device::report::{CidReporting, CidReportingChange};

verus! {

/// Why a capture session could not start, or had to stop.
#[derive(Debug, PartialEq, Eq)]
pub enum CaptureError {
    /// The transport failed while the device was looked for or opened.
    Hid(String),
    /// No connected device matched the route.
    DeviceNotFound,
    /// The device at this index did not answer.
    DeviceUnreachable(u8),
    /// A feature call failed; the text says which.
    Hidpp(String),
}

/// A captured control and how it reported before.
#[derive(Clone, Copy, Debug, PartialEq, Eq, Structural)]
pub struct ArmedReporting {
    /// The control.
    pub cid: u16,
    /// How it reported before.
    pub original: CidReporting,
}

/// One control to hand back.
#[derive(Clone, Copy, Debug, PartialEq, Eq, Structural)]
pub enum ReprogRestoreItem {
    /// A control whose reporting was read before it was captured.
    Reporting(ArmedReporting),
    /// A control that was captured without reading it first.
    Undivert(u16),
}

/// Captured controls of one feature; never empty.
#[derive(Debug, PartialEq, Eq)]
pub struct ReprogRestore {
    /// Where the device keeps the feature.
    pub feature_index: u8,
    /// The controls, in the order in which they are handed back.
    pub items: Vec<ReprogRestoreItem>,
}

/// What a capture session writes to hand its controls back.
#[derive(Debug, PartialEq, Eq)]
pub struct CaptureRestorePlan {
    /// The reprogrammable controls.
    pub reprog: Option<ReprogRestore>,
    /// Where the device keeps the thumb wheel, when it was captured.
    pub thumb_index: Option<u8>,
}

/// One write that hands something back.
#[derive(Clone, Copy, Debug, PartialEq, Eq, Structural)]
pub enum RestoreWrite {
    /// Changes how a control reports.
    Reporting {
        /// Where the device keeps the feature.
        feature_index: u8,
        /// The control.
        cid: u16,
        /// The change.
        change: CidReportingChange,
    },
    /// Gives the thumb wheel back.
    Thumbwheel {
        /// Where the device keeps the feature.
        feature_index: u8,
    },
}

/// Why a session stops.
#[derive(Clone, Copy, Debug, PartialEq, Eq, Structural)]
pub enum CaptureStop {
    /// Its owner asked for it.
    Shutdown,
    /// The channel that it captured through was removed or replaced.
    ChannelChanged,
}

/// Firmware ownership that a session could not release yet.
#[derive(Debug, PartialEq, Eq)]
pub struct PendingCaptureRestore {
    /// What is owed.
    pub plan: CaptureRestorePlan,
    /// The publication of the channel that it was captured through.
    pub retired: u64,
    /// Whether that channel may be written to.
    pub allow_current_channel: bool,
}

/// How a session ended.
#[derive(Debug, PartialEq, Eq)]
pub enum CaptureSessionOutcome {
    /// Everything was handed back.
    Restored,
    /// This is still owed.
    RestorePending(PendingCaptureRestore),
}

/// A setup failure, with what its rollback could not release.
#[derive(Debug, PartialEq, Eq)]
pub struct CaptureSessionFailure {
    /// Why it failed.
    pub error: CaptureError,
    /// What is still owed.
    pub pending: Option<PendingCaptureRestore>,
}

/// The change that captures a control and keeps its remap target.
pub open spec fn divert_spec(reporting: CidReporting, raw_xy: bool) -> CidReportingChange {
    CidReportingChange { diverted: Some(true), raw_xy: Some(raw_xy), remap: reporting.remap }
}

/// The change that hands a control back and keeps its remap target.
pub open spec fn undivert_spec(reporting: CidReporting) -> CidReportingChange {
    CidReportingChange { diverted: Some(false), raw_xy: Some(false), remap: reporting.remap }
}

/// The change that hands back a control that was never read.
pub open spec fn bare_undivert() -> CidReportingChange {
    CidReportingChange { diverted: Some(false), raw_xy: Some(false), remap: None }
}

/// Captures a control in the requested mode and keeps its remap target.
pub fn divert_change(reporting: CidReporting, raw_xy: bool) -> (change: CidReportingChange)
    ensures
        change == divert_spec(reporting, raw_xy),
{
    CidReportingChange { diverted: Some(true), raw_xy: Some(raw_xy), remap: reporting.remap }
}

/// Hands a control back and keeps its remap target.
pub fn undivert_change(reporting: CidReporting) -> (change: CidReportingChange)
    ensures
        change == undivert_spec(reporting),
{
    CidReportingChange { diverted: Some(false), raw_xy: Some(false), remap: reporting.remap }
}

/// The items that hand back read controls and then bare ones.
pub open spec fn restore_items(controls: Seq<ArmedReporting>, bare: Seq<u16>) -> Seq<
    ReprogRestoreItem,
> {
    Seq::new(controls.len(), |i: int| ReprogRestoreItem::Reporting(controls[i])) + Seq::new(
        bare.len(),
        |i: int| ReprogRestoreItem::Undivert(bare[i]),
    )
}

impl ReprogRestore {
    /// What handing back `controls` takes: nothing when there are none.
    pub fn new(feature_index: u8, controls: &Vec<ArmedReporting>) -> (restore: Option<Self>)
        ensures
            match restore {
                Some(r) => controls@.len() > 0 && r.feature_index == feature_index && r.items@
                    == restore_items(controls@, Seq::empty()),
                None => controls@.len() == 0,
            },
    {
        let none: Vec<u16> = Vec::new();
        Self::with_undivert_cids(feature_index, controls, &none)
    }

    /// What handing back `controls` and the bare controls `undivert_cids` takes.
    pub fn with_undivert_cids(
        feature_index: u8,
        controls: &Vec<ArmedReporting>,
        undivert_cids: &Vec<u16>,
    ) -> (restore: Option<Self>)
        ensures
            match restore {
                Some(r) => controls@.len() + undivert_cids@.len() > 0 && r.feature_index
                    == feature_index && r.items@ == restore_items(controls@, undivert_cids@),
                None => controls@.len() == 0 && undivert_cids@.len() == 0,
            },
    {
        if controls.len() == 0 && undivert_cids.len() == 0 {
            return None;
        }
        let mut items: Vec<ReprogRestoreItem> = Vec::new();
        let mut i: usize = 0;
        let ghost none = Seq::<u16>::empty();
        assert(restore_items(controls@.take(0), none) =~= Seq::<ReprogRestoreItem>::empty());
        while i < controls.len()
            invariant
                i <= controls@.len(),
                none == Seq::<u16>::empty(),
                items@ == restore_items(controls@.take(i as int), none),
            decreases controls@.len() - i,
        {
            items.push(ReprogRestoreItem::Reporting(controls[i]));
            assert(restore_items(controls@.take(i + 1), none) =~= restore_items(
                controls@.take(i as int),
                none,
            ).push(ReprogRestoreItem::Reporting(controls@[i as int])));
            i = i + 1;
        }
        assert(controls@.take(i as int) =~= controls@);
        let mut j: usize = 0;
        assert(undivert_cids@.take(0) =~= none);
        while j < undivert_cids.len()
            invariant
                j <= undivert_cids@.len(),
                items@ == restore_items(controls@, undivert_cids@.take(j as int)),
            decreases undivert_cids@.len() - j,
        {
            items.push(ReprogRestoreItem::Undivert(undivert_cids[j]));
            assert(restore_items(controls@, undivert_cids@.take(j + 1)) =~= restore_items(
                controls@,
                undivert_cids@.take(j as int),
            ).push(ReprogRestoreItem::Undivert(undivert_cids@[j as int])));
            j = j + 1;
        }
        assert(undivert_cids@.take(j as int) =~= undivert_cids@);
        Some(ReprogRestore { feature_index, items })
    }
}

/// The write that hands one control back.
pub open spec fn item_write(feature_index: u8, item: ReprogRestoreItem) -> RestoreWrite {
    match item {
        ReprogRestoreItem::Reporting(reporting) => RestoreWrite::Reporting {
            feature_index,
            cid: reporting.cid,
            change: undivert_spec(reporting.original),
        },
        ReprogRestoreItem::Undivert(cid) => RestoreWrite::Reporting {
            feature_index,
            cid,
            change: bare_undivert(),
        },
    }
}

/// The writes of a plan: every control in order, then the thumb wheel.
pub open spec fn plan_writes(plan: CaptureRestorePlan) -> Seq<RestoreWrite> {
    let controls = match plan.reprog {
        Some(reprog) => Seq::new(
            reprog.items@.len(),
            |i: int| item_write(reprog.feature_index, reprog.items@[i]),
        ),
        None => Seq::empty(),
    };
    match plan.thumb_index {
        Some(feature_index) => controls.push(RestoreWrite::Thumbwheel { feature_index }),
        None => controls,
    }
}

impl CaptureRestorePlan {
    /// The restore owed for `reprog` and the thumb wheel, when anything was captured.
    pub fn new(reprog: Option<ReprogRestore>, thumb_index: Option<u8>) -> (plan: Option<Self>)
        ensures
            plan == if reprog is None && thumb_index is None {
                None
            } else {
                Some(CaptureRestorePlan { reprog, thumb_index })
            },
    {
        if reprog.is_none() && thumb_index.is_none() {
            return None;
        }
        Some(CaptureRestorePlan { reprog, thumb_index })
    }

    /// The writes that hand everything back, each to be tried once whatever the
    /// others come to.
    pub fn restore_writes(&self) -> (writes: Vec<RestoreWrite>)
        ensures
            writes@ == plan_writes(*self),
    {
        let mut writes: Vec<RestoreWrite> = Vec::new();
        if let Some(reprog) = &self.reprog {
            let index: u8 = reprog.feature_index;
            let mut i: usize = 0;
            while i < reprog.items.len()
                invariant
                    i <= reprog.items@.len(),
                    index == reprog.feature_index,
                    writes@ == Seq::new(i as nat, |k: int| item_write(index, reprog.items@[k])),
                decreases reprog.items@.len() - i,
            {
                let write = match reprog.items[i] {
                    ReprogRestoreItem::Reporting(reporting) => RestoreWrite::Reporting {
                        feature_index: index,
                        cid: reporting.cid,
                        change: undivert_change(reporting.original),
                    },
                    ReprogRestoreItem::Undivert(cid) => RestoreWrite::Reporting {
                        feature_index: index,
                        cid,
                        change: CidReportingChange {
                            diverted: Some(false),
                            raw_xy: Some(false),
                            remap: None,
                        },
                    },
                };
                writes.push(write);
                assert(writes@ =~= Seq::new(
                    (i + 1) as nat,
                    |k: int| item_write(index, reprog.items@[k]),
                ));
                i = i + 1;
            }
        }
        if let Some(feature_index) = self.thumb_index {
            writes.push(RestoreWrite::Thumbwheel { feature_index });
        }
        assert(writes@ =~= plan_writes(*self));
        writes
    }

    /// Whether what each write came to fulfils the plan: every write was made,
    /// and none failed.
    pub open spec fn fulfilled(self, results: Seq<bool>) -> bool {
        &&& results.len() == plan_writes(self).len()
        &&& forall|i: int| 0 <= i < results.len() ==> #[trigger] results[i]
    }

    /// Whether the plan is fulfilled, given what each of its writes came to: one
    /// that failed or was not made leaves all of it owed.
    pub fn restore_on(&self, results: &Vec<bool>) -> (restored: bool)
        ensures
            restored == self.fulfilled(results@),
    {
        let mut restored = results.len() == self.restore_writes().len();
        let mut i: usize = 0;
        while i < results.len()
            invariant
                i <= results@.len(),
                restored == (results@.len() == plan_writes(*self).len() && forall|k: int|
                    0 <= k < i ==> #[trigger] results@[k]),
            decreases results@.len() - i,
        {
            restored = restored && results[i];
            i = i + 1;
        }
        restored
    }
}

impl PendingCaptureRestore {
    /// The restore owed for `reprog` and the thumb wheel through a channel, or
    /// none when nothing was captured. The channel itself may not be written to.
    pub fn new(retired: u64, reprog: Option<ReprogRestore>, thumb_index: Option<u8>) -> (pending:
        Option<Self>)
        ensures
            pending == if reprog is None && thumb_index is None {
                None
            } else {
                Some(
                    PendingCaptureRestore {
                        plan: CaptureRestorePlan { reprog, thumb_index },
                        retired,
                        allow_current_channel: false,
                    },
                )
            },
    {
        match CaptureRestorePlan::new(reprog, thumb_index) {
            Some(plan) => Some(
                PendingCaptureRestore { plan, retired, allow_current_channel: false },
            ),
            None => None,
        }
    }

    /// The same, with the channel it was captured through allowed.
    pub fn allow_current_channel(self) -> (pending: Self)
        ensures
            pending == (PendingCaptureRestore { allow_current_channel: true, ..self }),
    {
        PendingCaptureRestore { allow_current_channel: true, ..self }
    }

    /// The channel to write through, given the one that is published: none while
    /// only a channel that may not be written to is.
    pub open spec fn channel_spec(self, published: Option<u64>) -> Option<u64> {
        match published {
            Some(channel) => if channel != self.retired || self.allow_current_channel {
                Some(channel)
            } else {
                None
            },
            None => None,
        }
    }

    /// The channel to write through, given the one that is published.
    pub fn channel(&self, published: Option<u64>) -> (channel: Option<u64>)
        ensures
            channel == self.channel_spec(published),
    {
        match published {
            Some(channel) => if channel != self.retired || self.allow_current_channel {
                Some(channel)
            } else {
                None
            },
            None => None,
        }
    }

    /// Whether writes through `channel` release what is owed, given the channel that is
    /// published once they are done.
    pub open spec fn released_by(self, channel: u64, results: Seq<bool>, published: Option<u64>)
        -> bool {
        self.plan.fulfilled(results) && published == Some(channel)
    }

    /// What the writes through `channel` come to, given the channel that is
    /// published once they are done: a write to a channel that was replaced
    /// meanwhile is not final, and a write that failed or was not made leaves all
    /// of it owed.
    pub fn settle(self, channel: u64, results: &Vec<bool>, published: Option<u64>) -> (outcome:
        CaptureSessionOutcome)
        ensures
            (outcome is Restored) == self.released_by(channel, results@, published),
            outcome matches CaptureSessionOutcome::RestorePending(rest) ==> rest == self,
            outcome == if self.plan.fulfilled(results@) && published == Some(channel) {
                CaptureSessionOutcome::Restored
            } else {
                CaptureSessionOutcome::RestorePending(self)
            },
    {
        let current = match published {
            Some(now) => now == channel,
            None => false,
        };
        if self.plan.restore_on(results) && current {
            CaptureSessionOutcome::Restored
        } else {
            CaptureSessionOutcome::RestorePending(self)
        }
    }
}

/// What is to be released after a stop.
pub open spec fn owed_after(
    stop: CaptureStop,
    pending: Option<PendingCaptureRestore>,
) -> Option<PendingCaptureRestore> {
    match (pending, stop) {
        (None, _) => None,
        (Some(pending), CaptureStop::Shutdown) => Some(
            PendingCaptureRestore { allow_current_channel: true, ..pending },
        ),
        (Some(pending), CaptureStop::ChannelChanged) => Some(pending),
    }
}

/// What is to be released after a stop. A deliberate stop may use the channel it
/// still holds; a replaced channel may not be written to.
pub fn restore_after_stop(stop: CaptureStop, pending: Option<PendingCaptureRestore>) -> (owed:
    Option<PendingCaptureRestore>)
    ensures
        owed == owed_after(stop, pending),
        owed == match (pending, stop) {
            (None, _) => None,
            (Some(pending), CaptureStop::Shutdown) => Some(
                PendingCaptureRestore { allow_current_channel: true, ..pending },
            ),
            (Some(pending), CaptureStop::ChannelChanged) => Some(pending),
        },
{
    match pending {
        None => None,
        Some(pending) => match stop {
            CaptureStop::Shutdown => Some(pending.allow_current_channel()),
            CaptureStop::ChannelChanged => Some(pending),
        },
    }
}

/// What a setup that failed tries to release first: what it may have taken, also
/// through the channel it was taking it through.
pub fn rollback_start(pending: Option<PendingCaptureRestore>) -> (owed: Option<
    PendingCaptureRestore,
>)
    ensures
        owed == match pending {
            None => None,
            Some(pending) => Some(
                PendingCaptureRestore { allow_current_channel: true, ..pending },
            ),
        },
{
    match pending {
        None => None,
        Some(pending) => Some(pending.allow_current_channel()),
    }
}

/// What a failed setup leaves: why, and what its rollback could not release.
pub fn setup_failure(error: CaptureError, rollback: CaptureSessionOutcome) -> (failure:
    CaptureSessionFailure)
    ensures
        failure.error == error,
        failure.pending == match rollback {
            CaptureSessionOutcome::Restored => None,
            CaptureSessionOutcome::RestorePending(pending) => Some(pending),
        },
{
    CaptureSessionFailure {
        error,
        pending: match rollback {
            CaptureSessionOutcome::Restored => None,
            CaptureSessionOutcome::RestorePending(pending) => Some(pending),
        },
    }
}

/// The reason for a stop, looked at once more when it happens: a channel that is
/// no longer published wins over a request to stop.
pub fn stop_for_current_publication(is_current: bool) -> (stop: CaptureStop)
    ensures
        stop == if is_current {
            CaptureStop::Shutdown
        } else {
            CaptureStop::ChannelChanged
        },
{
    if is_current {
        CaptureStop::Shutdown
    } else {
        CaptureStop::ChannelChanged
    }
}

/// Capturing a control and handing it back leave its remap target alone. Handing
/// it back always clears diversion and movement, whether or not the control was
/// read before it was captured.
pub proof fn law_undivert_keeps_the_remap(reporting: CidReporting, raw_xy: bool)
    ensures
        divert_spec(reporting, raw_xy).remap == reporting.remap,
        undivert_spec(reporting).remap == reporting.remap,
        undivert_spec(reporting).diverted == Some(false),
        undivert_spec(reporting).raw_xy == Some(false),
        crate::device::report::change_flags(divert_spec(reporting, true)) == 0x33,
        crate::device::report::change_flags(divert_spec(reporting, false)) == 0x23,
        crate::device::report::change_flags(undivert_spec(reporting)) == 0x22,
        crate::device::report::change_flags(bare_undivert()) == 0x22,
{
}

/// Every control in a plan is handed back by one of its writes.
pub proof fn law_every_control_is_handed_back(
    feature_index: u8,
    controls: Seq<ArmedReporting>,
    bare: Seq<u16>,
    plan: CaptureRestorePlan,
)
    requires
        plan.reprog is Some,
        plan.reprog->0.feature_index == feature_index,
        plan.reprog->0.items@ == restore_items(controls, bare),
    ensures
        forall|i: int|
            0 <= i < controls.len() ==> plan_writes(plan)[i] == (RestoreWrite::Reporting {
                feature_index,
                cid: (#[trigger] controls[i]).cid,
                change: undivert_spec(controls[i].original),
            }),
        forall|i: int|
            0 <= i < bare.len() ==> plan_writes(plan)[controls.len() + i] == (
            RestoreWrite::Reporting {
                feature_index,
                cid: #[trigger] bare[i],
                change: bare_undivert(),
            }),
{
    let items = plan.reprog->0.items@;
    assert forall|i: int| 0 <= i < controls.len() implies plan_writes(plan)[i] == (
    RestoreWrite::Reporting {
        feature_index,
        cid: (#[trigger] controls[i]).cid,
        change: undivert_spec(controls[i].original),
    }) by {
        assert(items[i] == ReprogRestoreItem::Reporting(controls[i]));
    }
    assert forall|i: int| 0 <= i < bare.len() implies plan_writes(plan)[controls.len() + i] == (
    RestoreWrite::Reporting { feature_index, cid: #[trigger] bare[i], change: bare_undivert() }) by {
        assert(items[controls.len() + i] == ReprogRestoreItem::Undivert(bare[i]));
    }
}

/// A channel that was replaced is never written to: unless it was allowed, the
/// restore goes through another publication, as soon as there is one.
pub proof fn law_a_replaced_channel_is_never_written_to(
    pending: PendingCaptureRestore,
    published: Option<u64>,
)
    requires
        !pending.allow_current_channel,
    ensures
        pending.channel_spec(published) != Some(pending.retired),
        published is Some && published != Some(pending.retired) ==> pending.channel_spec(published)
            == published,
{
}

} // verus!
