//! Report bytes: requests of both protocol generations, and the records of the
//! reprogrammable-control feature.

use vstd::prelude::*;

verus! {

/// Report id of a short report.
pub const SHORT_REPORT: u8 = 0x10;

/// Report id of a long report.
pub const LONG_REPORT: u8 = 0x11;

/// The high byte of `value`.
pub open spec fn high_byte(value: u16) -> u8 {
    (value / 256) as u8
}

/// The low byte of `value`.
pub open spec fn low_byte(value: u16) -> u8 {
    (value % 256) as u8
}

/// The value with these bytes.
pub open spec fn from_bytes(high: u8, low: u8) -> u16 {
    (high * 256 + low) as u16
}

/// The two bytes of a value, the high one first.
pub fn to_be_bytes(value: u16) -> (bytes: (u8, u8))
    ensures
        bytes == (high_byte(value), low_byte(value)),
        from_bytes(bytes.0, bytes.1) == value,
{
    ((value / 256) as u8, (value % 256) as u8)
}

/// The value with these bytes, the high one first.
pub fn from_be_bytes(high: u8, low: u8) -> (value: u16)
    ensures
        value == from_bytes(high, low),
        high_byte(value) == high,
        low_byte(value) == low,
{
    high as u16 * 256 + low as u16
}

/// A short feature call.
pub fn hidpp20_short(
    device_index: u8,
    feature_index: u8,
    function: u8,
    payload: [u8; 3],
) -> (report: Vec<u8>)
    requires
        function < 16,
    ensures
        report@ == seq![
            SHORT_REPORT,
            device_index,
            feature_index,
            (function * 16) as u8,
            payload@[0],
            payload@[1],
            payload@[2],
        ],
{
    let report = vec![
        SHORT_REPORT,
        device_index,
        feature_index,
        function * 16,
        payload[0],
        payload[1],
        payload[2],
    ];
    assert(report@ =~= seq![
        SHORT_REPORT,
        device_index,
        feature_index,
        (function * 16) as u8,
        payload@[0],
        payload@[1],
        payload@[2],
    ]);
    report
}

/// A long feature call.
pub fn hidpp20_long(
    device_index: u8,
    feature_index: u8,
    function: u8,
    payload: [u8; 16],
) -> (report: Vec<u8>)
    requires
        function < 16,
    ensures
        report@ == seq![LONG_REPORT, device_index, feature_index, (function * 16) as u8]
            + payload@,
{
    let mut report: Vec<u8> = vec![LONG_REPORT, device_index, feature_index, function * 16];
    let ghost head = report@;
    assert(head =~= seq![LONG_REPORT, device_index, feature_index, (function * 16) as u8]);
    let mut i: usize = 0;
    assert(payload@.take(0) =~= Seq::<u8>::empty());
    while i < 16
        invariant
            i <= 16,
            report@ == head + payload@.take(i as int),
        decreases 16 - i,
    {
        report.push(payload[i]);
        assert(payload@.take(i + 1) =~= payload@.take(i as int).push(payload@[i as int]));
        i = i + 1;
    }
    assert(payload@.take(16) =~= payload@);
    report
}

/// A register write of the older protocol to the receiver.
pub fn hidpp10_register_write(address: u8, payload: [u8; 3]) -> (report: Vec<u8>)
    ensures
        report@ == seq![
            SHORT_REPORT,
            0xffu8,
            0x80u8,
            address,
            payload@[0],
            payload@[1],
            payload@[2],
        ],
{
    let report = vec![
        SHORT_REPORT,
        0xffu8,
        0x80u8,
        address,
        payload[0],
        payload[1],
        payload[2],
    ];
    assert(report@ =~= seq![
        SHORT_REPORT,
        0xffu8,
        0x80u8,
        address,
        payload@[0],
        payload@[1],
        payload@[2],
    ]);
    report
}

/// The request that asks a directly connected device where it keeps a feature.
pub fn root_feature_lookup_request(feature_id: u16) -> (report: Vec<u8>)
    ensures
        report@ == seq![
            SHORT_REPORT,
            0xffu8,
            0u8,
            0u8,
            high_byte(feature_id),
            low_byte(feature_id),
            0u8,
        ],
{
    let (high, low) = to_be_bytes(feature_id);
    let report = hidpp20_short(0xff, 0, 0, [high, low, 0]);
    assert(report@ =~= seq![
        SHORT_REPORT,
        0xffu8,
        0u8,
        0u8,
        high_byte(feature_id),
        low_byte(feature_id),
        0u8,
    ]);
    report
}

/// How a control reports, as the device stores it.
#[derive(Clone, Copy, Debug, PartialEq, Eq, Structural)]
pub struct CidReporting {
    /// Whether its events go to the host.
    pub diverted: bool,
    /// Whether pointer movement goes to the host while it is held.
    pub raw_xy: bool,
    /// The control it acts as, when it is remapped.
    pub remap: Option<u16>,
}

/// A change to how a control reports. What is absent stays as it is.
#[derive(Clone, Copy, Debug, PartialEq, Eq, Structural)]
pub struct CidReportingChange {
    /// Whether its events go to the host.
    pub diverted: Option<bool>,
    /// Whether pointer movement goes to the host while it is held.
    pub raw_xy: Option<bool>,
    /// The control it acts as.
    pub remap: Option<u16>,
}

/// A row of the control table.
#[derive(Clone, Copy, Debug, PartialEq, Eq, Structural)]
pub struct CtrlIdInfo {
    /// The control.
    pub cid: u16,
    /// What the control is for.
    pub task_id: u16,
    /// Capability flags.
    pub flags: u8,
    /// Additional capability flags.
    pub additional_flags: u8,
}

impl CtrlIdInfo {
    /// Whether the control's events can go to the host.
    pub open spec fn divertable(self) -> bool {
        self.flags & 0x20 != 0
    }

    /// Whether pointer movement can go to the host while the control is held.
    pub open spec fn raw_xy_capable(self) -> bool {
        self.additional_flags & 0x01 != 0
    }

    /// Whether the control's events can go to the host.
    pub fn is_divertable(&self) -> (divertable: bool)
        ensures
            divertable == self.divertable(),
    {
        self.flags & 0x20 != 0
    }

    /// Whether pointer movement can go to the host while the control is held.
    pub fn supports_raw_xy(&self) -> (capable: bool)
        ensures
            capable == self.raw_xy_capable(),
    {
        self.additional_flags & 0x01 != 0
    }

    /// Reads a row from the payload of a reply.
    pub fn decode(payload: &[u8; 16]) -> (info: CtrlIdInfo)
        ensures
            info.cid == from_bytes(payload@[0], payload@[1]),
            info.task_id == from_bytes(payload@[2], payload@[3]),
            info.flags == payload@[4],
            info.additional_flags == payload@[8],
    {
        CtrlIdInfo {
            cid: from_be_bytes(payload[0], payload[1]),
            task_id: from_be_bytes(payload[2], payload[3]),
            flags: payload[4],
            additional_flags: payload[8],
        }
    }
}

impl CidReporting {
    /// How a control reports, as the payload of a reply says.
    pub open spec fn decoded(payload: Seq<u8>) -> CidReporting {
        CidReporting {
            diverted: payload[2] & 0x01 != 0,
            raw_xy: payload[2] & 0x10 != 0,
            remap: if from_bytes(payload[3], payload[4]) == 0 {
                None
            } else {
                Some(from_bytes(payload[3], payload[4]))
            },
        }
    }

    /// Reads how a control reports from the payload of a reply: a remap target
    /// of zero is none.
    pub fn decode(payload: &[u8; 16]) -> (reporting: CidReporting)
        ensures
            reporting == CidReporting::decoded(payload@),
            reporting.diverted == (payload@[2] & 0x01 != 0),
            reporting.raw_xy == (payload@[2] & 0x10 != 0),
            reporting.remap == if from_bytes(payload@[3], payload@[4]) == 0 {
                None
            } else {
                Some(from_bytes(payload@[3], payload@[4]))
            },
    {
        let remap: u16 = from_be_bytes(payload[3], payload[4]);
        CidReporting {
            diverted: payload[2] & 0x01 != 0,
            raw_xy: payload[2] & 0x10 != 0,
            remap: if remap == 0 {
                None
            } else {
                Some(remap)
            },
        }
    }
}

/// The flag byte of a change: each present field sets its validity bit, and its
/// value bit when it is on.
pub open spec fn change_flags(change: CidReportingChange) -> int {
    (match change.diverted {
        Some(on) => if on {
            3int
        } else {
            2
        },
        None => 0,
    }) + (match change.raw_xy {
        Some(on) => if on {
            0x30int
        } else {
            0x20
        },
        None => 0,
    })
}

/// The payload of a call that changes how `cid` reports.
pub open spec fn change_payload(cid: u16, change: CidReportingChange) -> Seq<u8> {
    let remap: u16 = match change.remap {
        Some(target) => target,
        None => 0,
    };
    Seq::new(
        16,
        |i: int|
            if i == 0 {
                high_byte(cid)
            } else if i == 1 {
                low_byte(cid)
            } else if i == 2 {
                change_flags(change) as u8
            } else if i == 3 {
                high_byte(remap)
            } else if i == 4 {
                low_byte(remap)
            } else {
                0
            },
    )
}

/// The payload of a call that changes how `cid` reports.
pub fn reprog_reporting_change_payload(cid: u16, change: CidReportingChange) -> (payload: [u8; 16])
    ensures
        payload@ == change_payload(cid, change),
{
    let (cid_high, cid_low) = to_be_bytes(cid);
    let remap: u16 = match change.remap {
        Some(target) => target,
        None => 0,
    };
    let (remap_high, remap_low) = to_be_bytes(remap);
    let divert: u8 = match change.diverted {
        Some(on) => if on {
            3
        } else {
            2
        },
        None => 0,
    };
    let raw_xy: u8 = match change.raw_xy {
        Some(on) => if on {
            0x30
        } else {
            0x20
        },
        None => 0,
    };
    let payload: [u8; 16] = [
        cid_high,
        cid_low,
        divert + raw_xy,
        remap_high,
        remap_low,
        0,
        0,
        0,
        0,
        0,
        0,
        0,
        0,
        0,
        0,
        0,
    ];
    assert(payload@ =~= change_payload(cid, change));
    payload
}

/// The call that changes how `cid` reports.
pub fn set_cid_reporting(
    device_index: u8,
    feature_index: u8,
    cid: u16,
    change: CidReportingChange,
) -> (report: Vec<u8>)
    ensures
        report@ == seq![LONG_REPORT, device_index, feature_index, 0x30u8] + change_payload(
            cid,
            change,
        ),
{
    hidpp20_long(device_index, feature_index, 3, reprog_reporting_change_payload(cid, change))
}

/// What a change writes, a device reads back: the control, and the diversion and
/// movement bits that were set.
pub proof fn law_change_reads_back(cid: u16, change: CidReportingChange)
    ensures
        from_bytes(change_payload(cid, change)[0], change_payload(cid, change)[1]) == cid,
        change.diverted is Some ==> (change_payload(cid, change)[2] & 0x01 != 0)
            == change.diverted->0,
        change.raw_xy is Some ==> (change_payload(cid, change)[2] & 0x10 != 0) == change.raw_xy->0,
        change.remap is Some ==> from_bytes(
            change_payload(cid, change)[3],
            change_payload(cid, change)[4],
        ) == change.remap->0,
{
    assert(0x33u8 & 0x01 != 0 && 0x33u8 & 0x10 != 0 && 0x32u8 & 0x01 == 0 && 0x32u8 & 0x10 != 0
        && 0x23u8 & 0x01 != 0 && 0x23u8 & 0x10 == 0 && 0x22u8 & 0x01 == 0 && 0x22u8 & 0x10 == 0
        && 0x03u8 & 0x01 != 0 && 0x02u8 & 0x01 == 0 && 0x30u8 & 0x10 != 0 && 0x20u8 & 0x10 == 0)
        by (bit_vector);
}

} // verus!
