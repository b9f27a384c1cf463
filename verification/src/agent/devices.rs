//! The devices that the agent serves: which of them is current, what the battery
//! of one calls for, and what a reload publishes to the wheels.

use vstd::prelude::*;
use crate::config::links::{resolved_key, DeviceStableId, LinkAddress, UnitIdentity};
use crate::config::scroll::{VerticalScrollSensitivity, VERTICAL_DEFAULT};
use crate::config::settings::AppSettings;
use crate::config::Config;
use crate::order::Duplicate;
use crate::route::{DeviceRoute, RouteModel};
use crate::text::same_text;

verus! {

/// How full a battery is.
#[derive(Clone, Copy, Debug, PartialEq, Eq, Structural)]
pub enum BatteryLevel {
    /// About to be empty.
    Critical,
    /// Low.
    Low,
    /// Neither low nor full.
    Good,
    /// Full.
    Full,
}

/// What a battery is doing.
#[derive(Clone, Copy, Debug, PartialEq, Eq, Structural)]
pub enum BatteryStatus {
    /// Being used up.
    Discharging,
    /// Being charged.
    Charging,
    /// Charged.
    Full,
    /// Something went wrong.
    Error,
}

/// What a device says of its battery.
#[derive(Clone, Copy, Debug, PartialEq, Eq, Structural)]
pub struct BatteryInfo {
    /// How full it is, in percent.
    pub percentage: u8,
    /// How full it is.
    pub level: BatteryLevel,
    /// What it is doing.
    pub status: BatteryStatus,
}

impl BatteryInfo {
    /// Whether the battery calls for an alert: only a low one that is being used
    /// up does.
    pub open spec fn alerting(self) -> bool {
        (self.level == BatteryLevel::Low || self.level == BatteryLevel::Critical) && self.status
            == BatteryStatus::Discharging
    }
}

/// Whether a battery calls for an alert: only a low one that is being used up.
pub fn battery_needs_alert(battery: &BatteryInfo) -> (needs: bool)
    ensures
        needs == battery.alerting(),
{
    (battery.level == BatteryLevel::Low || battery.level == BatteryLevel::Critical)
        && battery.status == BatteryStatus::Discharging
}

/// A device that the agent serves.
#[derive(Debug, PartialEq, Eq)]
pub struct AgentDevice {
    /// The key its configuration stands under.
    pub config_key: String,
    /// How it is reached, when that is known.
    pub route: Option<DeviceRoute>,
    /// Whether it has the controls of a presenter.
    pub presenter: bool,
    /// Whether it is connected.
    pub online: bool,
    /// Whether its battery calls for an alert.
    pub low_battery: bool,
}

/// A device that the agent serves, its texts read as characters.
pub struct AgentModel {
    /// The key its configuration stands under.
    pub config_key: Seq<char>,
    /// How it is reached, when that is known.
    pub route: Option<RouteModel>,
    /// Whether it has the controls of a presenter.
    pub presenter: bool,
    /// Whether it is connected.
    pub online: bool,
    /// Whether its battery calls for an alert.
    pub low_battery: bool,
}

impl View for AgentDevice {
    type V = AgentModel;

    open spec fn view(&self) -> AgentModel {
        AgentModel {
            config_key: self.config_key@,
            route: match self.route {
                Some(route) => Some(route@),
                None => None,
            },
            presenter: self.presenter,
            online: self.online,
            low_battery: self.low_battery,
        }
    }
}

/// A device that was found on a connection.
#[derive(Debug, PartialEq, Eq)]
pub struct PairedDevice {
    /// Its slot on the receiver.
    pub slot: u8,
    /// Whether it answers.
    pub online: bool,
    /// What it says of its battery.
    pub battery: Option<BatteryInfo>,
    /// What it says of itself.
    pub identity: UnitIdentity,
    /// Whether it has the controls of a presenter.
    pub presenter_controls: bool,
}

/// A connection with the devices that were found on it: those of a receiver, or
/// the one that is connected by itself.
#[derive(Debug, PartialEq, Eq)]
pub struct DeviceInventory {
    /// USB vendor.
    pub vendor_id: u16,
    /// USB product.
    pub product_id: u16,
    /// Identity of the receiver, when it is one.
    pub receiver_uid: Option<String>,
    /// The devices.
    pub paired: Vec<PairedDevice>,
}

/// A device that speaks only raw reports.
#[derive(Debug, PartialEq, Eq)]
pub struct StandaloneDevice {
    /// USB vendor.
    pub vendor_id: u16,
    /// USB product.
    pub product_id: u16,
    /// Usage page of the report collection.
    pub usage_page: u16,
    /// Usage of the report collection.
    pub usage_id: u16,
    /// What tells this unit apart among those that are connected.
    pub address: String,
    /// What it says of itself.
    pub identity: UnitIdentity,
    /// Whether it answers.
    pub online: bool,
}

impl DeviceInventory {
    /// Where the device in `slot` is.
    pub open spec fn route_spec(self, slot: u8) -> RouteModel {
        match self.receiver_uid {
            Some(uid) => RouteModel::Bolt { receiver_uid: uid@, slot },
            None => RouteModel::Direct { vendor_id: self.vendor_id, product_id: self.product_id },
        }
    }

    /// The key of the link that the device in `slot` is on.
    pub open spec fn link_key(self, slot: u8) -> Seq<char> {
        match self.receiver_uid {
            Some(uid) => (LinkAddress::Receiver { uid, slot }).key_spec(),
            None => (LinkAddress::Direct {
                vendor_id: self.vendor_id,
                product_id: self.product_id,
            }).key_spec(),
        }
    }

    /// What the agent serves of a device that was found: nothing while its
    /// settings have no key.
    pub open spec fn served(self, config: Config, paired: PairedDevice) -> Option<AgentModel> {
        match resolved_key(
            config.devices.keys(),
            config@,
            paired.identity.key_spec(),
            self.link_key(paired.slot),
            self.receiver_uid is Some,
        ) {
            Some(config_key) => Some(
                AgentModel {
                    config_key,
                    route: Some(self.route_spec(paired.slot)),
                    presenter: paired.presenter_controls,
                    online: paired.online,
                    low_battery: paired.battery matches Some(battery) && battery.alerting(),
                },
            ),
            None => None,
        }
    }

    /// What the agent serves of the first `n` devices of a connection.
    pub open spec fn served_first(self, config: Config, n: int) -> Seq<AgentModel>
        decreases n,
    {
        if n <= 0 {
            Seq::empty()
        } else {
            let rest = self.served_first(config, n - 1);
            match self.served(config, self.paired@[n - 1]) {
                Some(device) => rest.push(device),
                None => rest,
            }
        }
    }

    /// Adds what the agent serves of this connection.
    fn serve(&self, config: &Config, out: &mut Vec<AgentDevice>)
        ensures
            agents_view(final(out)@) == agents_view(old(out)@) + self.served_first(
                *config,
                self.paired@.len() as int,
            ),
    {
        let ghost before = agents_view(out@);
        let mut i: usize = 0;
        assert(before + self.served_first(*config, 0) =~= before);
        while i < self.paired.len()
            invariant
                i <= self.paired@.len(),
                agents_view(out@) == before + self.served_first(*config, i as int),
            decreases self.paired@.len() - i,
        {
            let paired = &self.paired[i];
            let (address, route) = match &self.receiver_uid {
                Some(uid) => (
                    LinkAddress::Receiver { uid: uid.duplicate(), slot: paired.slot },
                    DeviceRoute::Bolt { receiver_uid: uid.duplicate(), slot: paired.slot },
                ),
                None => (
                    LinkAddress::Direct {
                        vendor_id: self.vendor_id,
                        product_id: self.product_id,
                    },
                    DeviceRoute::Direct {
                        vendor_id: self.vendor_id,
                        product_id: self.product_id,
                    },
                ),
            };
            let id = DeviceStableId { identity: paired.identity.duplicate(), address };
            let ghost listed = agents_view(out@);
            if let Some(config_key) = config.resolve_device_key(&id) {
                let low_battery = match &paired.battery {
                    Some(battery) => battery_needs_alert(battery),
                    None => false,
                };
                let device = AgentDevice {
                    config_key,
                    route: Some(route),
                    presenter: paired.presenter_controls,
                    online: paired.online,
                    low_battery,
                };
                let ghost model = device@;
                out.push(device);
                assert(agents_view(out@) =~= listed.push(model));
                assert(self.served(*config, self.paired@[i as int]) == Some(model));
            }
            assert(agents_view(out@) =~= before + self.served_first(*config, i + 1));
            i = i + 1;
        }
    }
}

impl StandaloneDevice {
    /// What the agent serves of a standalone device: nothing while it does not
    /// say who it is.
    pub open spec fn served(self) -> Option<AgentModel> {
        match self.identity.key_spec() {
            Some(config_key) => Some(
                AgentModel {
                    config_key,
                    route: Some(
                        RouteModel::RawHid {
                            vendor_id: self.vendor_id,
                            product_id: self.product_id,
                            usage_page: self.usage_page,
                            usage_id: self.usage_id,
                            identity: self.address@,
                        },
                    ),
                    presenter: false,
                    online: self.online,
                    low_battery: false,
                },
            ),
            None => None,
        }
    }
}

/// The views of a list of devices.
pub open spec fn agents_view(devices: Seq<AgentDevice>) -> Seq<AgentModel> {
    devices.map_values(|device: AgentDevice| device@)
}

/// What the agent serves of the first `n` connections.
pub open spec fn served_inventories(
    config: Config,
    inventories: Seq<DeviceInventory>,
    n: int,
) -> Seq<AgentModel>
    decreases n,
{
    if n <= 0 {
        Seq::empty()
    } else {
        served_inventories(config, inventories, n - 1) + inventories[n - 1].served_first(
            config,
            inventories[n - 1].paired@.len() as int,
        )
    }
}

/// What the agent serves of the first `n` standalone devices.
pub open spec fn served_standalone(devices: Seq<StandaloneDevice>, n: int) -> Seq<AgentModel>
    decreases n,
{
    if n <= 0 {
        Seq::empty()
    } else {
        let rest = served_standalone(devices, n - 1);
        match devices[n - 1].served() {
            Some(device) => rest.push(device),
            None => rest,
        }
    }
}

/// The devices the agent serves: those found on connections, then the standalone
/// ones, each under the key its settings stand under. A device without such a key
/// is left out.
pub fn build_devices(
    config: &Config,
    inventories: &Vec<DeviceInventory>,
    standalone: &Vec<StandaloneDevice>,
) -> (devices: Vec<AgentDevice>)
    ensures
        agents_view(devices@) == served_inventories(
            *config,
            inventories@,
            inventories@.len() as int,
        ) + served_standalone(standalone@, standalone@.len() as int),
{
    let mut out: Vec<AgentDevice> = Vec::new();
    let mut i: usize = 0;
    assert(agents_view(out@) =~= served_inventories(*config, inventories@, 0));
    while i < inventories.len()
        invariant
            i <= inventories@.len(),
            agents_view(out@) == served_inventories(*config, inventories@, i as int),
        decreases inventories@.len() - i,
    {
        inventories[i].serve(config, &mut out);
        i = i + 1;
    }
    let ghost found = agents_view(out@);
    let mut j: usize = 0;
    assert(found + served_standalone(standalone@, 0) =~= found);
    while j < standalone.len()
        invariant
            j <= standalone@.len(),
            agents_view(out@) == found + served_standalone(standalone@, j as int),
        decreases standalone@.len() - j,
    {
        let light = &standalone[j];
        let ghost listed = agents_view(out@);
        if let Some(config_key) = light.identity.key() {
            let device = AgentDevice {
                config_key,
                route: Some(
                    DeviceRoute::RawHid {
                        vendor_id: light.vendor_id,
                        product_id: light.product_id,
                        usage_page: light.usage_page,
                        usage_id: light.usage_id,
                        identity: light.address.duplicate(),
                    },
                ),
                presenter: false,
                online: light.online,
                low_battery: false,
            };
            let ghost model = device@;
            out.push(device);
            assert(agents_view(out@) =~= listed.push(model));
        }
        assert(agents_view(out@) =~= found + served_standalone(standalone@, j + 1));
        j = j + 1;
    }
    out
}

impl AgentDevice {
    /// Whether its buttons can be captured: a standalone device, which is reached
    /// by raw reports, has none.
    pub open spec fn capturable(self) -> bool {
        !(self.route matches Some(DeviceRoute::RawHid { .. }))
    }

    /// Whether its buttons can be captured.
    pub fn can_capture(&self) -> (can: bool)
        ensures
            can == self.capturable(),
    {
        match &self.route {
            Some(DeviceRoute::RawHid { .. }) => false,
            _ => true,
        }
    }
}

/// Whether the device at `i` may be current: it can be captured, is connected if
/// `online`, and stands under `saved` if that is given.
pub open spec fn eligible(
    devices: Seq<AgentDevice>,
    i: int,
    online: bool,
    saved: Option<Seq<char>>,
) -> bool {
    &&& devices[i].capturable()
    &&& online ==> devices[i].online
    &&& saved matches Some(key) ==> devices[i].config_key@ == key
}

/// Where the first eligible device from `from` on is, if there is one.
pub open spec fn first_eligible(
    devices: Seq<AgentDevice>,
    from: int,
    online: bool,
    saved: Option<Seq<char>>,
) -> Option<int>
    decreases devices.len() - from,
{
    if from < 0 || from >= devices.len() {
        None
    } else if eligible(devices, from, online, saved) {
        Some(from)
    } else {
        first_eligible(devices, from + 1, online, saved)
    }
}

/// Which device is current: the saved one while it is connected, else the first
/// that is connected, else the saved one, else the first. A standalone device
/// never is, unless there is no other.
pub open spec fn current_index(devices: Seq<AgentDevice>, saved: Option<Seq<char>>) -> int {
    let saved_online = if saved is Some {
        first_eligible(devices, 0, true, saved)
    } else {
        None
    };
    let saved_offline = if saved is Some {
        first_eligible(devices, 0, false, saved)
    } else {
        None
    };
    match (
        saved_online,
        first_eligible(devices, 0, true, None),
        saved_offline,
        first_eligible(devices, 0, false, None),
    ) {
        (Some(i), _, _, _) => i,
        (None, Some(i), _, _) => i,
        (None, None, Some(i), _) => i,
        (None, None, None, Some(i)) => i,
        (None, None, None, None) => 0,
    }
}

/// Where the first eligible device is, if there is one.
fn find_eligible(devices: &Vec<AgentDevice>, online: bool, saved: Option<&str>) -> (found: Option<
    usize,
>)
    ensures
        match found {
            Some(i) => first_eligible(
                devices@,
                0,
                online,
                match saved {
                    Some(key) => Some(key@),
                    None => None,
                },
            ) == Some(i as int),
            None => first_eligible(
                devices@,
                0,
                online,
                match saved {
                    Some(key) => Some(key@),
                    None => None,
                },
            ) is None,
        },
{
    let ghost key: Option<Seq<char>> = match saved {
        Some(key) => Some(key@),
        None => None,
    };
    let mut i: usize = 0;
    while i < devices.len()
        invariant
            i <= devices@.len(),
            key == (match saved {
                Some(key) => Some(key@),
                None => None,
            }),
            first_eligible(devices@, 0, online, key) == first_eligible(
                devices@,
                i as int,
                online,
                key,
            ),
        decreases devices@.len() - i,
    {
        let named = match saved {
            Some(key) => same_text(devices[i].config_key.as_str(), key),
            None => true,
        };
        if devices[i].can_capture() && (!online || devices[i].online) && named {
            assert(eligible(devices@, i as int, online, key));
            return Some(i);
        }
        assert(!eligible(devices@, i as int, online, key));
        i = i + 1;
    }
    None
}

/// Which device is current, given the key that was saved.
pub fn pick_current(devices: &Vec<AgentDevice>, saved: Option<&str>) -> (current: usize)
    ensures
        current == current_index(
            devices@,
            match saved {
                Some(key) => Some(key@),
                None => None,
            },
        ),
{
    if saved.is_some() {
        if let Some(i) = find_eligible(devices, true, saved) {
            return i;
        }
    }
    if let Some(i) = find_eligible(devices, true, None) {
        return i;
    }
    if saved.is_some() {
        if let Some(i) = find_eligible(devices, false, saved) {
            return i;
        }
    }
    match find_eligible(devices, false, None) {
        Some(i) => i,
        None => 0,
    }
}

/// Whether the device at `i` is a presenter whose battery calls for an alert.
pub open spec fn alerts(devices: Seq<AgentDevice>, i: int) -> bool {
    devices[i].presenter && devices[i].low_battery
}

/// The presenters whose batteries call for an alert, in order.
pub fn presenter_low_battery_alerts(devices: &Vec<AgentDevice>) -> (found: Vec<usize>)
    ensures
        forall|a: int, b: int| 0 <= a < b < found@.len() ==> found@[a] < found@[b],
        forall|i: usize|
            #![trigger found@.contains(i)]
            found@.contains(i) == (i < devices@.len() && alerts(devices@, i as int)),
{
    let mut found: Vec<usize> = Vec::new();
    let mut n: usize = 0;
    while n < devices.len()
        invariant
            n <= devices@.len(),
            forall|a: int, b: int| 0 <= a < b < found@.len() ==> found@[a] < found@[b],
            forall|a: int| 0 <= a < found@.len() ==> found@[a] < n,
            forall|i: usize|
                #![trigger found@.contains(i)]
                found@.contains(i) == (i < n && alerts(devices@, i as int)),
        decreases devices@.len() - n,
    {
        if devices[n].presenter && devices[n].low_battery {
            let ghost before = found@;
            found.push(n);
            proof {
                assert(alerts(devices@, n as int));
                assert forall|i: usize|
                    #![trigger found@.contains(i)]
                    found@.contains(i) == (i < n + 1 && alerts(devices@, i as int)) by {
                    assert(before.contains(i) == (i < n && alerts(devices@, i as int)));
                    if i == n {
                        assert(found@[before.len() as int] == i);
                    } else if before.contains(i) {
                        let k = choose|k: int| 0 <= k < before.len() && before[k] == i;
                        assert(found@[k] == i);
                    } else if found@.contains(i) {
                        let k = choose|k: int| 0 <= k < found@.len() && found@[k] == i;
                        assert(k < before.len());
                        assert(before[k] == i);
                    }
                }
            }
        } else {
            assert(!alerts(devices@, n as int));
        }
        n = n + 1;
    }
    found
}

/// While a device that can be captured is connected, the current one is such a
/// device, and it is the saved one if that is among them.
pub proof fn law_the_current_device_is_connected_where_one_is(
    devices: Seq<AgentDevice>,
    saved: Option<Seq<char>>,
    i: int,
)
    requires
        0 <= i < devices.len(),
        devices[i].capturable(),
        devices[i].online,
    ensures
        ({
            let current = current_index(devices, saved);
            &&& 0 <= current < devices.len()
            &&& devices[current].online
            &&& devices[current].capturable()
            &&& saved == Some(devices[i].config_key@) ==> devices[current].config_key@
                == devices[i].config_key@
        }),
{
    lemma_first_eligible(devices, 0, true, saved);
    lemma_first_eligible(devices, 0, true, None);
    assert(eligible(devices, i, true, None));
    if saved == Some(devices[i].config_key@) {
        assert(eligible(devices, i, true, saved));
    }
}

/// The first eligible device is eligible, and where there is none, none is.
proof fn lemma_first_eligible(
    devices: Seq<AgentDevice>,
    from: int,
    online: bool,
    saved: Option<Seq<char>>,
)
    requires
        0 <= from,
    ensures
        match first_eligible(devices, from, online, saved) {
            Some(i) => from <= i < devices.len() && eligible(devices, i, online, saved),
            None => forall|i: int|
                from <= i < devices.len() ==> !#[trigger] eligible(devices, i, online, saved),
        },
    decreases devices.len() - from,
{
    if from < devices.len() && !eligible(devices, from, online, saved) {
        lemma_first_eligible(devices, from + 1, online, saved);
    }
}

/// What the wheels scroll by.
#[derive(Clone, Copy, Debug, PartialEq, Eq, Structural)]
pub struct ScrollPreferences {
    /// Whether they scroll smoothly.
    pub smooth_scroll: bool,
    /// How strongly the main wheel scrolls.
    pub vertical_sensitivity: VerticalScrollSensitivity,
}

impl ScrollPreferences {
    /// Takes the preferences over from a configuration that was read again.
    pub fn reload(&mut self, settings: &AppSettings)
        ensures
            *final(self) == (ScrollPreferences {
                smooth_scroll: settings.smooth_scroll,
                vertical_sensitivity: settings.vertical_scroll_sensitivity,
            }),
    {
        self.smooth_scroll = settings.smooth_scroll;
        self.vertical_sensitivity = settings.vertical_scroll_sensitivity;
    }
}

impl Default for ScrollPreferences {
    fn default() -> (preferences: Self)
        ensures
            preferences == (ScrollPreferences {
                smooth_scroll: false,
                vertical_sensitivity: VerticalScrollSensitivity { level: VERTICAL_DEFAULT },
            }),
    {
        ScrollPreferences {
            smooth_scroll: false,
            vertical_sensitivity: VerticalScrollSensitivity::default(),
        }
    }
}

} // verus!
