//! Which devices the agent serves and which one it works on.

use vstd::prelude::*;
use crate::agent::devices::{
    alerts, current_index, eligible, first_eligible, served_inventories, served_standalone,
    AgentDevice, AgentModel, BatteryInfo, BatteryLevel, BatteryStatus, DeviceInventory,
    PairedDevice, StandaloneDevice,
};
use crate::config::links::resolved_key;
use crate::config::Config;
use crate::route::{DeviceRoute, RouteModel};
use crate::text::{decimal, hex_word};

verus! {

/// A battery alerts exactly while it discharges at a low or critical level.
pub proof fn law_a_low_battery_alerts_while_it_discharges(battery: BatteryInfo)
    ensures
        battery.alerting() ==> battery.status == BatteryStatus::Discharging && battery.level
            != BatteryLevel::Good && battery.level != BatteryLevel::Full,
        battery.status == BatteryStatus::Discharging && (battery.level == BatteryLevel::Low
            || battery.level == BatteryLevel::Critical) ==> battery.alerting(),
{
}

/// A device behind a receiver is reached by the receiver and its slot, one without by
/// its two numbers; its settings are looked for under the same link.
pub proof fn law_a_device_is_reached_through_its_receiver(inventory: DeviceInventory, slot: u8)
    ensures
        inventory.receiver_uid matches Some(uid) ==> inventory.route_spec(slot)
            == (RouteModel::Bolt { receiver_uid: uid@, slot }) && inventory.link_key(slot)
            == "receiver:"@ + uid@ + ":slot:"@ + decimal(slot as nat),
        inventory.receiver_uid is None ==> inventory.route_spec(slot) == (RouteModel::Direct {
            vendor_id: inventory.vendor_id,
            product_id: inventory.product_id,
        }) && inventory.link_key(slot) == "direct:"@ + hex_word(inventory.vendor_id) + ":"@
            + hex_word(inventory.product_id),
{
}

/// A paired device is served exactly when its settings have a place; then under that
/// place, over its own route, and with what it reported.
pub proof fn law_a_paired_device_is_served_as_it_reports(
    inventory: DeviceInventory,
    config: Config,
    paired: PairedDevice,
)
    ensures
        ({
            let place = resolved_key(
                config.devices.keys(),
                config@,
                paired.identity.key_spec(),
                inventory.link_key(paired.slot),
                inventory.receiver_uid is Some,
            );
            let served = inventory.served(config, paired);
            &&& (served is Some) == (place is Some)
            &&& served matches Some(device) ==> {
                &&& Some(device.config_key) == place
                &&& device.route == Some(inventory.route_spec(paired.slot))
                &&& device.presenter == paired.presenter_controls
                &&& device.online == paired.online
                &&& paired.battery is None ==> !device.low_battery
                &&& paired.battery matches Some(battery) ==> device.low_battery
                    == battery.alerting()
            }
        }),
{
}

/// A standalone device is served exactly when it names itself; it is no presenter and
/// reports no battery, and is reached by its raw address.
pub proof fn law_a_standalone_device_is_served_by_its_own_name(device: StandaloneDevice)
    ensures
        (device.served() is Some) == (device.identity.key_spec() is Some),
        device.served() matches Some(served) ==> {
            &&& Some(served.config_key) == device.identity.key_spec()
            &&& served.route == Some(
                RouteModel::RawHid {
                    vendor_id: device.vendor_id,
                    product_id: device.product_id,
                    usage_page: device.usage_page,
                    usage_id: device.usage_id,
                    identity: device.address@,
                },
            )
            &&& !served.presenter && !served.low_battery
            &&& served.online == device.online
        },
{
}

proof fn lemma_served_first(inventory: DeviceInventory, config: Config, n: int)
    requires
        0 <= n <= inventory.paired@.len(),
    ensures
        inventory.served_first(config, n) == inventory.paired@.take(n).filter(
            |paired: PairedDevice| inventory.served(config, paired) is Some,
        ).map_values(|paired: PairedDevice| inventory.served(config, paired)->0),
    decreases n,
{
    reveal(Seq::filter);
    let keep = |paired: PairedDevice| inventory.served(config, paired) is Some;
    let made = |paired: PairedDevice| inventory.served(config, paired)->0;
    let all = inventory.paired@;
    if n > 0 {
        lemma_served_first(inventory, config, n - 1);
        assert(all.take(n).drop_last() =~= all.take(n - 1));
        assert(all.take(n).last() == all[n - 1]);
        let before = all.take(n - 1).filter(keep);
        assert(before.push(all[n - 1]).map_values(made) =~= before.map_values(made).push(
            made(all[n - 1]),
        ));
    }
    assert(inventory.served_first(config, n) =~= all.take(n).filter(keep).map_values(made));
}

/// Of an inventory every paired device that has a place is served, in order, and no
/// other.
pub proof fn law_an_inventory_is_served_in_order(inventory: DeviceInventory, config: Config)
    ensures
        inventory.served_first(config, inventory.paired@.len() as int) == inventory.paired@.filter(
            |paired: PairedDevice| inventory.served(config, paired) is Some,
        ).map_values(|paired: PairedDevice| inventory.served(config, paired)->0),
{
    lemma_served_first(inventory, config, inventory.paired@.len() as int);
    assert(inventory.paired@.take(inventory.paired@.len() as int) =~= inventory.paired@);
}

/// Inventories are served one after the other.
pub proof fn law_inventories_are_served_one_after_the_other(
    config: Config,
    inventories: Seq<DeviceInventory>,
    n: int,
)
    requires
        0 <= n < inventories.len(),
    ensures
        served_inventories(config, inventories, 0) == Seq::<AgentModel>::empty(),
        served_inventories(config, inventories, n + 1) == served_inventories(config, inventories, n)
            + inventories[n].served_first(config, inventories[n].paired@.len() as int),
{
}

/// Of the standalone devices every one that names itself is served, in order.
pub proof fn law_standalone_devices_are_served_in_order(devices: Seq<StandaloneDevice>, n: int)
    requires
        0 <= n <= devices.len(),
    ensures
        served_standalone(devices, n) == devices.take(n).filter(
            |device: StandaloneDevice| device.served() is Some,
        ).map_values(|device: StandaloneDevice| device.served()->0),
    decreases n,
{
    reveal(Seq::filter);
    let keep = |device: StandaloneDevice| device.served() is Some;
    let made = |device: StandaloneDevice| device.served()->0;
    if n > 0 {
        law_standalone_devices_are_served_in_order(devices, n - 1);
        assert(devices.take(n).drop_last() =~= devices.take(n - 1));
        assert(devices.take(n).last() == devices[n - 1]);
        let before = devices.take(n - 1).filter(keep);
        assert(before.push(devices[n - 1]).map_values(made) =~= before.map_values(made).push(
            made(devices[n - 1]),
        ));
    }
    assert(served_standalone(devices, n) =~= devices.take(n).filter(keep).map_values(made));
}

/// Whether the agent can work on a device: it is not reached by its raw address alone.
pub open spec fn workable(device: AgentDevice) -> bool {
    match device.route {
        Some(DeviceRoute::RawHid { .. }) => false,
        _ => true,
    }
}

/// Whether the device at `i` is the first of its sort: one to work on, connected where
/// that is asked, under the saved key where that is asked.
pub open spec fn first_of(
    devices: Seq<AgentDevice>,
    i: int,
    online: bool,
    saved: Option<Seq<char>>,
) -> bool {
    &&& 0 <= i < devices.len()
    &&& sort_of(devices[i], online, saved)
    &&& forall|k: int| 0 <= k < i ==> !sort_of(#[trigger] devices[k], online, saved)
}

/// Whether there is no such device.
pub open spec fn none_of(devices: Seq<AgentDevice>, online: bool, saved: Option<Seq<char>>) -> bool {
    forall|k: int| 0 <= k < devices.len() ==> !sort_of(#[trigger] devices[k], online, saved)
}

/// Whether a device is one to work on, connected where that is asked, under the saved
/// key where that is asked.
pub open spec fn sort_of(device: AgentDevice, online: bool, saved: Option<Seq<char>>) -> bool {
    &&& workable(device)
    &&& online ==> device.online
    &&& saved is Some ==> device.config_key@ == saved->0
}

proof fn lemma_first_of(
    devices: Seq<AgentDevice>,
    from: int,
    i: int,
    online: bool,
    saved: Option<Seq<char>>,
)
    requires
        0 <= from <= devices.len(),
    ensures
        from <= i < devices.len() && sort_of(devices[i], online, saved) && (forall|k: int|
            from <= k < i ==> !sort_of(#[trigger] devices[k], online, saved)) ==> first_eligible(
            devices,
            from,
            online,
            saved,
        ) == Some(i),
        (forall|k: int|
            from <= k < devices.len() ==> !sort_of(#[trigger] devices[k], online, saved))
            ==> first_eligible(devices, from, online, saved) is None,
    decreases devices.len() - from,
{
    if from < devices.len() {
        assert(eligible(devices, from, online, saved) == sort_of(devices[from], online, saved));
        lemma_first_of(devices, from + 1, i, online, saved);
    }
}

/// The agent works on the saved device while it is connected; else on the first that is
/// connected; else on the saved one though it is not; else on the first there is; else
/// on none in particular.
pub proof fn law_the_saved_device_comes_first(
    devices: Seq<AgentDevice>,
    saved: Option<Seq<char>>,
    i: int,
)
    ensures
        ({
            let current = current_index(devices, saved);
            let saved_here = saved is Some && !none_of(devices, true, saved);
            let any_here = !none_of(devices, true, None);
            let saved_away = saved is Some && !none_of(devices, false, saved);
            let any = !none_of(devices, false, None);
            &&& saved is Some && first_of(devices, i, true, saved) ==> current == i
            &&& !saved_here && first_of(devices, i, true, None) ==> current == i
            &&& !any_here && saved is Some && first_of(devices, i, false, saved) ==> current == i
            &&& !any_here && !saved_away && first_of(devices, i, false, None) ==> current == i
            &&& !any ==> current == 0
        }),
{
    lemma_first_of(devices, 0, i, true, saved);
    lemma_first_of(devices, 0, i, true, None);
    lemma_first_of(devices, 0, i, false, saved);
    lemma_first_of(devices, 0, i, false, None);
    if none_of(devices, true, None) && saved is Some {
        assert forall|k: int| 0 <= k < devices.len() implies !sort_of(
            #[trigger] devices[k],
            true,
            saved,
        ) by {
            assert(!sort_of(devices[k], true, None));
        }
    }
    if none_of(devices, false, None) {
        assert forall|k: int| 0 <= k < devices.len() implies !sort_of(
            #[trigger] devices[k],
            true,
            None,
        ) by {
            assert(!sort_of(devices[k], false, None));
        }
        assert forall|k: int| 0 <= k < devices.len() implies !sort_of(
            #[trigger] devices[k],
            false,
            saved,
        ) by {
            assert(!sort_of(devices[k], false, None));
        }
        assert forall|k: int| 0 <= k < devices.len() implies !sort_of(
            #[trigger] devices[k],
            true,
            saved,
        ) by {
            assert(!sort_of(devices[k], false, None));
        }
    }
}

/// Only a presenter with a low battery vibrates for it.
pub proof fn law_only_presenters_vibrate_for_their_battery(devices: Seq<AgentDevice>, i: int)
    ensures
        alerts(devices, i) == (devices[i].low_battery && devices[i].presenter),
{
}

} // verus!
