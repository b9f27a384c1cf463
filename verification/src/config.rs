//! The stored configuration: what each device remembers, and how it is read.

use vstd::prelude::*;
use crate::action_ring::{ActionRing, RingModel};
use crate::binding::{Action, Binding, BindingModel, ButtonId, GestureDirection};
use crate::config::identity::{DeviceIdentity, IdentityModel};
use crate::config::links::{Dpi, LinkConfig};
use crate::order::Duplicate;
use crate::presenter::{default_settings_spec, PresenterSettings};
use crate::table::Table;

pub mod gestures;
pub mod identity;
pub mod laws;
pub mod links;
pub mod per_app;
pub mod scroll;
pub mod settings;

verus! {

/// The version of the layout that a configuration is kept in; older ones are
/// brought to it when they are read.
pub const SCHEMA_VERSION: u32 = 9;

/// What one device remembers.
#[derive(Debug, PartialEq, Eq)]
pub struct DeviceConfig {
    /// What each button is bound to.
    pub bindings: Table<ButtonId, Binding>,
    /// Direction maps of buttons that left gesture mode.
    pub disabled_gestures: Table<ButtonId, Table<GestureDirection, Action>>,
    /// Button overrides per application.
    pub per_app_bindings: Table<String, Table<ButtonId, Action>>,
    /// Presenter settings per application.
    pub per_app_presenter: Table<String, PresenterSettings>,
    /// Presenter settings of the device.
    pub presenter: PresenterSettings,
    /// The ring of actions.
    pub action_ring: ActionRing,
    /// What device it is.
    pub identity: Option<DeviceIdentity>,
    /// Its resolution, on links that set none.
    pub dpi: Option<Dpi>,
    /// The links it was seen on.
    pub links: Table<String, LinkConfig>,
}

/// What one device remembers, its tables read as maps.
pub struct DeviceModel {
    /// What each button is bound to.
    pub bindings: Map<ButtonId, BindingModel>,
    /// Direction maps of buttons that left gesture mode.
    pub disabled_gestures: Map<ButtonId, Map<GestureDirection, Action>>,
    /// Button overrides per application.
    pub per_app_bindings: Map<Seq<char>, Map<ButtonId, Action>>,
    /// Presenter settings per application.
    pub per_app_presenter: Map<Seq<char>, PresenterSettings>,
    /// Presenter settings of the device.
    pub presenter: PresenterSettings,
    /// The ring of actions.
    pub action_ring: RingModel,
    /// What device it is.
    pub identity: Option<IdentityModel>,
    /// Its resolution, on links that set none.
    pub dpi: Option<Dpi>,
    /// The links it was seen on.
    pub links: Map<Seq<char>, LinkConfig>,
}

/// The whole configuration.
#[derive(Debug, PartialEq, Eq)]
pub struct Config {
    /// Every device by its key.
    pub devices: Table<String, DeviceConfig>,
}

impl View for DeviceConfig {
    type V = DeviceModel;

    open spec fn view(&self) -> DeviceModel {
        DeviceModel {
            bindings: self.bindings@,
            disabled_gestures: self.disabled_gestures@,
            per_app_bindings: self.per_app_bindings@,
            per_app_presenter: self.per_app_presenter@,
            presenter: self.presenter,
            action_ring: self.action_ring@,
            identity: match self.identity {
                Some(identity) => Some(identity@),
                None => None,
            },
            dpi: self.dpi,
            links: self.links@,
        }
    }
}

impl View for Config {
    type V = Map<Seq<char>, DeviceModel>;

    open spec fn view(&self) -> Map<Seq<char>, DeviceModel> {
        self.devices@
    }
}

/// A device that remembers nothing.
pub open spec fn blank_device() -> DeviceModel {
    DeviceModel {
        bindings: Map::empty(),
        disabled_gestures: Map::empty(),
        per_app_bindings: Map::empty(),
        per_app_presenter: Map::empty(),
        presenter: default_settings_spec(),
        action_ring: RingModel::fresh(),
        identity: None,
        dpi: None,
        links: Map::empty(),
    }
}

/// What `devices` remembers under `key`, blank when it holds no such device.
pub open spec fn device_at(devices: Map<Seq<char>, DeviceModel>, key: Seq<char>) -> DeviceModel {
    if devices.dom().contains(key) {
        devices[key]
    } else {
        blank_device()
    }
}

impl Default for DeviceConfig {
    fn default() -> (device: Self)
        ensures
            device@ == blank_device(),
    {
        DeviceConfig {
            bindings: Table::new(),
            disabled_gestures: Table::new(),
            per_app_bindings: Table::new(),
            per_app_presenter: Table::new(),
            presenter: PresenterSettings::default(),
            action_ring: ActionRing::default(),
            identity: None,
            dpi: None,
            links: Table::new(),
        }
    }
}

impl Default for Config {
    fn default() -> (config: Self)
        ensures
            config@ == Map::<Seq<char>, DeviceModel>::empty(),
    {
        Config { devices: Table::new() }
    }
}

impl Duplicate for DeviceConfig {
    fn duplicate(&self) -> (copy: Self) {
        DeviceConfig {
            bindings: self.bindings.duplicate(),
            disabled_gestures: self.disabled_gestures.duplicate(),
            per_app_bindings: self.per_app_bindings.duplicate(),
            per_app_presenter: self.per_app_presenter.duplicate(),
            presenter: self.presenter,
            action_ring: self.action_ring.duplicate(),
            identity: match &self.identity {
                Some(identity) => Some(identity.duplicate()),
                None => None,
            },
            dpi: self.dpi,
            links: self.links.duplicate(),
        }
    }
}

impl Duplicate for Config {
    fn duplicate(&self) -> (copy: Self) {
        Config { devices: self.devices.duplicate() }
    }
}

impl Config {
    /// What is stored under `device_key`.
    pub fn device(&self, device_key: &str) -> (device: Option<&DeviceConfig>)
        ensures
            match device {
                Some(d) => self@.dom().contains(device_key@) && d@ == self@[device_key@],
                None => !self@.dom().contains(device_key@),
            },
    {
        self.devices.get(&device_key.to_owned())
    }

    /// Takes the device under `device_key` out of the configuration to be
    /// changed and stored again; a device that was never stored comes out blank.
    pub(crate) fn take_device(&mut self, device_key: &str) -> (device: DeviceConfig)
        ensures
            device@ == device_at(old(self)@, device_key@),
            final(self)@ == old(self)@.remove(device_key@),
    {
        match self.devices.remove(&device_key.to_owned()) {
            Some(device) => device,
            None => DeviceConfig::default(),
        }
    }

    /// Stores `device` under `device_key`.
    pub(crate) fn put_device(&mut self, device_key: &str, device: DeviceConfig)
        ensures
            final(self)@ == old(self)@.insert(device_key@, device@),
    {
        self.devices.insert(device_key.to_owned(), device);
    }

    /// Binds `button` of `device_key`, creating the device if needed.
    pub fn set_binding(&mut self, device_key: &str, button: ButtonId, binding: Binding)
        ensures
            final(self)@ == old(self)@.insert(
                device_key@,
                (DeviceModel {
                    bindings: device_at(old(self)@, device_key@).bindings.insert(button, binding@),
                    ..device_at(old(self)@, device_key@)
                }),
            ),
    {
        let mut device = self.take_device(device_key);
        device.bindings.insert(button, binding);
        self.put_device(device_key, device);
        proof {
            lemma_put_back(old(self)@, device_key@, device@);
        }
    }

    /// Replaces the device-wide presenter settings, creating the device if needed.
    pub fn set_presenter(&mut self, device_key: &str, settings: PresenterSettings)
        ensures
            final(self)@ == old(self)@.insert(
                device_key@,
                (DeviceModel { presenter: settings, ..device_at(old(self)@, device_key@) }),
            ),
    {
        let mut device = self.take_device(device_key);
        device.presenter = settings;
        self.put_device(device_key, device);
        proof {
            lemma_put_back(old(self)@, device_key@, device@);
        }
    }

    /// The bindings stored for `device_key`: none for a device that was never stored.
    pub fn stored_bindings(&self, device_key: &str) -> (bindings: Table<ButtonId, Binding>)
        ensures
            bindings@ == device_at(self@, device_key@).bindings,
    {
        match self.device(device_key) {
            Some(device) => device.bindings.duplicate(),
            None => Table::new(),
        }
    }

    /// The ring of `device_key`: a fresh one for a device that was never stored.
    pub fn action_ring(&self, device_key: &str) -> (ring: ActionRing)
        ensures
            ring@ == device_at(self@, device_key@).action_ring,
    {
        match self.device(device_key) {
            Some(device) => device.action_ring.duplicate(),
            None => ActionRing::default(),
        }
    }

    /// Replaces the ring of `device_key`, creating the device if needed.
    pub fn set_action_ring(&mut self, device_key: &str, ring: ActionRing)
        ensures
            final(self)@ == old(self)@.insert(
                device_key@,
                (DeviceModel { action_ring: ring@, ..device_at(old(self)@, device_key@) }),
            ),
    {
        let mut device = self.take_device(device_key);
        device.action_ring = ring;
        self.put_device(device_key, device);
        proof {
            lemma_put_back(old(self)@, device_key@, device@);
        }
    }
}

/// Taking an entry out and storing a changed one is the same as storing it in place.
pub(crate) proof fn lemma_put_back<K, V>(map: Map<K, V>, key: K, value: V)
    ensures
        map.remove(key).insert(key, value) == map.insert(key, value),
{
    assert(map.remove(key).insert(key, value) =~= map.insert(key, value));
}

} // verus!
