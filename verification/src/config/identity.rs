//! What is remembered of a device itself, so that it can be shown while it is
//! away: its model, never what tells one unit from another.

use vstd::prelude::*;
use crate::config::{device_at, lemma_put_back, Config, DeviceModel};
use crate::order::Duplicate;

verus! {

/// What sort of device it is.
#[derive(Clone, Copy, Debug, PartialEq, Eq, Structural)]
pub enum DeviceKind {
    /// A mouse.
    Mouse,
    /// A keyboard.
    Keyboard,
    /// A presenter.
    Presenter,
    /// A light.
    Light,
    /// Something else.
    Other,
}

/// What a device can do.
#[derive(Clone, Copy, Debug, PartialEq, Eq, Structural)]
pub struct Capabilities {
    /// It has buttons that can be bound.
    pub buttons: bool,
    /// It moves a pointer.
    pub pointer: bool,
    /// It has lights.
    pub lighting: bool,
    /// Its wheel can be inverted.
    pub scroll_inversion: bool,
    /// Its wheel reports fine steps.
    pub hires_wheel: bool,
    /// It has a thumb wheel.
    pub thumbwheel: bool,
    /// It can vibrate.
    pub haptic_feedback: bool,
    /// It has a pressure-sensitive panel.
    pub haptic_panel: bool,
    /// It has the controls of a presenter.
    pub presenter_controls: bool,
    /// The button behind its wheel reports movement.
    pub dpi_gestures: bool,
}

/// The links a model offers.
#[derive(Clone, Copy, Debug, PartialEq, Eq, Structural)]
pub struct DeviceTransports {
    /// A cable.
    pub usb: bool,
    /// A receiver.
    pub equad: bool,
    /// Low-energy radio.
    pub btle: bool,
    /// Classic radio.
    pub bluetooth: bool,
}

/// What a device says of its model.
#[derive(Debug, PartialEq, Eq)]
pub struct DeviceModelInfo {
    /// How many firmware entities it has.
    pub entity_count: u8,
    /// The serial number of the unit.
    pub serial_number: Option<String>,
    /// The identity of the unit.
    pub unit_id: [u8; 4],
    /// The links it offers.
    pub transports: DeviceTransports,
    /// The model on each of its links.
    pub model_ids: [u16; 3],
    /// The variant of the model.
    pub extended_model_id: u8,
}

/// What a device says of its model, its text read as characters.
pub struct ModelInfoModel {
    /// How many firmware entities it has.
    pub entity_count: u8,
    /// The serial number of the unit.
    pub serial_number: Option<Seq<char>>,
    /// The identity of the unit.
    pub unit_id: Seq<u8>,
    /// The links it offers.
    pub transports: DeviceTransports,
    /// The model on each of its links.
    pub model_ids: Seq<u16>,
    /// The variant of the model.
    pub extended_model_id: u8,
}

/// A text that may be missing, as characters.
pub open spec fn optional_text(text: Option<String>) -> Option<Seq<char>> {
    match text {
        Some(text) => Some(text@),
        None => None,
    }
}

/// A copy of a text that may be missing.
fn copy_optional_text(text: &Option<String>) -> (copy: Option<String>)
    ensures
        optional_text(copy) == optional_text(*text),
{
    match text {
        Some(text) => Some(text.duplicate()),
        None => None,
    }
}

impl View for DeviceModelInfo {
    type V = ModelInfoModel;

    open spec fn view(&self) -> ModelInfoModel {
        ModelInfoModel {
            entity_count: self.entity_count,
            serial_number: optional_text(self.serial_number),
            unit_id: self.unit_id@,
            transports: self.transports,
            model_ids: self.model_ids@,
            extended_model_id: self.extended_model_id,
        }
    }
}

impl Duplicate for DeviceModelInfo {
    fn duplicate(&self) -> (copy: Self) {
        DeviceModelInfo {
            entity_count: self.entity_count,
            serial_number: copy_optional_text(&self.serial_number),
            unit_id: self.unit_id,
            transports: self.transports,
            model_ids: self.model_ids,
            extended_model_id: self.extended_model_id,
        }
    }
}

/// What is remembered of a device itself.
#[derive(Debug, PartialEq, Eq)]
pub struct DeviceIdentity {
    /// The name of the model.
    pub display_name: String,
    /// What it says of its model.
    pub model_info: Option<DeviceModelInfo>,
    /// The name its firmware gives.
    pub codename: Option<String>,
    /// What sort of device it is.
    pub kind: DeviceKind,
    /// What it can do.
    pub capabilities: Capabilities,
    /// The driver of a standalone device.
    pub driver_id: Option<String>,
    /// The model of a standalone device.
    pub registry_model_id: Option<String>,
}

/// What is remembered of a device itself, its texts read as characters.
pub struct IdentityModel {
    /// The name of the model.
    pub display_name: Seq<char>,
    /// What it says of its model.
    pub model_info: Option<ModelInfoModel>,
    /// The name its firmware gives.
    pub codename: Option<Seq<char>>,
    /// What sort of device it is.
    pub kind: DeviceKind,
    /// What it can do.
    pub capabilities: Capabilities,
    /// The driver of a standalone device.
    pub driver_id: Option<Seq<char>>,
    /// The model of a standalone device.
    pub registry_model_id: Option<Seq<char>>,
}

impl View for DeviceIdentity {
    type V = IdentityModel;

    open spec fn view(&self) -> IdentityModel {
        IdentityModel {
            display_name: self.display_name@,
            model_info: match self.model_info {
                Some(info) => Some(info@),
                None => None,
            },
            codename: optional_text(self.codename),
            kind: self.kind,
            capabilities: self.capabilities,
            driver_id: optional_text(self.driver_id),
            registry_model_id: optional_text(self.registry_model_id),
        }
    }
}

impl Duplicate for DeviceIdentity {
    fn duplicate(&self) -> (copy: Self) {
        DeviceIdentity {
            display_name: self.display_name.duplicate(),
            model_info: match &self.model_info {
                Some(info) => Some(info.duplicate()),
                None => None,
            },
            codename: copy_optional_text(&self.codename),
            kind: self.kind,
            capabilities: self.capabilities,
            driver_id: copy_optional_text(&self.driver_id),
            registry_model_id: copy_optional_text(&self.registry_model_id),
        }
    }
}

impl IdentityModel {
    /// Without what tells one unit from another.
    pub open spec fn without_unit(self) -> IdentityModel {
        IdentityModel {
            model_info: match self.model_info {
                Some(info) => Some(
                    ModelInfoModel {
                        serial_number: None,
                        unit_id: seq![0u8, 0u8, 0u8, 0u8],
                        ..info
                    },
                ),
                None => None,
            },
            ..self
        }
    }
}

impl DeviceIdentity {
    /// Without what tells one unit from another.
    pub fn without_unit(self) -> (identity: DeviceIdentity)
        ensures
            identity@ == self@.without_unit(),
    {
        let model_info = match self.model_info {
            Some(info) => {
                let anonymous = DeviceModelInfo {
                    serial_number: None,
                    unit_id: [0, 0, 0, 0],
                    ..info
                };
                assert(anonymous.unit_id@ =~= seq![0u8, 0u8, 0u8, 0u8]);
                Some(anonymous)
            },
            None => None,
        };
        DeviceIdentity { model_info, ..self }
    }
}

impl Config {
    /// Remembers what device stands under `device_key`, without what tells one
    /// unit from another, creating the device if needed.
    pub fn set_device_identity(&mut self, device_key: &str, identity: DeviceIdentity)
        ensures
            final(self)@ == old(self)@.insert(
                device_key@,
                (DeviceModel {
                    identity: Some(identity@.without_unit()),
                    ..device_at(old(self)@, device_key@)
                }),
            ),
    {
        let mut device = self.take_device(device_key);
        device.identity = Some(identity.without_unit());
        self.put_device(device_key, device);
        proof {
            lemma_put_back(old(self)@, device_key@, device@);
        }
    }

    /// What device stands under `device_key`, where it is remembered.
    pub fn device_identity(&self, device_key: &str) -> (identity: Option<&DeviceIdentity>)
        ensures
            match identity {
                Some(identity) => device_at(self@, device_key@).identity == Some(identity@),
                None => device_at(self@, device_key@).identity is None,
            },
    {
        match self.device(device_key) {
            Some(device) => device.identity.as_ref(),
            None => None,
        }
    }
}

/// What is remembered is the same for every unit of a model: units that differ
/// only in serial number and identity leave the same configuration.
pub proof fn law_units_of_a_model_are_remembered_alike(
    a: IdentityModel,
    b: IdentityModel,
    first: ModelInfoModel,
    second: ModelInfoModel,
)
    requires
        a.model_info == Some(first),
        b == (IdentityModel { model_info: Some(second), ..a }),
        second == (ModelInfoModel {
            serial_number: second.serial_number,
            unit_id: second.unit_id,
            ..first
        }),
    ensures
        a.without_unit() == b.without_unit(),
{
}

} // verus!
