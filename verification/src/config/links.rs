//! The links a device is reached by, and the key its settings stand under.
//!
//! Settings belong to a device, whatever link it is on. The device says which it
//! is by a serial number or a unit identity; while it has not said so, the links
//! it was seen on before tell it.

use vstd::prelude::*;
use crate::config::identity::optional_text;
use crate::config::{device_at, lemma_put_back, Config, DeviceConfig, DeviceModel};
use crate::order::Duplicate;
use crate::text::{
    ascii_lowercase, chars_of, decimal, hex_char, hex_word, lowercase_chars, push_decimal,
    push_hex_digits, push_hex_word, push_text, string_of,
};

verus! {

/// A pointer resolution in counts per inch.
#[derive(Clone, Copy, Debug, PartialEq, Eq, Structural)]
pub struct Dpi {
    /// Counts per inch.
    pub value: u16,
}

/// What is remembered of a device on one link.
#[derive(Clone, Copy, Debug, PartialEq, Eq, Structural)]
pub struct LinkConfig {
    /// Its resolution on this link.
    pub dpi: Option<Dpi>,
}

impl View for LinkConfig {
    type V = LinkConfig;

    open spec fn view(&self) -> LinkConfig {
        *self
    }
}

impl Duplicate for LinkConfig {
    fn duplicate(&self) -> (copy: Self) {
        *self
    }
}

impl Default for LinkConfig {
    fn default() -> (link: Self)
        ensures
            link == (LinkConfig { dpi: None }),
    {
        LinkConfig { dpi: None }
    }
}

/// What a device says of itself.
#[derive(Debug, PartialEq, Eq)]
pub struct UnitIdentity {
    /// Its serial number.
    pub serial_number: Option<String>,
    /// Its unit identity; all zero when it has none.
    pub unit_id: [u8; 4],
}

impl UnitIdentity {
    /// A copy of what a device says of itself.
    pub fn duplicate(&self) -> (copy: UnitIdentity)
        ensures
            copy.key_spec() == self.key_spec(),
            copy.unit_id == self.unit_id,
            optional_text(copy.serial_number) == optional_text(self.serial_number),
    {
        UnitIdentity {
            serial_number: match &self.serial_number {
                Some(serial) => Some(serial.duplicate()),
                None => None,
            },
            unit_id: self.unit_id,
        }
    }
}

/// Where a device is.
#[derive(Debug, PartialEq, Eq)]
pub enum LinkAddress {
    /// Connected by itself.
    Direct {
        /// USB vendor.
        vendor_id: u16,
        /// USB product.
        product_id: u16,
    },
    /// On a receiver.
    Receiver {
        /// Identity of the receiver.
        uid: String,
        /// Slot on the receiver.
        slot: u8,
    },
}

/// A device as far as its settings are concerned: who it is and where.
#[derive(Debug, PartialEq, Eq)]
pub struct DeviceStableId {
    /// Who it is.
    pub identity: UnitIdentity,
    /// Where it is.
    pub address: LinkAddress,
}

/// The bytes in the base sixteen.
pub open spec fn hex_bytes(bytes: Seq<u8>) -> Seq<char>
    decreases bytes.len(),
{
    if bytes.len() == 0 {
        Seq::empty()
    } else {
        hex_bytes(bytes.drop_last()).push(hex_char(bytes.last() as int / 16)).push(
            hex_char(bytes.last() as int % 16),
        )
    }
}

impl UnitIdentity {
    /// The key of a device by what it says of itself: its serial number in small
    /// letters, else its unit identity, if it has either.
    pub open spec fn key_spec(self) -> Option<Seq<char>> {
        match self.serial_number {
            Some(serial) => Some("serial:"@ + ascii_lowercase(serial@)),
            None => if self.unit_id@ == seq![0u8, 0u8, 0u8, 0u8] {
                None
            } else {
                Some("unit:"@ + hex_bytes(self.unit_id@))
            },
        }
    }

    /// The key of a device by what it says of itself, if it says anything.
    pub fn key(&self) -> (key: Option<String>)
        ensures
            match key {
                Some(key) => self.key_spec() == Some(key@),
                None => self.key_spec() is None,
            },
    {
        let mut out: Vec<char> = Vec::new();
        match &self.serial_number {
            Some(serial) => {
                push_text(&mut out, "serial:");
                let mut small = lowercase_chars(&chars_of(serial.as_str()));
                out.append(&mut small);
                assert(out@ =~= "serial:"@ + ascii_lowercase(serial@));
                Some(string_of(&out))
            },
            None => {
                let id = self.unit_id;
                if id[0] == 0 && id[1] == 0 && id[2] == 0 && id[3] == 0 {
                    assert(self.unit_id@ =~= seq![0u8, 0u8, 0u8, 0u8]);
                    return None;
                }
                push_text(&mut out, "unit:");
                let ghost head = out@;
                let mut i: usize = 0;
                assert(id@.take(0) =~= Seq::<u8>::empty());
                assert(out@ =~= head + hex_bytes(id@.take(0)));
                while i < 4
                    invariant
                        i <= 4,
                        out@ == head + hex_bytes(id@.take(i as int)),
                    decreases 4 - i,
                {
                    proof {
                        assert(id@.take(i + 1).drop_last() =~= id@.take(i as int));
                        assert(id@.take(i + 1).last() == id@[i as int]);
                    }
                    push_hex_digits(&mut out, id[i]);
                    assert(out@ =~= head + hex_bytes(id@.take(i + 1)));
                    i = i + 1;
                }
                assert(id@.take(4) =~= id@);
                Some(string_of(&out))
            },
        }
    }
}

impl LinkAddress {
    /// The key of a link.
    pub open spec fn key_spec(self) -> Seq<char> {
        match self {
            LinkAddress::Direct { vendor_id, product_id } => "direct:"@ + hex_word(vendor_id) + ":"@
                + hex_word(product_id),
            LinkAddress::Receiver { uid, slot } => "receiver:"@ + uid@ + ":slot:"@ + decimal(
                slot as nat,
            ),
        }
    }

    /// The key of a link.
    pub fn route_key(&self) -> (key: String)
        ensures
            key@ == self.key_spec(),
    {
        let mut out: Vec<char> = Vec::new();
        match self {
            LinkAddress::Direct { vendor_id, product_id } => {
                push_text(&mut out, "direct:");
                push_hex_word(&mut out, *vendor_id);
                push_text(&mut out, ":");
                push_hex_word(&mut out, *product_id);
            },
            LinkAddress::Receiver { uid, slot } => {
                push_text(&mut out, "receiver:");
                push_text(&mut out, uid.as_str());
                push_text(&mut out, ":slot:");
                push_decimal(&mut out, *slot as u64);
            },
        }
        assert(out@ =~= self.key_spec());
        string_of(&out)
    }
}

/// The first of `keys` whose device was seen on a link.
pub open spec fn first_linked(
    keys: Seq<Seq<char>>,
    devices: Map<Seq<char>, DeviceModel>,
    route: Seq<char>,
) -> Option<Seq<char>>
    decreases keys.len(),
{
    if keys.len() == 0 {
        None
    } else if devices[keys[0]].links.dom().contains(route) {
        Some(keys[0])
    } else {
        first_linked(keys.skip(1), devices, route)
    }
}

/// The key the settings of a device stand under: the one it gives itself if
/// anything stands there, else that of the device that was seen on its link,
/// else the link's own, under which receivers used to keep them. A device that
/// never stored anything gets the key it gives itself; one that gives none has
/// its slot on a receiver, and has nothing on a cable.
pub open spec fn resolved_key(
    keys: Seq<Seq<char>>,
    devices: Map<Seq<char>, DeviceModel>,
    own: Option<Seq<char>>,
    route: Seq<char>,
    receiver: bool,
) -> Option<Seq<char>> {
    match own {
        Some(key) => if devices.dom().contains(key) {
            Some(key)
        } else {
            match first_linked(keys, devices, route) {
                Some(linked) => Some(linked),
                None => if devices.dom().contains(route) {
                    Some(route)
                } else {
                    Some(key)
                },
            }
        },
        None => match first_linked(keys, devices, route) {
            Some(linked) => Some(linked),
            None => if devices.dom().contains(route) || receiver {
                Some(route)
            } else {
                None
            },
        },
    }
}

impl DeviceStableId {
    /// The key the settings of the device stand under in a configuration.
    pub open spec fn key_in(self, config: Config) -> Option<Seq<char>> {
        resolved_key(
            config.devices.keys(),
            config@,
            self.identity.key_spec(),
            self.address.key_spec(),
            self.address is Receiver,
        )
    }
}

impl DeviceConfig {
    /// The resolution of a device on a link: the link's own, else the device's.
    pub fn effective_dpi(&self, route_key: &str) -> (dpi: Option<Dpi>)
        ensures
            dpi == if self@.links.dom().contains(route_key@) && self@.links[route_key@].dpi is Some {
                self@.links[route_key@].dpi
            } else {
                self@.dpi
            },
    {
        match self.links.get(&route_key.to_owned()) {
            Some(link) => match link.dpi {
                Some(dpi) => Some(dpi),
                None => self.dpi,
            },
            None => self.dpi,
        }
    }
}

impl Config {
    /// Sets the resolution of `device_key`, creating the device if needed.
    pub fn set_dpi(&mut self, device_key: &str, dpi: Dpi)
        ensures
            final(self)@ == old(self)@.insert(
                device_key@,
                (DeviceModel { dpi: Some(dpi), ..device_at(old(self)@, device_key@) }),
            ),
    {
        let mut device = self.take_device(device_key);
        device.dpi = Some(dpi);
        self.put_device(device_key, device);
        proof {
            lemma_put_back(old(self)@, device_key@, device@);
        }
    }

    /// Remembers that `device_key` was seen on a link, creating the device if
    /// needed.
    pub fn set_link(&mut self, device_key: &str, route_key: &str, link: LinkConfig)
        ensures
            final(self)@ == old(self)@.insert(
                device_key@,
                (DeviceModel {
                    links: device_at(old(self)@, device_key@).links.insert(route_key@, link),
                    ..device_at(old(self)@, device_key@)
                }),
            ),
    {
        let mut device = self.take_device(device_key);
        device.links.insert(route_key.to_owned(), link);
        self.put_device(device_key, device);
        proof {
            lemma_put_back(old(self)@, device_key@, device@);
        }
    }

    /// The device that was seen on a link.
    fn linked_device(&self, route_key: &str) -> (key: Option<String>)
        ensures
            match key {
                Some(key) => first_linked(self.devices.keys(), self@, route_key@) == Some(key@),
                None => first_linked(self.devices.keys(), self@, route_key@) is None,
            },
    {
        let n: usize = self.devices.len();
        let ghost keys = self.devices.keys();
        let route = route_key.to_owned();
        let mut i: usize = 0;
        assert(keys.skip(0) =~= keys);
        while i < n
            invariant
                i <= n == keys.len(),
                keys == self.devices.keys(),
                route@ == route_key@,
                first_linked(keys, self@, route_key@) == first_linked(
                    keys.skip(i as int),
                    self@,
                    route_key@,
                ),
            decreases n - i,
        {
            let (key, device) = self.devices.entry_at(i);
            assert(keys.skip(i as int)[0] == keys[i as int]);
            assert(keys.skip(i as int).skip(1) =~= keys.skip(i + 1));
            if device.links.contains_key(&route) {
                return Some(key.duplicate());
            }
            i = i + 1;
        }
        None
    }

    /// The key the settings of a device stand under, when it has one.
    pub fn resolve_device_key(&self, id: &DeviceStableId) -> (key: Option<String>)
        ensures
            match key {
                Some(key) => id.key_in(*self) == Some(key@),
                None => id.key_in(*self) is None,
            },
    {
        let route = id.address.route_key();
        let own = id.identity.key();
        if let Some(key) = own {
            if self.devices.contains_key(&key) {
                return Some(key);
            }
            if let Some(linked) = self.linked_device(route.as_str()) {
                return Some(linked);
            }
            if self.devices.contains_key(&route) {
                return Some(route);
            }
            return Some(key);
        }
        if let Some(linked) = self.linked_device(route.as_str()) {
            return Some(linked);
        }
        let receiver = match &id.address {
            LinkAddress::Receiver { .. } => true,
            LinkAddress::Direct { .. } => false,
        };
        if self.devices.contains_key(&route) || receiver {
            return Some(route);
        }
        None
    }
}

/// Settings that are stored for a device are found: under the key it gives
/// itself, by a link it was seen on, or under the key of the link.
pub proof fn law_stored_settings_are_found(
    keys: Seq<Seq<char>>,
    devices: Map<Seq<char>, DeviceModel>,
    own: Option<Seq<char>>,
    route: Seq<char>,
    receiver: bool,
    stored: Seq<char>,
)
    requires
        forall|key: Seq<char>| #[trigger] devices.dom().contains(key) <==> keys.contains(key),
        devices.dom().contains(stored),
        own == Some(stored) || route == stored || devices[stored].links.dom().contains(route),
    ensures
        resolved_key(keys, devices, own, route, receiver) matches Some(key)
            && devices.dom().contains(key),
        own == Some(stored) ==> resolved_key(keys, devices, own, route, receiver) == own,
{
    lemma_first_linked(keys, devices, route);
    match first_linked(keys, devices, route) {
        Some(linked) => {
            assert(devices.dom().contains(linked));
        },
        None => {
            let at = keys.index_of(stored);
            assert(keys[at] == stored);
        },
    }
}

/// A device that is found by its link is one of those that were seen on it, and
/// where none is found none was.
proof fn lemma_first_linked(
    keys: Seq<Seq<char>>,
    devices: Map<Seq<char>, DeviceModel>,
    route: Seq<char>,
)
    ensures
        match first_linked(keys, devices, route) {
            Some(key) => keys.contains(key) && devices[key].links.dom().contains(route),
            None => forall|i: int|
                0 <= i < keys.len() ==> !devices[#[trigger] keys[i]].links.dom().contains(route),
        },
    decreases keys.len(),
{
    if keys.len() > 0 && !devices[keys[0]].links.dom().contains(route) {
        lemma_first_linked(keys.skip(1), devices, route);
        match first_linked(keys.skip(1), devices, route) {
            Some(key) => {
                let k = keys.skip(1).index_of(key);
                assert(keys[k + 1] == key);
            },
            None => {
                assert forall|i: int| 0 <= i < keys.len() implies !devices[#[trigger] keys[i]].links.dom().contains(
                    route,
                ) by {
                    if i > 0 {
                        assert(keys.skip(1)[i - 1] == keys[i]);
                    }
                }
            },
        }
    } else if keys.len() > 0 {
        assert(keys[0] == keys[0]);
    }
}

} // verus!
