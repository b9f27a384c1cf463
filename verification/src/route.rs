//! How a device is reached.

use vstd::prelude::*;

verus! {

/// The path to a device.
#[derive(Debug, PartialEq, Eq)]
pub enum DeviceRoute {
    /// Connected by itself.
    Direct {
        /// USB vendor.
        vendor_id: u16,
        /// USB product.
        product_id: u16,
    },
    /// Paired with a receiver.
    Bolt {
        /// Identity of the receiver.
        receiver_uid: String,
        /// Slot of the device on the receiver.
        slot: u8,
    },
    /// A device without a feature protocol, reached by raw reports.
    RawHid {
        /// USB vendor.
        vendor_id: u16,
        /// USB product.
        product_id: u16,
        /// Usage page of the report collection.
        usage_page: u16,
        /// Usage of the report collection.
        usage_id: u16,
        /// What tells this unit apart.
        identity: String,
    },
}

/// The path to a device, its text read as characters.
pub enum RouteModel {
    /// Connected by itself.
    Direct {
        /// USB vendor.
        vendor_id: u16,
        /// USB product.
        product_id: u16,
    },
    /// Paired with a receiver.
    Bolt {
        /// Identity of the receiver.
        receiver_uid: Seq<char>,
        /// Slot of the device on the receiver.
        slot: u8,
    },
    /// A device without a feature protocol, reached by raw reports.
    RawHid {
        /// USB vendor.
        vendor_id: u16,
        /// USB product.
        product_id: u16,
        /// Usage page of the report collection.
        usage_page: u16,
        /// Usage of the report collection.
        usage_id: u16,
        /// What tells this unit apart.
        identity: Seq<char>,
    },
}

impl View for DeviceRoute {
    type V = RouteModel;

    open spec fn view(&self) -> RouteModel {
        match *self {
            DeviceRoute::Direct { vendor_id, product_id } => RouteModel::Direct {
                vendor_id,
                product_id,
            },
            DeviceRoute::Bolt { receiver_uid, slot } => RouteModel::Bolt {
                receiver_uid: receiver_uid@,
                slot,
            },
            DeviceRoute::RawHid { vendor_id, product_id, usage_page, usage_id, identity } => RouteModel::RawHid {
                vendor_id,
                product_id,
                usage_page,
                usage_id,
                identity: identity@,
            },
        }
    }
}

impl crate::order::Duplicate for DeviceRoute {
    fn duplicate(&self) -> (copy: Self) {
        match self {
            DeviceRoute::Direct { vendor_id, product_id } => DeviceRoute::Direct {
                vendor_id: *vendor_id,
                product_id: *product_id,
            },
            DeviceRoute::Bolt { receiver_uid, slot } => DeviceRoute::Bolt {
                receiver_uid: receiver_uid.clone(),
                slot: *slot,
            },
            DeviceRoute::RawHid { vendor_id, product_id, usage_page, usage_id, identity } => DeviceRoute::RawHid {
                vendor_id: *vendor_id,
                product_id: *product_id,
                usage_page: *usage_page,
                usage_id: *usage_id,
                identity: identity.clone(),
            },
        }
    }
}

} // verus!
