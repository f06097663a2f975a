use super::config_space::BaseAddressRegister;
use vstd::prelude::*;

pub mod network;

verus! {

/// Why a driver did not take a device.
#[derive(Debug, Clone, Copy, PartialEq, Eq, Structural)]
pub enum DriverError {
    InitializationError,
    UnexpectedBaseRegisterLayout { register: BaseAddressRegister, index: usize },
}

/// The drivers that there are.
#[derive(Debug, Clone, Copy, PartialEq, Eq, Structural)]
pub enum DriverKind {
    E1000,
}

/// A driver and the device that it is for.
#[derive(Debug, Clone, Copy, PartialEq, Eq, Structural)]
pub struct PciDriver {
    pub device_id: u16,
    pub vendor_id: u16,
    pub init_device: DriverKind,
}

/// The driver for the device that a vendor and a device identifier name,
/// if there is one: the Intel 82540EM has the E1000 driver.
pub open spec fn driver_of(vendor_id: u16, device_id: u16) -> Option<PciDriver> {
    if vendor_id == 0x8086 && device_id == 0x100E {
        Some(PciDriver { device_id: 0x100E, vendor_id: 0x8086, init_device: DriverKind::E1000 })
    } else {
        None
    }
}

/// The table of drivers.
pub fn pci_drivers() -> (drivers: Vec<PciDriver>)
    ensures
        drivers@ == seq![
            PciDriver { device_id: 0x100E, vendor_id: 0x8086, init_device: DriverKind::E1000 },
        ],
{
    let mut drivers = Vec::new();
    drivers.push(network::e1000_driver_entry());
    drivers
}

/// The first driver in the table that is for the device named.
pub fn find_driver(vendor_id: u16, device_id: u16) -> (driver: Option<PciDriver>)
    ensures
        driver == driver_of(vendor_id, device_id),
{
    let drivers = pci_drivers();
    let mut index: usize = 0;
    while index < drivers.len()
        invariant
            index <= drivers@.len(),
            drivers@ == seq![
                PciDriver { device_id: 0x100E, vendor_id: 0x8086, init_device: DriverKind::E1000 },
            ],
            forall|k: int|
                0 <= k < index ==> !(drivers@[k].device_id == device_id && drivers@[k].vendor_id
                    == vendor_id),
        decreases drivers@.len() - index,
    {
        let driver_entry = drivers[index];
        if driver_entry.device_id == device_id && driver_entry.vendor_id == vendor_id {
            return Some(driver_entry);
        }
        index = index + 1;
    }
    assert(!(drivers@[0].device_id == device_id && drivers@[0].vendor_id == vendor_id));
    None
}

} // verus!
