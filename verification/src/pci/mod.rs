use vstd::prelude::*;

pub mod config_space;
pub mod drivers;

use config_space::{
    config_address, word_at, ConfigAccess, PciConfigSpace, DEVICE_COUNT, PCI_INVALID_VENDOR,
};

verus! {

/// The port that selects a register of configuration space.
pub const PCI_CONFIG_ADDRESS: u16 = 0xCF8;

/// The port through which the selected register is read and written.
pub const PCI_CONFIG_DATA: u16 = 0xCFC;

/// The number of buses that are scanned: buses 0 to 225.
pub const PCI_BUS_COUNT: usize = 226;

/// The number of places for a device on the buses that are scanned.
pub const PCI_SLOT_COUNT: usize = 7232;

/// The reads of the first sixteen registers of the device `device_index`
/// on bus `bus_index`, in their order.
pub fn header_accesses(bus_index: u8, device_index: u8) -> (accesses: Vec<ConfigAccess>)
    requires
        device_index < DEVICE_COUNT,
    ensures
        accesses@.len() == 16,
        forall|k: int|
            0 <= k < 16 ==> #[trigger] accesses@[k] == (ConfigAccess::Read {
                address: config_address(bus_index, device_index, (4 * k) as u32),
            }),
{
    let bus = bus_index as u32;
    let device = device_index as u32;
    let base = 0x8000_0000u32 | (bus << 16) | (device << 11);
    assert(base <= 0x80FF_FFFFu32) by (bit_vector)
        requires
            base == 0x8000_0000u32 | (bus << 16) | (device << 11),
            bus < 256,
            device < 32,
    ;
    let mut accesses: Vec<ConfigAccess> = Vec::new();
    let mut index: u32 = 0;
    while index < 16
        invariant
            index <= 16,
            base == 0x8000_0000u32 | ((bus_index as u32) << 16) | ((device_index as u32) << 11),
            base <= 0x80FF_FFFFu32,
            accesses@.len() == index,
            forall|k: int|
                0 <= k < index ==> #[trigger] accesses@[k] == (ConfigAccess::Read {
                    address: config_address(bus_index, device_index, (4 * k) as u32),
                }),
        decreases 16 - index,
    {
        accesses.push(ConfigAccess::Read { address: base + 4 * index });
        index = index + 1;
    }
    accesses
}

/// Whether a device answered when `header` was read.
pub open spec fn answers(header: [u32; 16]) -> bool {
    word_at(header@[0], 0) != PCI_INVALID_VENDOR
}

/// The places below `upto` at which a device answered, in the order of the
/// scan: bus by bus, device by device.
pub open spec fn found_below(headers: Seq<[u32; 16]>, upto: int) -> Seq<int>
    decreases upto,
{
    if upto <= 0 {
        Seq::empty()
    } else if answers(headers[upto - 1]) {
        found_below(headers, upto - 1).push(upto - 1)
    } else {
        found_below(headers, upto - 1)
    }
}

/// `config` is the header of the device at `place` as `headers` holds it.
pub open spec fn scanned(config: PciConfigSpace, headers: Seq<[u32; 16]>, place: int) -> bool {
    &&& 0 <= place < headers.len()
    &&& config.bus() == place / 32
    &&& config.device() == place % 32
    &&& config.registers() == headers[place]@
    &&& config.wf()
    &&& answers(headers[place])
}

/// The devices that answered. `headers` holds what the first sixteen
/// registers of each place read, the 32 devices of bus 0 first, then those
/// of bus 1, and so on. The base address registers of the devices returned
/// are not sized yet.
pub fn check_pci_buses(headers: &Vec<[u32; 16]>) -> (result: Vec<PciConfigSpace>)
    requires
        headers@.len() <= PCI_SLOT_COUNT,
    ensures
        result@.len() == found_below(headers@, headers@.len() as int).len(),
        forall|k: int|
            0 <= k < result@.len() ==> scanned(
                #[trigger] result@[k],
                headers@,
                found_below(headers@, headers@.len() as int)[k],
            ),
{
    let mut result: Vec<PciConfigSpace> = Vec::new();
    let mut place: usize = 0;
    while place < headers.len()
        invariant
            place <= headers@.len(),
            headers@.len() <= PCI_SLOT_COUNT,
            result@.len() == found_below(headers@, place as int).len(),
            forall|k: int|
                0 <= k < result@.len() ==> scanned(
                    #[trigger] result@[k],
                    headers@,
                    found_below(headers@, place as int)[k],
                ),
        decreases headers@.len() - place,
    {
        let bus_index = (place / 32) as u8;
        let device_index = (place % 32) as u8;
        let ghost before = found_below(headers@, place as int);
        let ghost listed = result@;
        match PciConfigSpace::new(bus_index, device_index, headers[place]) {
            Some(config) => {
                result.push(config);
                assert(found_below(headers@, place + 1) == before.push(place as int));
            },
            None => {
                assert(found_below(headers@, place + 1) == before);
            },
        }
        proof {
            let after = found_below(headers@, place + 1);
            assert forall|k: int| 0 <= k < result@.len() implies scanned(
                #[trigger] result@[k],
                headers@,
                after[k],
            ) by {
                if k < listed.len() {
                    assert(result@[k] == listed[k]);
                    assert(after[k] == before[k]);
                }
            }
        }
        place = place + 1;
    }
    result
}

} // verus!
