//! Addresses and register fields of the PCI configuration space.

use vstd::prelude::*;

verus! {

/// Port to which the address of a configuration register is written.
pub const CONFIG_ADDRESS: u16 = 0xcf8;

/// Port from which the register is then read.
pub const CONFIG_DATA: u16 = 0xcfc;

/// Number of devices on a bus.
pub const DEVICES_PER_BUS: u8 = 32;

/// Number of functions of a device.
pub const FUNCTIONS_PER_DEVICE: u8 = 8;

/// The vendor identifier that an empty slot answers with.
pub const NO_VENDOR: u16 = 0xffff;

/// The address of a configuration register: the enable bit, then bus,
/// device and function, then the offset of the register rounded down to a
/// multiple of four.
pub open spec fn spec_config_address(bus: u8, device: u8, function: u8, offset: u8) -> u32 {
    (1u32 << 31) | ((bus as u32) << 16) | ((device as u32) << 11) | ((function as u32) << 8) | ((
    offset as u32) & 0xfc)
}

/// The word to write to [`CONFIG_ADDRESS`] before the register at `offset`
/// of the given function is read from [`CONFIG_DATA`].
pub fn pci_config_address(bus: u8, device: u8, function: u8, offset: u8) -> (address: u32)
    ensures
        address == spec_config_address(bus, device, function, offset),
{
    (1u32 << 31) | ((bus as u32) << 16) | ((device as u32) << 11) | ((function as u32) << 8) | ((
    offset as u32) & 0xfc)
}

/// The vendor identifier in the first configuration register: its low half.
pub fn vendor_id(register: u32) -> (id: u16)
    ensures
        id == register & 0xffff,
{
    assert(register & 0xffff <= 0xffff) by (bit_vector);
    (register & 0xffff) as u16
}

/// The device identifier in the first configuration register: its high
/// half.
pub fn device_id(register: u32) -> (id: u16)
    ensures
        id == (register >> 16) & 0xffff,
{
    assert((register >> 16) & 0xffff <= 0xffff) by (bit_vector);
    ((register >> 16) & 0xffff) as u16
}

/// Whether a function answered: an empty slot reads as all ones.
pub fn function_present(register: u32) -> (present: bool)
    ensures
        present == (register & 0xffff != NO_VENDOR),
{
    vendor_id(register) != NO_VENDOR
}

/// Whether the device has more functions than the first. `register` is the
/// configuration register at offset 12, whose third byte is the header
/// type; bit 7 of the header type marks a device with several functions.
pub fn is_multifunction(register: u32) -> (several: bool)
    ensures
        several == (((register >> 16) & 0xff) & 0x80 != 0),
{
    ((register >> 16) & 0xff) & 0x80 != 0
}

} // verus!
