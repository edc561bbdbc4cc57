//! Picking the device to monitor, and locating its counter file.
//!
//! Listing the machine's devices is the embedding program's business.  This
//! module takes such a list, picks the accelerator from it and says where the
//! platform publishes that device's active-time counter.

use vstd::prelude::*;
use vstd::string::StringExecFns;

use crate::text::{
    contains_text, decimal_digits, push_decimal, push_two_hex_digits, same_text, text_contains,
    two_hex_digits,
};

verus! {

/// Where a device is attached.
#[derive(Clone, Copy, Debug, PartialEq, Eq, Structural)]
pub enum DevicePath {
    /// A PCI address.
    PCI { bus: u8, slot: u8, function: u8 },
    /// A USB address.
    USB { bus: u8, device: u8 },
}

/// What the monitor needs to know of one attached device.
#[derive(Debug)]
pub struct DeviceInfo {
    /// Where the device is attached.
    pub path: DevicePath,
    /// The name of the device's vendor.
    pub vendor: String,
    /// The device's product name.
    pub product: String,
}

/// What the monitor runs on: the name to show and the file to sample.
#[derive(Debug)]
pub struct MonitorTarget {
    /// The product name of the device, for the chart's title.
    pub display_name: String,
    /// The path of the device's counter file.
    pub counter_path: String,
}

/// Why no target could be resolved.
#[derive(Clone, Copy, Debug, PartialEq, Eq, Structural)]
pub enum ResolveError {
    /// The list holds no accelerator.
    NoDevice,
    /// The accelerator is not on the PCI bus, so it has no counter file.
    NoCounterPath,
}

/// The directory that the platform keeps for the PCI device at the given
/// address: bus and slot in two hexadecimal digits each, the function in
/// decimal.
pub open spec fn sysfs_path(bus: u8, slot: u8, function: u8) -> Seq<char> {
    "/sys/devices/pci0000:00/0000:"@ + two_hex_digits(bus) + ":"@ + two_hex_digits(slot) + "."@
        + decimal_digits(function as nat)
}

/// The file in which the platform publishes the cumulative active time of
/// the PCI device at the given address.
pub open spec fn counter_file(bus: u8, slot: u8, function: u8) -> Seq<char> {
    sysfs_path(bus, slot, function) + "/power/runtime_active_time"@
}

/// The counter file of a device attached at `path`.  Only PCI devices have
/// one.
pub open spec fn counter_file_of(path: DevicePath) -> Option<Seq<char>> {
    match path {
        DevicePath::PCI { bus, slot, function } => Some(counter_file(bus, slot, function)),
        DevicePath::USB { .. } => None,
    }
}

/// Whether a device is the accelerator to monitor: one of the vendor
/// "Intel Corporation" whose product name mentions "NPU".
pub open spec fn is_npu(device: DeviceInfo) -> bool {
    &&& device.vendor@ == "Intel Corporation"@
    &&& contains_text(device.product@, "NPU"@)
}

/// Whether the entry at position `at` is the first accelerator of the list.
pub open spec fn is_first_npu(devices: Seq<DeviceInfo>, at: int) -> bool {
    &&& 0 <= at < devices.len()
    &&& is_npu(devices[at])
    &&& forall|earlier: int| 0 <= earlier < at ==> !is_npu(#[trigger] devices[earlier])
}

/// Whether the list holds no accelerator.
pub open spec fn has_no_npu(devices: Seq<DeviceInfo>) -> bool {
    forall|at: int| 0 <= at < devices.len() ==> !is_npu(#[trigger] devices[at])
}

/// The platform directory of the PCI device at the given address.
pub fn pci_to_sysfs_path(bus: u8, slot: u8, function: u8) -> (path: String)
    ensures
        path@ == sysfs_path(bus, slot, function),
{
    let mut path = String::from_str("/sys/devices/pci0000:00/0000:");
    push_two_hex_digits(&mut path, bus);
    path.append(":");
    push_two_hex_digits(&mut path, slot);
    path.append(".");
    push_decimal(&mut path, function);
    path
}

/// The path of the counter file of a device attached at `path`, or `None`
/// for a device that is not on the PCI bus.
pub fn counter_path(path: &DevicePath) -> (file: Option<String>)
    ensures
        match file {
            Some(name) => counter_file_of(*path) == Some(name@),
            None => counter_file_of(*path) is None,
        },
{
    match path {
        DevicePath::PCI { bus, slot, function } => {
            let mut name = pci_to_sysfs_path(*bus, *slot, *function);
            name.append("/power/runtime_active_time");
            Some(name)
        },
        DevicePath::USB { .. } => None,
    }
}

/// Whether `device` is the accelerator to monitor.
pub fn device_is_npu(device: &DeviceInfo) -> (npu: bool)
    ensures
        npu == is_npu(*device),
{
    same_text(device.vendor.as_str(), "Intel Corporation") && text_contains(
        device.product.as_str(),
        "NPU",
    )
}

/// Picks the accelerator from a list of devices: the first entry that is
/// one, or `None` when the list holds none.
pub fn get_npu_device(devices: &Vec<DeviceInfo>) -> (found: Option<&DeviceInfo>)
    ensures
        match found {
            Some(device) => exists|at: int|
                is_first_npu(devices@, at) && *device == #[trigger] devices@[at],
            None => has_no_npu(devices@),
        },
{
    let mut i: usize = 0;
    while i < devices.len()
        invariant
            i <= devices.len(),
            forall|earlier: int| 0 <= earlier < i ==> !is_npu(#[trigger] devices@[earlier]),
        decreases devices.len() - i,
    {
        if device_is_npu(&devices[i]) {
            assert(is_first_npu(devices@, i as int));
            return Some(&devices[i]);
        }
        i += 1;
    }
    None
}

/// What resolving a list of devices comes to: the target for the list's
/// first accelerator, or the reason why there is none.
pub open spec fn resolution_is(
    devices: Seq<DeviceInfo>,
    outcome: Result<MonitorTarget, ResolveError>,
) -> bool {
    match outcome {
        Ok(target) => exists|at: int|
            {
                &&& is_first_npu(devices, at)
                &&& target.display_name@ == (#[trigger] devices[at]).product@
                &&& counter_file_of(devices[at].path) == Some(target.counter_path@)
            },
        Err(ResolveError::NoDevice) => has_no_npu(devices),
        Err(ResolveError::NoCounterPath) => exists|at: int|
            is_first_npu(devices, at) && counter_file_of((#[trigger] devices[at]).path) is None,
    }
}

/// Resolves the device to monitor from a list of the machine's devices.
///
/// The target names the list's first accelerator and its counter file.
/// Without an accelerator in the list, or with one that has no counter file,
/// there is nothing to monitor.
pub fn resolve_target(devices: &Vec<DeviceInfo>) -> (outcome: Result<MonitorTarget, ResolveError>)
    ensures
        resolution_is(devices@, outcome),
{
    match get_npu_device(devices) {
        None => Err(ResolveError::NoDevice),
        Some(device) => match counter_path(&device.path) {
            None => Err(ResolveError::NoCounterPath),
            Some(file) => Ok(
                MonitorTarget { display_name: device.product.clone(), counter_path: file },
            ),
        },
    }
}

} // verus!
