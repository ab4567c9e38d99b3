//! Supported printers and their properties.

use vstd::prelude::*;

verus! {

/// USB vendor ID of Brother.
pub const BROTHER_VENDOR_ID: u16 = 0x04f9;

/// Properties in which printer models differ.
#[derive(Debug, Clone, Copy, PartialEq, Eq, Structural)]
pub struct DeviceFlags {
    /// The device is in PLite mode and shows up as a drive.
    pub plite: bool,
    /// The device cannot print raster data.
    pub unsup_raster: bool,
    /// The device sends its phase changes once it is told to.
    pub auto_status_notification: bool,
    /// The device has print quality modes.
    pub legacy_hires: bool,
    /// The device reports when it can take the next page.
    pub wait_for_receive_ready: bool,
}

/// A supported printer model.
#[derive(Debug)]
pub struct DeviceInfo {
    pub vid: u16,
    pub pid: u16,
    pub name: String,
    /// Dots across the print head.
    pub max_px: u16,
    /// Print resolution.
    pub dpi: u16,
    pub flags: DeviceFlags,
}

impl Clone for DeviceInfo {
    fn clone(&self) -> (r: Self)
        ensures
            r == *self,
    {
        DeviceInfo {
            vid: self.vid,
            pid: self.pid,
            name: self.name.clone(),
            max_px: self.max_px,
            dpi: self.dpi,
            flags: self.flags,
        }
    }
}

/// The first entry of `devices` with the given IDs, if there is one.
pub open spec fn device_entry(devices: Seq<DeviceInfo>, vid: u16, pid: u16) -> Option<DeviceInfo>
    decreases devices.len(),
{
    if devices.len() == 0 {
        None
    } else if devices[0].vid == vid && devices[0].pid == pid {
        Some(devices[0])
    } else {
        device_entry(devices.drop_first(), vid, pid)
    }
}

/// Looks a printer up by its USB IDs.
pub fn find_device(devices: &Vec<DeviceInfo>, vid: u16, pid: u16) -> (found: Option<&DeviceInfo>)
    ensures
        match found {
            Some(info) => device_entry(devices@, vid, pid) == Some(*info),
            None => device_entry(devices@, vid, pid) is None,
        },
{
    let mut i: usize = 0;
    assert(devices@.skip(0) =~= devices@);
    while i < devices.len()
        invariant
            i <= devices@.len(),
            device_entry(devices@, vid, pid) == device_entry(devices@.skip(i as int), vid, pid),
        decreases devices@.len() - i,
    {
        assert(devices@.skip(i as int).drop_first() =~= devices@.skip(i + 1));
        if devices[i].vid == vid && devices[i].pid == pid {
            return Some(&devices[i]);
        }
        i = i + 1;
    }
    None
}

} // verus!
