//! The list of output devices and the one that is selected.

use crate::error::VortexError;
use vstd::prelude::*;

verus! {

/// An output device, as the platform describes it.
#[derive(Debug)]
pub struct OutputDevice {
    pub id: String,
    pub name: String,
    pub sample_rate: u32,
    pub channels: u16,
    pub is_default: bool,
}

impl Clone for OutputDevice {
    fn clone(&self) -> (copy: Self)
        ensures
            copy == *self,
    {
        OutputDevice {
            id: self.id.clone(),
            name: self.name.clone(),
            sample_rate: self.sample_rate,
            channels: self.channels,
            is_default: self.is_default,
        }
    }
}

/// Keeps the known output devices and the identifier of the selected one.
pub struct OutputManager {
    devices: Vec<OutputDevice>,
    selected_device: Option<String>,
}

impl OutputManager {
    /// The known devices, in the order in which they were reported.
    pub closed spec fn spec_devices(&self) -> Seq<OutputDevice> {
        self.devices@
    }

    /// The identifier of the selected device, if one is selected.
    pub closed spec fn spec_selected(&self) -> Option<String> {
        self.selected_device
    }

    /// A manager that knows no device and has none selected.
    pub fn new() -> (manager: Self)
        ensures
            manager.spec_devices().len() == 0,
            manager.spec_selected() is None,
    {
        OutputManager { devices: Vec::new(), selected_device: None }
    }

    /// Asks the platform for its devices. No platform is attached to the
    /// core, so the list stays as it is.
    pub fn enumerate_devices(&mut self) -> (r: Result<(), VortexError>)
        ensures
            r is Ok,
            final(self).spec_devices() == old(self).spec_devices(),
            final(self).spec_selected() == old(self).spec_selected(),
    {
        Ok(())
    }

    /// Replaces the list of known devices. The selection stays.
    pub fn set_devices(&mut self, devices: Vec<OutputDevice>)
        ensures
            final(self).spec_devices() == devices@,
            final(self).spec_selected() == old(self).spec_selected(),
    {
        self.devices = devices;
    }

    /// A copy of the list of known devices.
    pub fn get_devices(&self) -> (devices: Vec<OutputDevice>)
        ensures
            devices@ == self.spec_devices(),
    {
        let mut devices: Vec<OutputDevice> = Vec::new();
        let mut i: usize = 0;
        while i < self.devices.len()
            invariant
                i <= self.devices@.len(),
                devices@ == self.devices@.take(i as int),
            decreases self.devices@.len() - i,
        {
            devices.push(self.devices[i].clone());
            i += 1;
            assert(devices@ =~= self.devices@.take(i as int));
        }
        assert(self.devices@.take(i as int) =~= self.devices@);
        devices
    }

    /// Selects the device that `device_id` names. The identifier is not held
    /// against the list: a device may be selected before it is reported.
    pub fn select_device(&mut self, device_id: String) -> (r: Result<(), VortexError>)
        ensures
            r is Ok,
            final(self).spec_selected() == Some(device_id),
            final(self).spec_devices() == old(self).spec_devices(),
    {
        self.selected_device = Some(device_id);
        Ok(())
    }

    pub fn get_selected_device(&self) -> (selected: Option<&String>)
        ensures
            match selected {
                Some(id) => self.spec_selected() == Some(*id),
                None => self.spec_selected() is None,
            },
    {
        self.selected_device.as_ref()
    }
}

} // verus!
