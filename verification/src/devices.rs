//! The device enumerator's decision logic.
//!
//! The host layer asks the audio host for the input device names and the
//! default input's name; this module turns that raw answer into the device
//! list the interface shows, marking the default and treating an empty
//! enumeration as a hard error, since capture would be guaranteed to fail.

use crate::errors::DeviceError;
use vstd::prelude::*;

verus! {

/// One input device as shown to the user: its name, and whether it is the
/// host's default input. Produced fresh on each enumeration; identity is
/// name-equality only.
pub struct AudioDevice {
    /// The device's host-reported name.
    pub name: String,
    /// Whether the name matches the host's default input device.
    pub is_default: bool,
}

/// Whether a device name counts as the default, given the host's
/// default-input name when it has one.
pub open spec fn is_default_name(name: Seq<char>, default_name: Option<String>) -> bool {
    match default_name {
        Option::Some(d) => name == d@,
        Option::None => false,
    }
}

/// Builds the device list from the host's raw enumeration: every name in
/// order, each marked as default exactly when it equals the host's
/// default-input name. Zero devices is a hard error.
pub fn list_audio_devices(names: Vec<String>, default_name: Option<String>) -> (r: Result<
    Vec<AudioDevice>,
    DeviceError,
>)
    ensures
        names@.len() == 0 ==> r == Result::<Vec<AudioDevice>, DeviceError>::Err(
            DeviceError::NoDevices,
        ),
        names@.len() > 0 ==> (r matches Ok(devs) && devs@.len() == names@.len() && forall|i: int|
            0 <= i < devs@.len() ==> (#[trigger] devs@[i]).name@ == names@[i]@ && devs@[i].is_default
                == is_default_name(names@[i]@, default_name)),
{
    if names.len() == 0 {
        return Err(DeviceError::NoDevices);
    }
    let mut devs: Vec<AudioDevice> = Vec::new();
    let mut i: usize = 0;
    while i < names.len()
        invariant
            i <= names@.len(),
            devs@.len() == i,
            forall|k: int|
                0 <= k < i ==> (#[trigger] devs@[k]).name@ == names@[k]@ && devs@[k].is_default
                    == is_default_name(names@[k]@, default_name),
        decreases names@.len() - i,
    {
        let name = names[i].clone();
        let is_default = match &default_name {
            Some(d) => *d == name,
            None => false,
        };
        devs.push(AudioDevice { name, is_default });
        i = i + 1;
    }
    Ok(devs)
}

} // verus!
