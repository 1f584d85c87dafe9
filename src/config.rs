//! Choices the caller makes before connecting.

use vstd::prelude::*;
use vstd::string::StringExecFns;

verus! {

/// Where the device description is read from.
#[derive(Debug, Clone, PartialEq, Eq)]
pub enum DeviceSource {
    /// A JSON file at this path.
    JsonFile(String),
    /// JSON text given directly.
    JsonString(String),
}

impl DeviceSource {
    /// The file `device.json` in the working directory.
    pub fn default() -> (r: DeviceSource)
        ensures
            r matches DeviceSource::JsonFile(path) && path@ == "device.json"@,
    {
        DeviceSource::JsonFile(String::from_str("device.json"))
    }
}

/// How a slider captcha is solved.
#[derive(PartialEq, Eq, Structural, Clone, Copy, Debug)]
pub enum ShowSlider {
    /// Through the companion Android helper application.
    AndroidHelper,
}

} // verus!
