use vstd::prelude::*;

pub mod bridge;
pub mod codec;
pub mod queue;
pub mod session;

pub use codec::hsv_to_hex;
pub use codec::midi_to_hue;

verus! {

/// Errors of the outbound command pipeline.
///
/// `InvalidInput` comes from the codec: a hue, saturation or brightness
/// outside its documented range is rejected rather than clamped or wrapped.
/// `DeviceUnreachable` means a connect (initial or retry) failed.
/// `ConnectionLost` means both write attempts of one send failed; the
/// session is left disconnected.
#[derive(Debug, Clone, Copy, PartialEq, Eq, Structural)]
pub enum BulbError {
    InvalidInput,
    DeviceUnreachable,
    ConnectionLost,
}

/// Immutable device configuration: identity, shared secret key, network
/// address and protocol version tag for one bulb. Created once at startup
/// and owned by the device session for its whole lifetime.
#[derive(Debug, Clone)]
pub struct BulbConfig {
    pub device_id: String,
    pub local_key: String,
    pub ip: String,
    pub version: String,
}

impl BulbConfig {
    pub fn new(device_id: String, local_key: String, ip: String, version: String) -> (c: BulbConfig)
        ensures
            c.device_id == device_id,
            c.local_key == local_key,
            c.ip == ip,
            c.version == version,
    {
        BulbConfig { device_id, local_key, ip, version }
    }
}

/// One color change requested of the bulb: an HSV triple plus a flag that
/// asks the device to apply the color at once instead of fading to it.
/// A value object with no identity; validity is `valid()`.
#[derive(Debug, Clone, Copy, PartialEq, Eq, Structural)]
pub struct ColorCommand {
    pub hue: u16,
    pub saturation: u16,
    pub brightness: u16,
    pub immediate: bool,
}

impl ColorCommand {
    /// The documented ranges: hue in 0..=360, saturation and brightness in
    /// 0..=1000.
    pub open spec fn valid(self) -> bool {
        self.hue <= 360 && self.saturation <= 1000 && self.brightness <= 1000
    }

    pub fn new(hue: u16, saturation: u16, brightness: u16, immediate: bool) -> (c: ColorCommand)
        ensures
            c == (ColorCommand { hue, saturation, brightness, immediate }),
    {
        ColorCommand { hue, saturation, brightness, immediate }
    }

    /// Two commands ask for the same device state when their HSV triples
    /// agree; the `immediate` flag alone never makes a command new.
    pub open spec fn same_color(self, other: ColorCommand) -> bool {
        self.hue == other.hue
            && self.saturation == other.saturation
            && self.brightness == other.brightness
    }
}

} // verus!
