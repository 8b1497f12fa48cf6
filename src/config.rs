use vstd::prelude::*;

verus! {

/// One selected audio device: a logical identifier chosen by the caller and
/// the physical device or port it binds to.
pub struct AudioDeviceConfig {
    pub id: String,
    pub device: String,
}

/// One selected MIDI device.
pub struct MidiDeviceConfig {
    pub id: String,
    pub device: String,
}

/// The audio side of a configuration: which backend to use and which devices
/// to bind as inputs and outputs, in order.
pub struct AudioServerConfig {
    pub server_name: String,
    pub use_in_devices: Vec<AudioDeviceConfig>,
    pub use_out_devices: Vec<AudioDeviceConfig>,
}

/// The MIDI side of a configuration.
pub struct MidiServerConfig {
    pub server_name: String,
    pub use_in_devices: Vec<MidiDeviceConfig>,
    pub use_out_devices: Vec<MidiDeviceConfig>,
}

/// Requested buffer size: a fixed number of frames, or whatever the backend
/// uses by default.
#[derive(Clone, Copy, PartialEq, Eq, Structural, Debug)]
pub enum AudioBufferSizeConfig {
    Fixed(u32),
    BackendDefault,
}

/// A full stream configuration.
pub struct Config {
    pub audio: AudioServerConfig,
    pub midi: Option<MidiServerConfig>,
    pub sample_rate: Option<u32>,
    pub buffer_size: AudioBufferSizeConfig,
}

impl AudioServerConfig {
    /// The device identifiers of the configuration: inputs first, then
    /// outputs, each list in its own order.
    pub open spec fn device_ids(&self) -> Seq<Seq<char>> {
        self.use_in_devices@.map_values(|d: AudioDeviceConfig| d.id@)
            + self.use_out_devices@.map_values(|d: AudioDeviceConfig| d.id@)
    }
}

} // verus!
