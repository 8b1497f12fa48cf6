use vstd::prelude::*;

verus! {

/// Why a stream could not be spawned.
#[derive(Debug)]
pub enum SpawnRtThreadError {
    /// The identifier is used by more than one device of the configuration.
    DeviceIdNotUnique(String),
    /// No compiled-in backend has this name.
    AudioServerUnavailable(String),
    /// The backend failed while opening its client or binding ports.
    Backend(BackendError),
}

/// A failure reported by a backend binding.
#[derive(Debug, Clone, PartialEq, Eq)]
pub enum BackendError {
    ServerUnreachable,
    DeviceBusy(String),
    DeviceNotFound(String),
    Other(String),
}

/// Why `run` failed.
#[derive(Debug)]
pub enum RunConfigError {
    SpawnRtThread(SpawnRtThreadError),
}

/// Why a live change of the ports failed. The running stream is untouched.
#[derive(Debug, PartialEq, Eq)]
pub enum ChangeAudioPortConfigError {
    NotSupportedByBackend,
    /// The stream has stopped after a fatal error or was closed.
    StreamStopped,
    /// A port name appears twice in one of the new lists.
    PortNotUnique(String),
    /// The backend refused the new ports.
    Backend(BackendError),
}

/// Why a live change of the buffer size failed. The running stream is untouched.
#[derive(Debug, PartialEq, Eq)]
pub enum ChangeAudioBufferSizeError {
    NotSupportedByBackend,
    /// The stream has stopped after a fatal error or was closed.
    StreamStopped,
    /// The requested size lies outside the range the backend accepts.
    OutOfRange(u32),
    /// The backend refused the new size.
    Backend(BackendError),
}

/// A recoverable stream condition.
#[derive(Debug, Clone, PartialEq, Eq)]
pub enum StreamError {
    BufferUnderrun,
    BufferOverrun,
    Other(String),
}

/// A condition that stopped the stream.
#[derive(Debug, Clone, PartialEq, Eq)]
pub enum FatalStreamError {
    ServerDisconnected,
    DeviceRemoved(String),
    Other(String),
}

impl RunConfigError {
    pub fn from_spawn(e: SpawnRtThreadError) -> (r: RunConfigError)
        ensures
            r == RunConfigError::SpawnRtThread(e),
    {
        RunConfigError::SpawnRtThread(e)
    }
}

} // verus!
