use vstd::prelude::*;
use crate::config::Config;
use crate::error::{RunConfigError, SpawnRtThreadError};
use crate::stream::{
    server_named, spawn_rt_thread, BackendBinding, Callback, ErrorBehavior, ErrorHandler,
    ProcessHandler, StreamHandle,
};
use crate::validate::{distinct_prefix, first_repeat_at};

verus! {

/// The total latency, in frames, that a configuration will have before it
/// runs. No compiled-in backend reports its latency ahead of negotiation, so
/// it is not known at this time for any configuration.
pub fn estimated_latency(config: &Config) -> (r: Option<u32>)
    ensures
        r is None,
{
    None
}

/// The sample rate a configuration requests, when it names one. The backend
/// may run the stream at another rate: see the stream info once it runs.
pub fn sample_rate(config: &Config) -> (r: Option<u32>)
    ensures
        r == config.sample_rate,
{
    config.sample_rate
}

/// Runs a configuration: spawns its stream and hands back the handle that
/// owns it. On error no stream was started.
pub fn run<P: ProcessHandler, E: ErrorHandler, B: BackendBinding>(
    config: &Config,
    use_application_name: Option<String>,
    error_behavior: &ErrorBehavior,
    binding: &mut B,
    process_handler: P,
    error_handler: E,
) -> (r: Result<StreamHandle<P, E, B::Client>, RunConfigError>)
    requires
        config.audio.use_in_devices@.len() + config.audio.use_out_devices@.len() <= usize::MAX,
    ensures
        ({
            let ids = config.audio.device_ids();
            &&& !distinct_prefix(ids, ids.len() as int) ==> {
                &&& r matches Err(RunConfigError::SpawnRtThread(SpawnRtThreadError::DeviceIdNotUnique(s)))
                &&& exists|j: int| first_repeat_at(ids, j) && s@ == ids[j]
                &&& *final(binding) == *old(binding)
            }
            &&& distinct_prefix(ids, ids.len() as int) && server_named(config.audio.server_name@) is None ==> {
                &&& r matches Err(RunConfigError::SpawnRtThread(SpawnRtThreadError::AudioServerUnavailable(s)))
                &&& s@ == config.audio.server_name@
                &&& *final(binding) == *old(binding)
            }
        }),
        match r {
            Err(RunConfigError::SpawnRtThread(SpawnRtThreadError::DeviceIdNotUnique(_))) => !distinct_prefix(
                config.audio.device_ids(),
                config.audio.device_ids().len() as int,
            ),
            Err(RunConfigError::SpawnRtThread(SpawnRtThreadError::AudioServerUnavailable(_))) => distinct_prefix(
                config.audio.device_ids(),
                config.audio.device_ids().len() as int,
            ) && server_named(config.audio.server_name@) is None,
            Err(RunConfigError::SpawnRtThread(SpawnRtThreadError::Backend(_))) => distinct_prefix(
                config.audio.device_ids(),
                config.audio.device_ids().len() as int,
            ) && server_named(config.audio.server_name@) is Some,
            Ok(_) => true,
        },
        r matches Ok(h) ==> h.wf() && h.running() && h.holds_client() && h.behavior() == *error_behavior && h.log() == seq![
            Callback::Init(h.info()),
        ],
{
    match spawn_rt_thread(
        &config.audio,
        config.midi.as_ref(),
        use_application_name,
        *error_behavior,
        binding,
        process_handler,
        error_handler,
    ) {
        Ok(h) => Ok(h),
        Err(e) => Err(RunConfigError::from_spawn(e)),
    }
}

} // verus!
