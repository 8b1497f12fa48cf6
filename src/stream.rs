use vstd::prelude::*;
use vstd::string::*;
use crate::config::{AudioBufferSizeConfig, AudioServerConfig, MidiServerConfig};
use crate::error::{
    BackendError, ChangeAudioBufferSizeError, ChangeAudioPortConfigError, FatalStreamError,
    SpawnRtThreadError, StreamError,
};
use crate::validate::{check_duplicate_ids, distinct_prefix, first_repeat_at};

verus! {

/// The configuration a running stream actually uses, as negotiated with the
/// backend. It may differ from what was requested.
pub struct StreamInfo {
    pub sample_rate: u32,
    pub buffer_size: u32,
    pub audio_in_ports: Vec<String>,
    pub audio_out_ports: Vec<String>,
}

/// The mathematical value of a [`StreamInfo`].
pub struct StreamInfoView {
    pub sample_rate: u32,
    pub buffer_size: u32,
    pub audio_in_ports: Seq<Seq<char>>,
    pub audio_out_ports: Seq<Seq<char>>,
}

impl View for StreamInfo {
    type V = StreamInfoView;

    open spec fn view(&self) -> StreamInfoView {
        StreamInfoView {
            sample_rate: self.sample_rate,
            buffer_size: self.buffer_size,
            audio_in_ports: self.audio_in_ports.deep_view(),
            audio_out_ports: self.audio_out_ports.deep_view(),
        }
    }
}

/// What one realtime callback is handed.
pub struct ProcessInfo {
    pub frames: u32,
    pub sample_rate: u32,
    pub num_audio_in_ports: usize,
    pub num_audio_out_ports: usize,
    /// A deadline was missed since the previous callback.
    pub xrun: bool,
}

/// The audio callback of a stream, implemented by the user of the library.
pub trait ProcessHandler {
    /// Called once, before any call of `process`.
    fn init(&mut self, stream_info: &StreamInfo);

    /// Called after a live change of the configuration, before the first
    /// `process` that uses it.
    fn stream_changed(&mut self, stream_info: &StreamInfo);

    /// Called for every tick of the realtime thread.
    fn process(&mut self, proc_info: ProcessInfo);
}

/// The error callbacks of a stream, implemented by the user of the library.
pub trait ErrorHandler: Sized {
    /// A condition that does not stop the stream.
    fn nonfatal_error(&mut self, error: StreamError);

    /// The stream has stopped; called at most once.
    fn fatal_error(self, error: FatalStreamError);
}

/// The compiled-in audio backends.
#[derive(Clone, Copy, PartialEq, Eq, Structural, Debug)]
pub enum AudioServer {
    Jack,
}

/// The backend whose name is `name`, if one is compiled in.
pub open spec fn server_named(name: Seq<char>) -> Option<AudioServer> {
    if name == "Jack"@ {
        Some(AudioServer::Jack)
    } else {
        None
    }
}

/// Resolves a backend by name.
pub fn find_audio_server(name: &String) -> (r: Option<AudioServer>)
    ensures
        r == server_named(name@),
{
    let jack = <String as StringExecFns>::from_str("Jack");
    if *name == jack {
        Some(AudioServer::Jack)
    } else {
        None
    }
}

/// What a backend can change while its stream runs, and the buffer sizes it
/// accepts.
#[derive(Clone, Copy, PartialEq, Eq, Structural, Debug)]
pub struct BackendCaps {
    pub live_port_change: bool,
    pub live_buffer_size_change: bool,
    pub min_buffer_size: u32,
    pub max_buffer_size: u32,
    pub default_buffer_size: u32,
}

/// A backend's running native client: its connection to the server, its
/// registered ports and its realtime thread. The stream handle owns it, as its
/// first field, so that dropping the handle drops the client before the
/// handlers; an implementation releases on drop what `release` releases.
pub trait BackendClient {
    /// Rebinds the audio ports; each list given replaces the current one.
    fn set_audio_ports(
        &mut self,
        audio_in_ports: Option<&Vec<String>>,
        audio_out_ports: Option<&Vec<String>>,
    ) -> Result<(), BackendError>;

    /// Switches to a new buffer size, in frames.
    fn set_buffer_size(&mut self, frames: u32) -> Result<(), BackendError>;

    /// Stops delivering callbacks, joins the realtime thread and releases the
    /// ports and the connection.
    fn release(self);
}

/// What a backend binding hands back once its native client runs.
pub struct NativeStream<C: BackendClient> {
    pub stream_info: StreamInfo,
    pub caps: BackendCaps,
    pub client: C,
}

/// The native side of a backend: opening a client and binding ports. Each
/// backend integration implements it.
pub trait BackendBinding {
    type Client: BackendClient;

    fn open_client(
        &mut self,
        server: AudioServer,
        audio_config: &AudioServerConfig,
        midi_config: Option<&MidiServerConfig>,
        use_client_name: Option<String>,
    ) -> Result<NativeStream<Self::Client>, BackendError>;

    /// The devices the server offers now, or `None` when it cannot be reached.
    fn probe_devices(&mut self, server: AudioServer) -> Option<Vec<String>>;
}

/// One observable callback of a stream, in the order they happen.
pub enum Callback {
    Init(StreamInfoView),
    StreamChanged(StreamInfoView),
    Process(StreamInfoView),
    NonfatalError,
    FatalError,
}

/// The configuration in force just before position `i` of a callback log:
/// the one handed by the latest `Init` or `StreamChanged` before `i`.
pub open spec fn config_in_force(log: Seq<Callback>, i: int) -> StreamInfoView
    decreases i,
{
    if i <= 1 {
        match log[0] {
            Callback::Init(v) => v,
            _ => arbitrary(),
        }
    } else {
        match log[i - 1] {
            Callback::Init(v) => v,
            Callback::StreamChanged(v) => v,
            _ => config_in_force(log, i - 1),
        }
    }
}

/// The ordering rules of a stream's callbacks: `init` comes first and only
/// once, every `process` uses the configuration in force, and a fatal error
/// is the last callback.
pub open spec fn log_ordered(log: Seq<Callback>) -> bool {
    &&& log.len() >= 1
    &&& log[0] is Init
    &&& forall|i: int| 1 <= i < log.len() ==> !(#[trigger] log[i] is Init)
    &&& forall|i: int| 1 <= i < log.len() && #[trigger] log[i] is Process
        ==> log[i]->Process_0 == config_in_force(log, i)
    &&& forall|i: int| 0 <= i < log.len() && #[trigger] log[i] is FatalError
        ==> i == log.len() - 1
}

/// How a stream reports trouble that does not stop it.
#[derive(Clone, Copy, PartialEq, Eq, Structural, Debug)]
pub struct ErrorBehavior {
    /// Report each missed deadline to the error handler as a buffer underrun,
    /// before the tick's `process` call.
    pub report_xruns: bool,
}

/// The callbacks of one tick of a running stream.
pub open spec fn tick_callbacks(behavior: ErrorBehavior, xrun: bool, info: StreamInfoView) -> Seq<Callback> {
    if behavior.report_xruns && xrun {
        seq![Callback::NonfatalError, Callback::Process(info)]
    } else {
        seq![Callback::Process(info)]
    }
}

/// The lifecycle of a stream.
#[derive(Clone, Copy, PartialEq, Eq, Structural, Debug)]
pub enum StreamState {
    Running,
    /// Stopped by a fatal error.
    Stopped,
    /// Torn down by its owner.
    Closed,
}

/// The owner of a running stream and of its backend client. Closing or
/// dropping it stops all callbacks and releases the client.
pub struct StreamHandle<P: ProcessHandler, E: ErrorHandler, C: BackendClient> {
    client: Option<C>,
    stream_info: StreamInfo,
    caps: BackendCaps,
    error_behavior: ErrorBehavior,
    state: StreamState,
    process_handler: P,
    error_handler: Option<E>,
    log: Ghost<Seq<Callback>>,
}

impl<P: ProcessHandler, E: ErrorHandler, C: BackendClient> StreamHandle<P, E, C> {
    /// The configuration in force.
    pub closed spec fn info(&self) -> StreamInfoView {
        self.stream_info@
    }

    /// What the backend of the stream supports.
    pub closed spec fn backend_caps(&self) -> BackendCaps {
        self.caps
    }

    /// How the stream reports trouble.
    pub closed spec fn behavior(&self) -> ErrorBehavior {
        self.error_behavior
    }

    /// Where the stream is in its lifecycle.
    pub closed spec fn state(&self) -> StreamState {
        self.state
    }

    /// Every callback made so far, in order.
    pub closed spec fn log(&self) -> Seq<Callback> {
        self.log@
    }

    /// The handle still owns the backend's native client.
    pub closed spec fn holds_client(&self) -> bool {
        self.client is Some
    }

    /// Callbacks are still delivered.
    pub open spec fn running(&self) -> bool {
        self.state() == StreamState::Running
    }

    /// The handle's invariant.
    pub closed spec fn wf(&self) -> bool {
        &&& log_ordered(self.log@)
        &&& self.stream_info@ == config_in_force(self.log@, self.log@.len() as int)
        &&& (self.state == StreamState::Running <==> self.error_handler is Some)
        &&& (self.state == StreamState::Closed <==> self.client is None)
        &&& self.state == StreamState::Running ==> !(self.log@.last() is FatalError)
    }
}

/// Lemma: appending a callback that is not a configuration event keeps the
/// configuration in force.
proof fn lemma_config_kept(log: Seq<Callback>, c: Callback)
    requires
        log.len() >= 1,
        !(c is Init),
        !(c is StreamChanged),
    ensures
        config_in_force(log.push(c), log.len() + 1 as int) == config_in_force(log, log.len() as int),
{
    lemma_config_prefix(log, c);
}

/// Lemma: appending to a log leaves the configuration in force at earlier
/// positions alone.
proof fn lemma_config_prefix(log: Seq<Callback>, c: Callback)
    requires
        log.len() >= 1,
    ensures
        forall|i: int| 0 <= i <= log.len() ==> config_in_force(log.push(c), i) == config_in_force(log, i),
{
    assert forall|i: int| 0 <= i <= log.len() implies config_in_force(log.push(c), i) == config_in_force(log, i) by {
        lemma_config_prefix_at(log, c, i);
    }
}

proof fn lemma_config_prefix_at(log: Seq<Callback>, c: Callback, i: int)
    requires
        log.len() >= 1,
        0 <= i <= log.len(),
    ensures
        config_in_force(log.push(c), i) == config_in_force(log, i),
    decreases i,
{
    if i > 1 {
        lemma_config_prefix_at(log, c, i - 1);
    }
}

/// Lemma: appending a callback keeps the ordering rules when it is neither
/// an `Init` nor placed after a fatal error, and a `Process` uses the
/// configuration in force.
proof fn lemma_push_ordered(log: Seq<Callback>, c: Callback)
    requires
        log_ordered(log),
        !(log.last() is FatalError),
        !(c is Init),
        c is Process ==> c->Process_0 == config_in_force(log, log.len() as int),
    ensures
        log_ordered(log.push(c)),
{
    lemma_config_prefix(log, c);
    let l2 = log.push(c);
    assert forall|i: int| 1 <= i < l2.len() && #[trigger] l2[i] is Process implies l2[i]->Process_0
        == config_in_force(l2, i) by {
        if i < log.len() {
            assert(l2[i] == log[i]);
        }
    }
    assert forall|i: int| 0 <= i < l2.len() && #[trigger] l2[i] is FatalError implies i == l2.len()
        - 1 by {
        if i < log.len() {
            assert(l2[i] == log[i]);
            assert(i == log.len() - 1);
        }
    }
}

/// The callbacks of every stream obey its ordering rules: `init` is the
/// first callback and is never repeated, every `process` runs with the
/// configuration handed by the latest `init` or `stream_changed` before it,
/// and a fatal error, if any, is the last callback.
pub proof fn lemma_callback_order<P: ProcessHandler, E: ErrorHandler, C: BackendClient>(
    h: &StreamHandle<P, E, C>,
)
    requires
        h.wf(),
    ensures
        h.log().len() >= 1,
        h.log()[0] is Init,
        forall|i: int| 1 <= i < h.log().len() ==> !(#[trigger] h.log()[i] is Init),
        forall|i: int| 1 <= i < h.log().len() && #[trigger] h.log()[i] is Process
            ==> h.log()[i]->Process_0 == config_in_force(h.log(), i),
        forall|i: int| 0 <= i < h.log().len() && #[trigger] h.log()[i] is FatalError
            ==> i == h.log().len() - 1,
        h.info() == config_in_force(h.log(), h.log().len() as int),
        h.running() ==> !(h.log().last() is FatalError),
        h.running() ==> h.holds_client(),
{
}

/// After a configuration change, every `process` call up to the next change
/// runs with exactly the new configuration: no tick sees a mix of the old
/// and the new one.
pub proof fn lemma_process_after_change(log: Seq<Callback>, v: StreamInfoView, rest: Seq<Callback>)
    requires
        log_ordered(log + seq![Callback::StreamChanged(v)] + rest),
        forall|i: int| 0 <= i < rest.len() ==> !(#[trigger] rest[i] is StreamChanged),
    ensures
        forall|i: int| 0 <= i < rest.len() && #[trigger] rest[i] is Process ==> rest[i]->Process_0 == v,
{
    let full = log + seq![Callback::StreamChanged(v)] + rest;
    let n = log.len() as int;
    if n == 0 {
        assert(full[0] == Callback::StreamChanged(v));
    }
    assert forall|i: int| 0 <= i < rest.len() && #[trigger] rest[i] is Process implies rest[i]->Process_0
        == v by {
        assert(full[n + 1 + i] == rest[i]);
        lemma_in_force_after_change(full, n, v, n + 1 + i);
    }
}

proof fn lemma_in_force_after_change(full: Seq<Callback>, n: int, v: StreamInfoView, k: int)
    requires
        n >= 1,
        n < k <= full.len(),
        full[n] == Callback::StreamChanged(v),
        log_ordered(full),
        forall|i: int| n < i < full.len() ==> !(#[trigger] full[i] is StreamChanged),
    ensures
        config_in_force(full, k) == v,
    decreases k,
{
    if k > n + 1 {
        assert(!(full[k - 1] is StreamChanged));
        assert(!(full[k - 1] is Init));
        lemma_in_force_after_change(full, n, v, k - 1);
    }
}

/// Starts a stream on what a backend binding handed back: on success the
/// process handler's `init` runs once with the negotiated configuration.
pub fn start_stream<P: ProcessHandler, E: ErrorHandler, C: BackendClient>(
    outcome: Result<NativeStream<C>, BackendError>,
    error_behavior: ErrorBehavior,
    process_handler: P,
    error_handler: E,
) -> (r: Result<StreamHandle<P, E, C>, SpawnRtThreadError>)
    ensures
        match outcome {
            Ok(native) => r matches Ok(h) && h.wf() && h.running() && h.holds_client() && h.info() == native.stream_info@
                && h.backend_caps() == native.caps && h.behavior() == error_behavior && h.log() == seq![Callback::Init(native.stream_info@)],
            Err(e) => r == Err::<StreamHandle<P, E, C>, _>(SpawnRtThreadError::Backend(e)),
        },
{
    match outcome {
        Ok(native) => {
            let mut process_handler = process_handler;
            process_handler.init(&native.stream_info);
            let ghost log = seq![Callback::Init(native.stream_info@)];
            let h = StreamHandle {
                client: Some(native.client),
                stream_info: native.stream_info,
                caps: native.caps,
                error_behavior,
                state: StreamState::Running,
                process_handler,
                error_handler: Some(error_handler),
                log: Ghost(log),
            };
            assert(h.log@[0] is Init);
            Ok(h)
        },
        Err(e) => Err(SpawnRtThreadError::Backend(e)),
    }
}

/// Spawns a stream: checks the configuration, resolves the backend by name,
/// has the binding open its client, and starts the stream on the result.
/// Nothing reaches the binding unless the configuration is valid and the
/// backend exists.
pub fn spawn_rt_thread<P: ProcessHandler, E: ErrorHandler, B: BackendBinding>(
    audio_config: &AudioServerConfig,
    midi_config: Option<&MidiServerConfig>,
    use_client_name: Option<String>,
    error_behavior: ErrorBehavior,
    binding: &mut B,
    process_handler: P,
    error_handler: E,
) -> (r: Result<StreamHandle<P, E, B::Client>, SpawnRtThreadError>)
    requires
        audio_config.use_in_devices@.len() + audio_config.use_out_devices@.len() <= usize::MAX,
    ensures
        !distinct_prefix(audio_config.device_ids(), audio_config.device_ids().len() as int) ==> {
            &&& r matches Err(SpawnRtThreadError::DeviceIdNotUnique(s))
            &&& exists|j: int| first_repeat_at(audio_config.device_ids(), j)
                && s@ == audio_config.device_ids()[j]
            &&& *final(binding) == *old(binding)
        },
        distinct_prefix(audio_config.device_ids(), audio_config.device_ids().len() as int)
            && server_named(audio_config.server_name@) is None ==> {
            &&& r matches Err(SpawnRtThreadError::AudioServerUnavailable(s)) && s@ == audio_config.server_name@
            &&& *final(binding) == *old(binding)
        },
        match r {
            Ok(h) => h.wf() && h.running() && h.holds_client() && h.behavior() == error_behavior && h.log() == seq![
                Callback::Init(h.info()),
            ],
            Err(SpawnRtThreadError::Backend(_)) => distinct_prefix(audio_config.device_ids(), audio_config.device_ids().len() as int)
                && server_named(audio_config.server_name@) is Some,
            Err(SpawnRtThreadError::DeviceIdNotUnique(_)) => !distinct_prefix(audio_config.device_ids(), audio_config.device_ids().len() as int),
            Err(SpawnRtThreadError::AudioServerUnavailable(_)) => distinct_prefix(audio_config.device_ids(), audio_config.device_ids().len() as int)
                && server_named(audio_config.server_name@) is None,
        },
{
    match check_duplicate_ids(audio_config, midi_config) {
        Ok(()) => {},
        Err(e) => {
            return Err(e);
        },
    }
    match find_audio_server(&audio_config.server_name) {
        Some(server) => {
            let outcome = binding.open_client(server, audio_config, midi_config, use_client_name);
            start_stream(outcome, error_behavior, process_handler, error_handler)
        },
        None => Err(SpawnRtThreadError::AudioServerUnavailable(audio_config.server_name.clone())),
    }
}

/// Checks that no name appears twice in a list of port names; on failure
/// returns the first name, scanning left to right, that repeats an earlier one.
pub fn check_unique_names(names: &Vec<String>) -> (r: Result<(), String>)
    ensures
        match r {
            Ok(()) => distinct_prefix(names.deep_view(), names.len() as int),
            Err(s) => exists|j: int| first_repeat_at(names.deep_view(), j) && s@ == names.deep_view()[j],
        },
{
    let ghost ids = names.deep_view();
    let n = names.len();
    let mut j: usize = 0;
    while j < n
        invariant
            ids == names.deep_view(),
            ids.len() == n,
            j <= n,
            distinct_prefix(ids, j as int),
        decreases n - j,
    {
        let mut i: usize = 0;
        while i < j
            invariant
                ids == names.deep_view(),
                ids.len() == n,
                i <= j < n,
                distinct_prefix(ids, j as int),
                forall|a: int| 0 <= a < i ==> ids[a] != ids[j as int],
            decreases j - i,
        {
            assert(ids[i as int] == names@[i as int]@ && ids[j as int] == names@[j as int]@);
            if names[i] == names[j] {
                assert(first_repeat_at(ids, j as int));
                return Err(names[j].clone());
            }
            i = i + 1;
        }
        j = j + 1;
    }
    Ok(())
}

/// The port lists of `info` after a change: each list given replaces the
/// old one, each `None` keeps it.
pub open spec fn with_ports(
    info: StreamInfoView,
    audio_in_ports: Option<Seq<Seq<char>>>,
    audio_out_ports: Option<Seq<Seq<char>>>,
) -> StreamInfoView {
    StreamInfoView {
        audio_in_ports: match audio_in_ports {
            Some(p) => p,
            None => info.audio_in_ports,
        },
        audio_out_ports: match audio_out_ports {
            Some(p) => p,
            None => info.audio_out_ports,
        },
        ..info
    }
}

/// The buffer size a stream switches to on a request, if the backend
/// accepts it.
pub open spec fn requested_buffer_size(caps: BackendCaps, config: AudioBufferSizeConfig) -> Option<u32> {
    match config {
        AudioBufferSizeConfig::Fixed(n) => if caps.min_buffer_size <= n <= caps.max_buffer_size {
            Some(n)
        } else {
            None
        },
        AudioBufferSizeConfig::BackendDefault => Some(caps.default_buffer_size),
    }
}

/// The value of an optional list of port names.
pub open spec fn names_view(v: Option<Vec<String>>) -> Option<Seq<Seq<char>>> {
    match v {
        Some(p) => Some(p.deep_view()),
        None => None,
    }
}

/// `s` is the first name, scanning left to right, that repeats an earlier
/// one in the given list of port names.
pub open spec fn first_repeat_of(v: Option<Vec<String>>, s: Seq<char>) -> bool {
    match v {
        Some(p) => exists|j: int| first_repeat_at(p.deep_view(), j) && s == p.deep_view()[j],
        None => false,
    }
}

/// An optional list of port names holds no name twice.
pub open spec fn names_unique(v: Option<Vec<String>>) -> bool {
    match v {
        Some(p) => distinct_prefix(p.deep_view(), p.len() as int),
        None => true,
    }
}

impl<P: ProcessHandler, E: ErrorHandler, C: BackendClient> StreamHandle<P, E, C> {
    /// The configuration the stream actually runs with.
    pub fn stream_info(&self) -> (r: &StreamInfo)
        ensures
            r@ == self.info(),
    {
        &self.stream_info
    }

    /// Whether the backend can change the ports while the stream runs. This
    /// stays true of the backend after the stream stopped.
    pub fn can_change_audio_port_config(&self) -> (r: bool)
        ensures
            r == self.backend_caps().live_port_change,
    {
        self.caps.live_port_change
    }

    /// Whether the backend can change the buffer size while the stream runs.
    pub fn can_change_audio_buffer_size_config(&self) -> (r: bool)
        ensures
            r == self.backend_caps().live_buffer_size_change,
    {
        self.caps.live_buffer_size_change
    }

    /// What a tick of `frames` frames hands the process handler under the
    /// configuration in force.
    pub fn process_info(&self, frames: u32, xrun: bool) -> (r: ProcessInfo)
        ensures
            r.frames == frames,
            r.xrun == xrun,
            r.sample_rate == self.info().sample_rate,
            r.num_audio_in_ports == self.info().audio_in_ports.len(),
            r.num_audio_out_ports == self.info().audio_out_ports.len(),
    {
        ProcessInfo {
            frames,
            sample_rate: self.stream_info.sample_rate,
            num_audio_in_ports: self.stream_info.audio_in_ports.len(),
            num_audio_out_ports: self.stream_info.audio_out_ports.len(),
            xrun,
        }
    }

    /// Whether callbacks are still delivered.
    pub fn is_running(&self) -> (r: bool)
        ensures
            r == self.running(),
    {
        self.state == StreamState::Running
    }

    /// One tick of the realtime thread: while the stream runs, a missed
    /// deadline is reported if the error behavior asks for it, then the process
    /// handler is called with `process_info(frames, xrun)`, which follows the
    /// configuration in force. Otherwise nothing
    /// happens.
    pub fn process_tick(&mut self, frames: u32, xrun: bool)
        requires
            old(self).wf(),
        ensures
            final(self).wf(),
            final(self).info() == old(self).info(),
            final(self).backend_caps() == old(self).backend_caps(),
            final(self).behavior() == old(self).behavior(),
            final(self).holds_client() == old(self).holds_client(),
            final(self).state() == old(self).state(),
            final(self).log() == if old(self).running() {
                old(self).log() + tick_callbacks(old(self).behavior(), xrun, old(self).info())
            } else {
                old(self).log()
            },
    {
        if self.state == StreamState::Running {
            if xrun && self.error_behavior.report_xruns {
                self.report_nonfatal_error(StreamError::BufferUnderrun);
            }
            let ghost mid = self.log@;
            let info = self.process_info(frames, xrun);
            self.process_handler.process(info);
            let ghost c = Callback::Process(self.stream_info@);
            proof {
                lemma_push_ordered(self.log@, c);
                lemma_config_kept(self.log@, c);
                self.log@ = self.log@.push(c);
            }
            assert(self.log@ =~= old(self).log@ + tick_callbacks(old(self).error_behavior, xrun, old(self).stream_info@));
        }
    }

    /// Reports a recoverable condition to the error handler while the stream
    /// runs; otherwise nothing happens.
    pub fn report_nonfatal_error(&mut self, error: StreamError)
        requires
            old(self).wf(),
        ensures
            final(self).wf(),
            final(self).info() == old(self).info(),
            final(self).backend_caps() == old(self).backend_caps(),
            final(self).behavior() == old(self).behavior(),
            final(self).holds_client() == old(self).holds_client(),
            final(self).state() == old(self).state(),
            final(self).log() == if old(self).running() {
                old(self).log().push(Callback::NonfatalError)
            } else {
                old(self).log()
            },
    {
        if self.state == StreamState::Running {
            match &mut self.error_handler {
                Some(h) => h.nonfatal_error(error),
                None => {},
            }
            let ghost c = Callback::NonfatalError;
            proof {
                lemma_push_ordered(self.log@, c);
                lemma_config_kept(self.log@, c);
                self.log@ = self.log@.push(c);
            }
        }
    }

    /// Reports a condition that stops the stream: while it runs, the error
    /// handler receives it once and the stream stops. Otherwise nothing
    /// happens.
    pub fn report_fatal_error(&mut self, error: FatalStreamError)
        requires
            old(self).wf(),
        ensures
            final(self).wf(),
            final(self).info() == old(self).info(),
            final(self).backend_caps() == old(self).backend_caps(),
            final(self).behavior() == old(self).behavior(),
            final(self).holds_client() == old(self).holds_client(),
            !final(self).running(),
            old(self).running() ==> final(self).state() == StreamState::Stopped,
            !old(self).running() ==> final(self).state() == old(self).state(),
            final(self).log() == if old(self).running() {
                old(self).log().push(Callback::FatalError)
            } else {
                old(self).log()
            },
    {
        if self.state == StreamState::Running {
            self.state = StreamState::Stopped;
            match self.error_handler.take() {
                Some(h) => h.fatal_error(error),
                None => {},
            }
            let ghost c = Callback::FatalError;
            proof {
                lemma_push_ordered(self.log@, c);
                lemma_config_kept(self.log@, c);
                self.log@ = self.log@.push(c);
            }
        }
    }

    /// Tears the stream down: the backend client, if still held, is released,
    /// which joins the realtime thread and frees its ports and connection. No
    /// callback is made after this. Closing a closed or stopped stream is
    /// harmless.
    pub fn close(&mut self)
        requires
            old(self).wf(),
        ensures
            final(self).wf(),
            final(self).state() == StreamState::Closed,
            !final(self).holds_client(),
            final(self).info() == old(self).info(),
            final(self).backend_caps() == old(self).backend_caps(),
            final(self).behavior() == old(self).behavior(),
            final(self).log() == old(self).log(),
    {
        match self.client.take() {
            Some(c) => c.release(),
            None => {},
        }
        self.state = StreamState::Closed;
        self.error_handler = None;
    }

    /// Replaces the input and/or output ports while the stream runs. A valid
    /// request is handed to the backend client; on success the process
    /// handler is told of the new configuration before any tick uses it. On
    /// failure the configuration and the callbacks are left as they were.
    pub fn change_audio_port_config(
        &mut self,
        audio_in_ports: Option<Vec<String>>,
        audio_out_ports: Option<Vec<String>>,
    ) -> (r: Result<(), ChangeAudioPortConfigError>)
        requires
            old(self).wf(),
        ensures
            final(self).wf(),
            final(self).backend_caps() == old(self).backend_caps(),
            final(self).behavior() == old(self).behavior(),
            final(self).state() == old(self).state(),
            final(self).holds_client() == old(self).holds_client(),
            !old(self).running() ==> r == Err::<(), _>(ChangeAudioPortConfigError::StreamStopped),
            old(self).running() && !old(self).backend_caps().live_port_change ==> r == Err::<(), _>(
                ChangeAudioPortConfigError::NotSupportedByBackend,
            ),
            old(self).running() && old(self).backend_caps().live_port_change && !names_unique(audio_in_ports) ==> {
                &&& r matches Err(ChangeAudioPortConfigError::PortNotUnique(s))
                &&& first_repeat_of(audio_in_ports, s@)
            },
            old(self).running() && old(self).backend_caps().live_port_change && names_unique(audio_in_ports)
                && !names_unique(audio_out_ports) ==> {
                &&& r matches Err(ChangeAudioPortConfigError::PortNotUnique(s))
                &&& first_repeat_of(audio_out_ports, s@)
            },
            old(self).running() && old(self).backend_caps().live_port_change && names_unique(audio_in_ports)
                && names_unique(audio_out_ports) ==> (r is Ok || r matches Err(ChangeAudioPortConfigError::Backend(_))),
            r is Err && !(r matches Err(ChangeAudioPortConfigError::Backend(_))) ==> *final(self) == *old(self),
            r is Err ==> final(self).info() == old(self).info() && final(self).log() == old(self).log(),
            r is Ok ==> {
                let new_info = with_ports(old(self).info(), names_view(audio_in_ports), names_view(audio_out_ports));
                &&& final(self).info() == new_info
                &&& final(self).log() == old(self).log().push(Callback::StreamChanged(new_info))
            },
    {
        if self.state != StreamState::Running {
            return Err(ChangeAudioPortConfigError::StreamStopped);
        }
        if !self.caps.live_port_change {
            return Err(ChangeAudioPortConfigError::NotSupportedByBackend);
        }
        match &audio_in_ports {
            Some(p) => match check_unique_names(p) {
                Ok(()) => {},
                Err(name) => {
                    return Err(ChangeAudioPortConfigError::PortNotUnique(name));
                },
            },
            None => {},
        }
        match &audio_out_ports {
            Some(p) => match check_unique_names(p) {
                Ok(()) => {},
                Err(name) => {
                    return Err(ChangeAudioPortConfigError::PortNotUnique(name));
                },
            },
            None => {},
        }
        let outcome = match &mut self.client {
            Some(c) => c.set_audio_ports(audio_in_ports.as_ref(), audio_out_ports.as_ref()),
            None => {
                return Err(ChangeAudioPortConfigError::StreamStopped);
            },
        };
        self.commit_audio_port_config(outcome, audio_in_ports, audio_out_ports)
    }

    /// Applies the backend's answer to a valid port change: on success the
    /// new ports take effect and the process handler is told of them; on
    /// refusal nothing changes and the backend's error is returned.
    pub fn commit_audio_port_config(
        &mut self,
        outcome: Result<(), BackendError>,
        audio_in_ports: Option<Vec<String>>,
        audio_out_ports: Option<Vec<String>>,
    ) -> (r: Result<(), ChangeAudioPortConfigError>)
        requires
            old(self).wf(),
            old(self).running(),
            names_unique(audio_in_ports),
            names_unique(audio_out_ports),
        ensures
            final(self).wf(),
            final(self).backend_caps() == old(self).backend_caps(),
            final(self).behavior() == old(self).behavior(),
            final(self).state() == old(self).state(),
            final(self).holds_client() == old(self).holds_client(),
            match outcome {
                Ok(()) => {
                    let new_info = with_ports(old(self).info(), names_view(audio_in_ports), names_view(audio_out_ports));
                    &&& r is Ok
                    &&& final(self).info() == new_info
                    &&& final(self).log() == old(self).log().push(Callback::StreamChanged(new_info))
                },
                Err(e) => {
                    &&& r == Err::<(), _>(ChangeAudioPortConfigError::Backend(e))
                    &&& *final(self) == *old(self)
                },
            },
    {
        match outcome {
            Ok(()) => {},
            Err(e) => {
                return Err(ChangeAudioPortConfigError::Backend(e));
            },
        }
        let ghost new_info = with_ports(self.stream_info@, names_view(audio_in_ports), names_view(audio_out_ports));
        match audio_in_ports {
            Some(p) => {
                self.stream_info.audio_in_ports = p;
            },
            None => {},
        }
        match audio_out_ports {
            Some(p) => {
                self.stream_info.audio_out_ports = p;
            },
            None => {},
        }
        assert(self.stream_info@ == new_info);
        self.process_handler.stream_changed(&self.stream_info);
        let ghost c = Callback::StreamChanged(new_info);
        proof {
            lemma_push_ordered(self.log@, c);
            self.log@ = self.log@.push(c);
        }
        Ok(())
    }

    /// Changes the buffer size while the stream runs. A size the backend
    /// accepts is handed to the backend client; on success the process
    /// handler is told of the new configuration before any tick uses it. On
    /// failure the configuration and the callbacks are left as they were.
    pub fn change_audio_buffer_size_config(&mut self, config: AudioBufferSizeConfig) -> (r: Result<
        (),
        ChangeAudioBufferSizeError,
    >)
        requires
            old(self).wf(),
        ensures
            final(self).wf(),
            final(self).backend_caps() == old(self).backend_caps(),
            final(self).behavior() == old(self).behavior(),
            final(self).state() == old(self).state(),
            final(self).holds_client() == old(self).holds_client(),
            !old(self).running() ==> r == Err::<(), _>(ChangeAudioBufferSizeError::StreamStopped),
            old(self).running() && !old(self).backend_caps().live_buffer_size_change ==> r == Err::<(), _>(
                ChangeAudioBufferSizeError::NotSupportedByBackend,
            ),
            old(self).running() && old(self).backend_caps().live_buffer_size_change ==> match requested_buffer_size(old(self).backend_caps(), config) {
                Some(n) => r is Ok || r matches Err(ChangeAudioBufferSizeError::Backend(_)),
                None => config matches AudioBufferSizeConfig::Fixed(n) && r == Err::<(), _>(ChangeAudioBufferSizeError::OutOfRange(n)),
            },
            r is Err && !(r matches Err(ChangeAudioBufferSizeError::Backend(_))) ==> *final(self) == *old(self),
            r is Err ==> final(self).info() == old(self).info() && final(self).log() == old(self).log(),
            r is Ok ==> {
                let new_info = StreamInfoView {
                    buffer_size: requested_buffer_size(old(self).backend_caps(), config)->0,
                    ..old(self).info()
                };
                &&& final(self).info() == new_info
                &&& final(self).log() == old(self).log().push(Callback::StreamChanged(new_info))
            },
    {
        if self.state != StreamState::Running {
            return Err(ChangeAudioBufferSizeError::StreamStopped);
        }
        if !self.caps.live_buffer_size_change {
            return Err(ChangeAudioBufferSizeError::NotSupportedByBackend);
        }
        let n = match config {
            AudioBufferSizeConfig::Fixed(n) => {
                if n < self.caps.min_buffer_size || n > self.caps.max_buffer_size {
                    return Err(ChangeAudioBufferSizeError::OutOfRange(n));
                }
                n
            },
            AudioBufferSizeConfig::BackendDefault => self.caps.default_buffer_size,
        };
        let outcome = match &mut self.client {
            Some(c) => c.set_buffer_size(n),
            None => {
                return Err(ChangeAudioBufferSizeError::StreamStopped);
            },
        };
        self.commit_audio_buffer_size(outcome, n)
    }

    /// Applies the backend's answer to a buffer size change: on success the
    /// new size takes effect and the process handler is told of it; on
    /// refusal nothing changes and the backend's error is returned.
    pub fn commit_audio_buffer_size(&mut self, outcome: Result<(), BackendError>, frames: u32) -> (r: Result<
        (),
        ChangeAudioBufferSizeError,
    >)
        requires
            old(self).wf(),
            old(self).running(),
        ensures
            final(self).wf(),
            final(self).backend_caps() == old(self).backend_caps(),
            final(self).behavior() == old(self).behavior(),
            final(self).state() == old(self).state(),
            final(self).holds_client() == old(self).holds_client(),
            match outcome {
                Ok(()) => {
                    let new_info = StreamInfoView { buffer_size: frames, ..old(self).info() };
                    &&& r is Ok
                    &&& final(self).info() == new_info
                    &&& final(self).log() == old(self).log().push(Callback::StreamChanged(new_info))
                },
                Err(e) => {
                    &&& r == Err::<(), _>(ChangeAudioBufferSizeError::Backend(e))
                    &&& *final(self) == *old(self)
                },
            },
    {
        match outcome {
            Ok(()) => {},
            Err(e) => {
                return Err(ChangeAudioBufferSizeError::Backend(e));
            },
        }
        self.stream_info.buffer_size = frames;
        self.process_handler.stream_changed(&self.stream_info);
        let ghost c = Callback::StreamChanged(self.stream_info@);
        proof {
            lemma_push_ordered(self.log@, c);
            self.log@ = self.log@.push(c);
        }
        Ok(())
    }
}

} // verus!
