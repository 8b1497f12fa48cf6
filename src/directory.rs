use vstd::prelude::*;
use vstd::string::*;
use crate::stream::{AudioServer, BackendBinding};

verus! {

/// A directory entry for one audio server.
pub struct AudioServerInfo {
    pub name: String,
    pub version: Option<String>,
    /// The server answered the latest probe.
    pub available: bool,
    /// The devices it offered at the latest probe.
    pub devices: Vec<String>,
}

impl AudioServerInfo {
    /// A server not probed yet: unavailable, with no devices.
    pub fn new(name: String, version: Option<String>) -> (r: AudioServerInfo)
        ensures
            r.name == name,
            r.version == version,
            !r.available,
            r.devices@.len() == 0,
    {
        AudioServerInfo { name, version, available: false, devices: Vec::new() }
    }

    /// Records the outcome of a probe: the devices found, or unavailable
    /// with no devices when the server could not be reached.
    pub fn apply_probe(&mut self, found: Option<Vec<String>>)
        ensures
            final(self).name == old(self).name,
            final(self).version == old(self).version,
            final(self).available == found is Some,
            final(self).devices@ == match found {
                Some(d) => d@,
                None => Seq::<String>::empty(),
            },
    {
        match found {
            Some(d) => {
                self.available = true;
                self.devices = d;
            },
            None => {
                self.available = false;
                self.devices = Vec::new();
            },
        }
    }
}

fn clone_version(v: &Option<String>) -> (r: Option<String>)
    ensures
        r == *v,
{
    match v {
        Some(s) => Some(s.clone()),
        None => None,
    }
}

/// The directory of compiled-in audio servers, one entry per backend.
pub struct DeviceInfo {
    audio_servers_info: Vec<AudioServerInfo>,
}

impl DeviceInfo {
    /// The entries, in backend order.
    pub closed spec fn servers(&self) -> Seq<AudioServerInfo> {
        self.audio_servers_info@
    }

    /// The directory holds exactly one entry per compiled-in backend.
    #[verifier::type_invariant]
    closed spec fn wf(&self) -> bool {
        &&& self.audio_servers_info@.len() == 1
        &&& self.audio_servers_info@[0].name@ == "Jack"@
    }

    /// A directory holding one entry per backend, each probed once.
    pub fn new<B: BackendBinding>(binding: &mut B) -> (r: DeviceInfo)
        ensures
            r.servers().len() == 1,
            r.servers()[0].name@ == "Jack"@,
            r.servers()[0].version is None,
            !r.servers()[0].available ==> r.servers()[0].devices@.len() == 0,
    {
        let mut new_self = DeviceInfo {
            audio_servers_info: vec![
                AudioServerInfo::new(<String as StringExecFns>::from_str("Jack"), None),
            ],
        };
        new_self.refresh_audio_servers(binding);
        new_self
    }

    /// Probes every server again and records what each offers now.
    pub fn refresh_audio_servers<B: BackendBinding>(&mut self, binding: &mut B)
        ensures
            final(self).servers().len() == 1,
            final(self).servers()[0].name@ == "Jack"@,
            final(self).servers()[0].name == old(self).servers()[0].name,
            final(self).servers()[0].version == old(self).servers()[0].version,
            !final(self).servers()[0].available ==> final(self).servers()[0].devices@.len() == 0,
    {
        proof {
            use_type_invariant(&*self);
        }
        let found = binding.probe_devices(AudioServer::Jack);
        let old_entry = &self.audio_servers_info[0];
        let mut jack = AudioServerInfo::new(old_entry.name.clone(), clone_version(&old_entry.version));
        jack.apply_probe(found);
        self.audio_servers_info = vec![jack];
    }

    /// The directory entries, one per backend.
    pub fn audio_server_info(&self) -> (r: &[AudioServerInfo])
        ensures
            r@ == self.servers(),
            r@.len() == 1,
            r@[0].name@ == "Jack"@,
    {
        proof {
            use_type_invariant(self);
        }
        self.audio_servers_info.as_slice()
    }
}

} // verus!
