use vstd::prelude::*;
use crate::config::{AudioServerConfig, MidiServerConfig};
use crate::error::SpawnRtThreadError;

verus! {

/// Some identifier before position `j` equals the one at `j`.
pub open spec fn repeats_earlier(ids: Seq<Seq<char>>, j: int) -> bool {
    exists|i: int| 0 <= i < j && ids[i] == ids[j]
}

/// The first `n` identifiers are pairwise distinct.
pub open spec fn distinct_prefix(ids: Seq<Seq<char>>, n: int) -> bool {
    forall|a: int, b: int| 0 <= a < b < n ==> ids[a] != ids[b]
}

/// Position `j` holds the first identifier, scanning left to right, that
/// repeats an earlier one.
pub open spec fn first_repeat_at(ids: Seq<Seq<char>>, j: int) -> bool {
    0 <= j < ids.len() && repeats_earlier(ids, j) && distinct_prefix(ids, j)
}

/// The outcome of the duplicate check on a list of identifiers.
pub open spec fn duplicate_check_ok(ids: Seq<Seq<char>>, r: Result<(), SpawnRtThreadError>) -> bool {
    match r {
        Ok(()) => distinct_prefix(ids, ids.len() as int),
        Err(SpawnRtThreadError::DeviceIdNotUnique(s)) => exists|j: int|
            first_repeat_at(ids, j) && s@ == ids[j],
        Err(_) => false,
    }
}

fn id_at(audio_config: &AudioServerConfig, j: usize) -> (r: &String)
    requires
        j < audio_config.device_ids().len(),
    ensures
        r@ == audio_config.device_ids()[j as int],
{
    let n_in = audio_config.use_in_devices.len();
    if j < n_in {
        &audio_config.use_in_devices[j].id
    } else {
        &audio_config.use_out_devices[j - n_in].id
    }
}

/// Checks that no device identifier is used twice over the audio inputs and
/// outputs. The scan runs left to right, inputs before outputs, and reports
/// the first identifier that repeats an earlier one.
pub fn check_duplicate_ids(
    audio_config: &AudioServerConfig,
    midi_config: Option<&MidiServerConfig>,
) -> (r: Result<(), SpawnRtThreadError>)
    requires
        audio_config.use_in_devices@.len() + audio_config.use_out_devices@.len() <= usize::MAX,
    ensures
        duplicate_check_ok(audio_config.device_ids(), r),
{
    let ghost ids = audio_config.device_ids();
    let n = audio_config.use_in_devices.len() + audio_config.use_out_devices.len();
    assert(ids.len() == n);
    let mut j: usize = 0;
    while j < n
        invariant
            ids == audio_config.device_ids(),
            ids.len() == n,
            j <= n,
            distinct_prefix(ids, j as int),
        decreases n - j,
    {
        let cur = id_at(audio_config, j);
        let mut i: usize = 0;
        while i < j
            invariant
                ids == audio_config.device_ids(),
                ids.len() == n,
                i <= j < n,
                cur@ == ids[j as int],
                distinct_prefix(ids, j as int),
                forall|a: int| 0 <= a < i ==> ids[a] != ids[j as int],
            decreases j - i,
        {
            let prev = id_at(audio_config, i);
            if *prev == *cur {
                assert(first_repeat_at(ids, j as int));
                return Err(SpawnRtThreadError::DeviceIdNotUnique(cur.clone()));
            }
            i = i + 1;
        }
        j = j + 1;
    }
    Ok(())
}

} // verus!
