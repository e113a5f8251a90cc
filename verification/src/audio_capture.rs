//! Choosing the input device and the form in which it delivers audio, and
//! keeping track of a press-to-talk recording.

use vstd::prelude::*;
use vstd::string::*;
use crate::text::str_eq;
use crate::types::{AudioDevice, RecordingState};
use crate::vad::VAD_SAMPLE_RATE;

verus! {

/// Why audio cannot be captured.
#[derive(Debug)]
pub enum DeviceError {
    /// No device has the name asked for, and there is no default device.
    NotFound(String),
    /// No device was named, and there is no default device.
    NoDefault,
    /// The device delivers samples in a form other than 32-bit floating
    /// point or 16-bit signed integers.
    UnsupportedFormat,
    /// A recording is under way already.
    AlreadyRecording,
    /// No recording is under way.
    NotRecording,
    /// The recording has no file.
    NoFile,
}

/// The device to capture from.
#[derive(Debug, Clone, Copy, PartialEq, Eq, Structural)]
pub enum DeviceChoice {
    /// The device at this place in the list of devices.
    Listed(usize),
    /// The default input device.
    Default,
}

/// The form in which a device delivers samples.
#[derive(Debug, Clone, Copy, PartialEq, Eq, Structural)]
pub enum SampleFormat {
    /// 32-bit floating point.
    F32,
    /// 16-bit signed integers.
    I16,
    /// Anything else.
    Other,
}

/// Sample rates that a device can deliver in one of its configurations.
#[derive(Debug, Clone, Copy)]
pub struct RateRange {
    /// Lowest rate, in samples per second.
    pub min: u32,
    /// Highest rate, in samples per second.
    pub max: u32,
}

/// The first place in `names` at which `name` stands.
pub open spec fn first_named(names: Seq<String>, name: Seq<char>) -> Option<int>
    decreases names.len(),
{
    if names.len() == 0 {
        None
    } else if names[0]@ == name {
        Some(0)
    } else {
        match first_named(names.drop_first(), name) {
            Some(i) => Some(i + 1),
            None => None,
        }
    }
}

/// The first place in `names` at which `name` stands.
pub fn find_named(names: &Vec<String>, name: &str) -> (r: Option<usize>)
    ensures
        match r {
            Some(i) => first_named(names@, name@) == Some(i as int) && i < names@.len() && names@[i as int]@
                == name@,
            None => first_named(names@, name@) is None,
        },
{
    let mut i: usize = 0;
    assert(names@.skip(0) =~= names@);
    while i < names.len()
        invariant
            i <= names@.len(),
            first_named(names@, name@) == match first_named(names@.skip(i as int), name@) {
                Some(j) => Some(j + i),
                None => None,
            },
        decreases names@.len() - i,
    {
        proof {
            assert(names@.skip(i as int).drop_first() =~= names@.skip(i + 1));
            assert(names@.skip(i as int)[0] == names@[i as int]);
        }
        if str_eq(names[i].as_str(), name) {
            return Some(i);
        }
        i = i + 1;
    }
    assert(names@.skip(i as int).len() == 0);
    None
}

/// Chooses the device to capture from: the first device with exactly the
/// name asked for; the default device where no name is asked for or no
/// device has the name; and none where there is no default device either.
pub fn select_device(names: &Vec<String>, wanted: Option<&str>, has_default: bool) -> (r: Result<
    DeviceChoice,
    DeviceError,
>)
    ensures
        match wanted {
            Some(name) => match first_named(names@, name@) {
                Some(i) => r == Ok::<DeviceChoice, DeviceError>(DeviceChoice::Listed(i as usize)),
                None => if has_default {
                    r == Ok::<DeviceChoice, DeviceError>(DeviceChoice::Default)
                } else {
                    r matches Err(DeviceError::NotFound(n)) && n@ == name@
                },
            },
            None => if has_default {
                r == Ok::<DeviceChoice, DeviceError>(DeviceChoice::Default)
            } else {
                r matches Err(DeviceError::NoDefault)
            },
        },
{
    match wanted {
        Some(name) => match find_named(names, name) {
            Some(i) => Ok(DeviceChoice::Listed(i)),
            None => if has_default {
                Ok(DeviceChoice::Default)
            } else {
                Err(DeviceError::NotFound(String::from_str(name)))
            },
        },
        None => if has_default {
            Ok(DeviceChoice::Default)
        } else {
            Err(DeviceError::NoDefault)
        },
    }
}

/// Whether a range of rates holds the rate that the pipeline works at.
pub open spec fn covers_target(range: RateRange) -> bool {
    range.min <= VAD_SAMPLE_RATE <= range.max
}

/// The first configuration that delivers the rate of the pipeline.
pub open spec fn first_native(ranges: Seq<RateRange>) -> Option<int>
    decreases ranges.len(),
{
    if ranges.len() == 0 {
        None
    } else if covers_target(ranges[0]) {
        Some(0)
    } else {
        match first_native(ranges.drop_first()) {
            Some(i) => Some(i + 1),
            None => None,
        }
    }
}

/// Looks for a configuration in which the device delivers the rate of the
/// pipeline itself, so that nothing has to be resampled: the first such
/// configuration in the order given. Where there is none the device's
/// default configuration is to be used, with resampling.
pub fn find_best_input_config(ranges: &Vec<RateRange>) -> (r: Option<usize>)
    ensures
        match r {
            Some(i) => first_native(ranges@) == Some(i as int) && i < ranges@.len() && covers_target(
                ranges@[i as int],
            ),
            None => first_native(ranges@) is None && forall|k: int|
                0 <= k < ranges@.len() ==> !covers_target(#[trigger] ranges@[k]),
        },
{
    let mut i: usize = 0;
    assert(ranges@.skip(0) =~= ranges@);
    while i < ranges.len()
        invariant
            i <= ranges@.len(),
            forall|k: int| 0 <= k < i ==> !covers_target(#[trigger] ranges@[k]),
            first_native(ranges@) == match first_native(ranges@.skip(i as int)) {
                Some(j) => Some(j + i),
                None => None,
            },
        decreases ranges@.len() - i,
    {
        proof {
            assert(ranges@.skip(i as int).drop_first() =~= ranges@.skip(i + 1));
            assert(ranges@.skip(i as int)[0] == ranges@[i as int]);
        }
        if ranges[i].min <= VAD_SAMPLE_RATE && VAD_SAMPLE_RATE <= ranges[i].max {
            return Some(i);
        }
        i = i + 1;
    }
    assert(ranges@.skip(i as int).len() == 0);
    None
}

/// Whether audio at the given rate has to be resampled for the pipeline.
pub fn needs_resampling(native_rate: u32) -> (r: bool)
    ensures
        r == (native_rate != VAD_SAMPLE_RATE),
{
    native_rate != VAD_SAMPLE_RATE
}

/// Whether the pipeline can take samples in the given form.
pub fn check_format(format: SampleFormat) -> (r: Result<(), DeviceError>)
    ensures
        r is Ok <==> (format is F32 || format is I16),
        r is Err ==> r matches Err(DeviceError::UnsupportedFormat),
{
    match format {
        SampleFormat::F32 | SampleFormat::I16 => Ok(()),
        SampleFormat::Other => Err(DeviceError::UnsupportedFormat),
    }
}

/// Number of mono samples that `samples` interleaved samples of
/// `channels` channels give: one for each group of `channels` samples,
/// and one more for a group that is cut short.
pub open spec fn mono_len(samples: nat, channels: nat) -> nat {
    if channels == 0 {
        0
    } else {
        ((samples + channels - 1) / channels as int) as nat
    }
}

/// Number of mono samples that a block of interleaved samples gives.
pub fn mono_samples(samples: usize, channels: usize) -> (r: usize)
    requires
        channels > 0,
    ensures
        r == mono_len(samples as nat, channels as nat),
{
    let whole = samples / channels;
    if samples % channels == 0 {
        assert(whole == (samples + channels - 1) / (channels as int)) by (nonlinear_arith)
            requires
                whole == samples / channels,
                samples % channels == 0,
                channels > 0,
        ;
        whole
    } else {
        assert(whole + 1 == (samples + channels - 1) / (channels as int)) by (nonlinear_arith)
            requires
                whole == samples / channels,
                samples % channels != 0,
                channels > 0,
        ;
        assert(whole < samples) by (nonlinear_arith)
            requires
                whole == samples / channels,
                samples % channels != 0,
                channels > 0,
        ;
        whole + 1
    }
}

/// The devices as they are shown: each with its name and with whether it
/// is the default device.
pub fn get_audio_devices(names: Vec<String>, default_name: Option<&str>) -> (devices: Vec<AudioDevice>)
    ensures
        devices@.len() == names@.len(),
        forall|i: int|
            0 <= i < names@.len() ==> (#[trigger] devices@[i]).name@ == names@[i]@ && devices@[i].is_default
                == (default_name matches Some(d) && d@ == names@[i]@),
{
    let mut devices: Vec<AudioDevice> = Vec::new();
    let mut i: usize = 0;
    while i < names.len()
        invariant
            i <= names@.len(),
            devices@.len() == i,
            forall|k: int|
                0 <= k < i ==> (#[trigger] devices@[k]).name@ == names@[k]@ && devices@[k].is_default
                    == (default_name matches Some(d) && d@ == names@[k]@),
        decreases names@.len() - i,
    {
        let is_default = match default_name {
            Some(d) => str_eq(d, names[i].as_str()),
            None => false,
        };
        devices.push(AudioDevice { name: names[i].clone(), is_default });
        i = i + 1;
    }
    devices
}

/// Notes that a recording is asked for. A second recording is refused
/// while one is under way.
pub fn start_recording(state: &RecordingState) -> (r: Result<(), DeviceError>)
    ensures
        r is Ok <==> !state.is_recording,
        r is Err ==> r matches Err(DeviceError::AlreadyRecording),
{
    if state.is_recording {
        Err(DeviceError::AlreadyRecording)
    } else {
        Ok(())
    }
}

/// Notes that the recording runs, into the file named.
pub fn recording_started(state: &mut RecordingState, file: String)
    ensures
        final(state).is_recording,
        final(state).current_file == Some(file),
        final(state).device_name == old(state).device_name,
{
    state.is_recording = true;
    state.current_file = Some(file);
}

/// Ends the recording and gives the file that was recorded into. Without
/// a recording there is nothing to end; a recording without a file is
/// ended all the same.
pub fn stop_recording(state: &mut RecordingState) -> (r: Result<String, DeviceError>)
    ensures
        !final(state).is_recording,
        final(state).device_name == old(state).device_name,
        match r {
            Ok(file) => {
                &&& old(state).is_recording
                &&& old(state).current_file == Some(file)
                &&& final(state).current_file is None
            },
            Err(DeviceError::NotRecording) => !old(state).is_recording && final(state).current_file
                == old(state).current_file,
            Err(DeviceError::NoFile) => old(state).is_recording && old(state).current_file is None
                && final(state).current_file is None,
            Err(_) => false,
        },
{
    if !state.is_recording {
        return Err(DeviceError::NotRecording);
    }
    state.is_recording = false;
    match state.current_file.take() {
        Some(file) => Ok(file),
        None => Err(DeviceError::NoFile),
    }
}

} // verus!
