use echo_core::audio_capture::{
    check_format, find_best_input_config, find_named, get_audio_devices, mono_samples,
    needs_resampling, recording_started, select_device, start_recording, stop_recording,
    DeviceChoice, DeviceError, RateRange, SampleFormat,
};
use echo_core::types::RecordingState;

fn names() -> Vec<String> {
    vec!["Built-in Microphone".to_string(), "USB Audio".to_string(), "USB Audio".to_string()]
}

#[test]
fn device_is_chosen_by_exact_name_or_default() {
    assert_eq!(select_device(&names(), Some("USB Audio"), true).unwrap(), DeviceChoice::Listed(1));
    assert_eq!(
        select_device(&names(), Some("Built-in Microphone"), false).unwrap(),
        DeviceChoice::Listed(0)
    );
    assert_eq!(select_device(&names(), Some("usb audio"), true).unwrap(), DeviceChoice::Default);
    assert_eq!(select_device(&names(), None, true).unwrap(), DeviceChoice::Default);
    match select_device(&names(), Some("Gone"), false) {
        Err(DeviceError::NotFound(n)) => assert_eq!(n, "Gone"),
        other => panic!("{:?}", other),
    }
    assert!(matches!(select_device(&names(), None, false), Err(DeviceError::NoDefault)));
    assert!(matches!(select_device(&Vec::new(), None, false), Err(DeviceError::NoDefault)));
    assert_eq!(find_named(&names(), "USB Audio"), Some(1));
    assert_eq!(find_named(&names(), "USB"), None);
}

#[test]
fn native_rate_is_preferred() {
    let ranges = vec![
        RateRange { min: 44100, max: 48000 },
        RateRange { min: 8000, max: 16000 },
        RateRange { min: 16000, max: 96000 },
    ];
    assert_eq!(find_best_input_config(&ranges), Some(1));
    assert_eq!(find_best_input_config(&vec![RateRange { min: 16000, max: 16000 }]), Some(0));
    assert_eq!(find_best_input_config(&vec![RateRange { min: 16001, max: 48000 }]), None);
    assert_eq!(find_best_input_config(&vec![RateRange { min: 8000, max: 15999 }]), None);
    assert_eq!(find_best_input_config(&Vec::new()), None);
    assert!(!needs_resampling(16000));
    assert!(needs_resampling(48000));
    assert!(needs_resampling(8000));
}

#[test]
fn only_two_sample_formats_are_taken() {
    assert!(check_format(SampleFormat::F32).is_ok());
    assert!(check_format(SampleFormat::I16).is_ok());
    assert!(matches!(check_format(SampleFormat::Other), Err(DeviceError::UnsupportedFormat)));
}

#[test]
fn mono_has_one_sample_for_each_group_of_channels() {
    assert_eq!(mono_samples(0, 2), 0);
    assert_eq!(mono_samples(960, 2), 480);
    assert_eq!(mono_samples(961, 2), 481);
    assert_eq!(mono_samples(512, 1), 512);
    assert_eq!(mono_samples(7, 8), 1);
    assert_eq!(mono_samples(usize::MAX, 1), usize::MAX);
    assert_eq!(mono_samples(usize::MAX, 2), usize::MAX / 2 + 1);
}

#[test]
fn devices_are_listed_with_the_default_marked() {
    let devices = get_audio_devices(names(), Some("USB Audio"));
    assert_eq!(devices.len(), 3);
    assert_eq!(devices[0].name, "Built-in Microphone");
    assert!(!devices[0].is_default);
    assert!(devices[1].is_default && devices[2].is_default);
    assert!(get_audio_devices(names(), None).iter().all(|d| !d.is_default));
    assert!(get_audio_devices(Vec::new(), Some("x")).is_empty());
}

#[test]
fn one_recording_at_a_time() {
    let mut state = RecordingState::default();
    assert!(matches!(stop_recording(&mut state), Err(DeviceError::NotRecording)));
    assert!(start_recording(&state).is_ok());
    recording_started(&mut state, "/cache/echo/r.wav".to_string());
    assert!(state.is_recording);
    assert!(matches!(start_recording(&state), Err(DeviceError::AlreadyRecording)));
    assert_eq!(stop_recording(&mut state).unwrap(), "/cache/echo/r.wav");
    assert!(!state.is_recording);
    assert!(state.current_file.is_none());
    assert!(matches!(stop_recording(&mut state), Err(DeviceError::NotRecording)));
    state.is_recording = true;
    assert!(matches!(stop_recording(&mut state), Err(DeviceError::NoFile)));
    assert!(!state.is_recording);
}
