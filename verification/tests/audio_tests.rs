use session_server::audio::{
    admit_capture_read, create_format_msg, encode_channels, frame_geometry, target_sample_rate,
    AudioControl, FrameAdmission, SilenceFilter, AUDIO_DATA_SIZE_U8, MAX_AUDIO_ZERO_COUNT,
};
use session_server::connection::OutboundMessage;

#[test]
fn sample_rate_buckets_match_encoder_rates() {
    assert_eq!(target_sample_rate(8000), 8000);
    assert_eq!(target_sample_rate(11999), 8000);
    assert_eq!(target_sample_rate(12000), 12000);
    assert_eq!(target_sample_rate(16000), 16000);
    assert_eq!(target_sample_rate(22050), 16000);
    assert_eq!(target_sample_rate(44100), 24000);
    assert_eq!(target_sample_rate(48000), 48000);
    assert_eq!(target_sample_rate(192000), 48000);
}

#[test]
fn channel_choice_is_stereo_above_one() {
    assert_eq!(encode_channels(1), 1);
    assert_eq!(encode_channels(2), 2);
    assert_eq!(encode_channels(8), 2);
}

#[test]
fn frame_geometry_matches_ten_millisecond_frames() {
    assert_eq!(frame_geometry(48000, 2, 2), (480, 960, 960));
    assert_eq!(frame_geometry(44100, 1, 2), (441, 882, 441));
    assert_eq!(frame_geometry(8000, 1, 1), (80, 80, 80));
    assert_eq!(frame_geometry(48000, 6, 2), (480, 960, 2880));
}

#[test]
fn format_msg_carries_negotiated_parameters() {
    assert_eq!(
        create_format_msg(48000, 2),
        OutboundMessage::AudioFormat { sample_rate: 48000, channels: 2 }
    );
}

#[test]
fn capture_reads_admitted_by_exact_frame_length() {
    assert_eq!(AUDIO_DATA_SIZE_U8, 3840);
    assert_eq!(admit_capture_read(0), FrameAdmission::EncodeSilence);
    assert_eq!(admit_capture_read(AUDIO_DATA_SIZE_U8), FrameAdmission::Encode);
    assert_eq!(admit_capture_read(1), FrameAdmission::Skip);
    assert_eq!(admit_capture_read(AUDIO_DATA_SIZE_U8 - 1), FrameAdmission::Skip);
    assert_eq!(admit_capture_read(AUDIO_DATA_SIZE_U8 * 2), FrameAdmission::Skip);
}

#[test]
fn silence_filter_forwards_until_threshold() {
    let mut filter = SilenceFilter::new();
    for _ in 0..(MAX_AUDIO_ZERO_COUNT as usize + 1) {
        assert!(filter.step(true));
    }
    assert_eq!(filter.zero_count, MAX_AUDIO_ZERO_COUNT + 1);
    assert!(!filter.step(true));
    assert_eq!(filter.zero_count, MAX_AUDIO_ZERO_COUNT + 2);
    assert!(!filter.step(true));
    assert_eq!(filter.zero_count, MAX_AUDIO_ZERO_COUNT + 2);
}

#[test]
fn silence_filter_reopens_on_sound() {
    let mut filter = SilenceFilter::new();
    for _ in 0..(MAX_AUDIO_ZERO_COUNT as usize + 2) {
        filter.step(true);
    }
    assert!(!filter.step(true));
    assert!(filter.step(false));
    assert_eq!(filter.zero_count, 0);
    assert!(filter.step(true));
}

#[test]
fn voice_call_device_override_rules() {
    let mut control = AudioControl::new();
    assert_eq!(control.get_voice_call_input_device(), None);

    control.set_voice_call_input_device(Some("headset".to_string()), true);
    assert_eq!(control.get_voice_call_input_device(), Some("headset".to_string()));
    assert!(control.is_restarting());

    control.clear_restart();
    control.set_voice_call_input_device(Some("headset".to_string()), true);
    assert!(!control.is_restarting());

    control.set_voice_call_input_device(Some("speaker".to_string()), false);
    assert_eq!(control.get_voice_call_input_device(), Some("headset".to_string()));
    assert!(!control.is_restarting());

    control.set_voice_call_input_device(None, true);
    assert_eq!(control.get_voice_call_input_device(), None);
    assert!(control.is_restarting());
}

#[test]
fn audio_input_falls_back_to_configured_device() {
    let mut control = AudioControl::new();
    assert_eq!(control.get_audio_input("default-mic".to_string()), "default-mic");
    control.set_voice_call_input_device(Some("headset".to_string()), true);
    assert_eq!(control.get_audio_input("default-mic".to_string()), "headset");
}

#[test]
fn restart_request_is_idempotent() {
    let mut control = AudioControl::new();
    assert!(!control.is_restarting());
    control.restart();
    assert!(control.is_restarting());
    control.restart();
    assert!(control.is_restarting());
    control.clear_restart();
    assert!(!control.is_restarting());
}
