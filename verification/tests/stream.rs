use vault::stream::audio::{AudioCodec, AudioFrameError, AudioFramePayload};
use vault::stream::video::{VideoCodec, VideoFrameError, VideoFramePayload};

#[test]
fn accepts_standard_opus_sample_rates() {
    for rate in [8000, 12000, 16000, 24000, 48000] {
        assert!(AudioFramePayload::new(AudioCodec::Opus, 0, 0, rate, 2, vec![1]).is_ok());
    }
}

#[test]
fn rejects_non_opus_sample_rate() {
    let result = AudioFramePayload::new(AudioCodec::Opus, 0, 0, 44100, 2, vec![1]);
    assert!(matches!(result, Err(AudioFrameError::InvalidSampleRate(44100))));
}

#[test]
fn rejects_invalid_channel_count() {
    assert!(AudioFramePayload::new(AudioCodec::Opus, 0, 0, 48000, 0, vec![1]).is_err());
    assert!(AudioFramePayload::new(AudioCodec::Opus, 0, 0, 48000, 3, vec![1]).is_err());
}

#[test]
fn audio_errors_come_in_order() {
    assert!(matches!(AudioFramePayload::new(AudioCodec::Opus, 0, 0, 1, 9, vec![]), Err(AudioFrameError::InvalidSampleRate(1))));
    assert!(matches!(AudioFramePayload::new(AudioCodec::Opus, 0, 0, 8000, 9, vec![]), Err(AudioFrameError::InvalidChannels(9))));
    assert!(matches!(AudioFramePayload::new(AudioCodec::Opus, 0, 0, 8000, 1, vec![]), Err(AudioFrameError::EmptyData)));
    let frame = AudioFramePayload::new(AudioCodec::Opus, 5, 1000, 48000, 2, vec![0xAA, 0xBB]).unwrap();
    assert_eq!((frame.sequence, frame.timestamp_unix_ms, frame.sample_rate_hz, frame.channels), (5, 1000, 48000, 2));
    assert_eq!(frame.data, vec![0xAA, 0xBB]);
}

#[test]
fn rejects_zero_dimensions() {
    let result = VideoFramePayload::new(VideoCodec::H265, true, 0, 0, 0, 720, vec![1, 2, 3]);
    assert!(matches!(result, Err(VideoFrameError::InvalidDimensions { .. })));
}

#[test]
fn rejects_empty_data() {
    let result = VideoFramePayload::new(VideoCodec::H265, true, 0, 0, 1280, 720, vec![]);
    assert!(matches!(result, Err(VideoFrameError::EmptyData)));
}

#[test]
fn video_frame_keeps_its_fields() {
    let frame = VideoFramePayload::new(VideoCodec::H264, false, 42, 1_700_000_000_000, 1280, 720, vec![0xDE, 0xAD]).unwrap();
    assert_eq!(frame.codec, VideoCodec::H264);
    assert!(!frame.is_keyframe);
    assert_eq!((frame.sequence, frame.width, frame.height), (42, 1280, 720));
    assert_eq!(
        VideoFramePayload::new(VideoCodec::H265, true, 0, 0, 640, 0, vec![]).unwrap_err(),
        VideoFrameError::InvalidDimensions { width: 640, height: 0 }
    );
}
