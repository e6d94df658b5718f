//! Payloads of the audio channel. Opus: the de facto standard for
//! low-latency interactive audio.
use vstd::prelude::*;

verus! {

#[derive(Debug, Clone, Copy, PartialEq, Eq, Structural)]
pub enum AudioCodec {
    Opus,
}

#[derive(Debug, Clone, Copy, PartialEq, Eq, Structural)]
pub enum AudioFrameError {
    /// A sample rate Opus does not define; carries it.
    InvalidSampleRate(u32),
    /// Neither mono nor stereo; carries the channel count.
    InvalidChannels(u8),
    /// The data is empty.
    EmptyData,
}

#[derive(Debug, Clone)]
pub struct AudioFramePayload {
    pub codec: AudioCodec,
    pub sequence: u64,
    pub timestamp_unix_ms: u64,
    pub sample_rate_hz: u32,
    pub channels: u8,
    pub data: Vec<u8>,
}

/// The sample rates Opus defines: 8, 12, 16, 24 and 48 kHz.
pub open spec fn is_opus_sample_rate(hz: u32) -> bool {
    hz == 8000 || hz == 12000 || hz == 16000 || hz == 24000 || hz == 48000
}

/// Mono or stereo.
pub open spec fn is_valid_channel_count(channels: u8) -> bool {
    channels == 1 || channels == 2
}

/// Opus defines exactly five sample rates: 8000, 12000, 16000, 24000 and
/// 48000 Hz; 32 kHz and 44.1 kHz, for instance, are not among them.
pub proof fn lemma_opus_sample_rates(hz: u32)
    ensures
        is_opus_sample_rate(hz) <==> (hz == 8000 || hz == 12000 || hz == 16000 || hz == 24000 || hz == 48000),
        !is_opus_sample_rate(32000),
        !is_opus_sample_rate(44100),
{
}

impl AudioFramePayload {
    /// An audio frame, refused when the sample rate is not one Opus
    /// defines, then when it is neither mono nor stereo, then when the data
    /// is empty.
    pub fn new(
        codec: AudioCodec,
        sequence: u64,
        timestamp_unix_ms: u64,
        sample_rate_hz: u32,
        channels: u8,
        data: Vec<u8>,
    ) -> (r: Result<Self, AudioFrameError>)
        ensures
            !is_opus_sample_rate(sample_rate_hz) ==> (r matches Err(AudioFrameError::InvalidSampleRate(h))
                && h == sample_rate_hz),
            is_opus_sample_rate(sample_rate_hz) && !is_valid_channel_count(channels) ==> (r matches Err(
                AudioFrameError::InvalidChannels(c),
            ) && c == channels),
            is_opus_sample_rate(sample_rate_hz) && is_valid_channel_count(channels) && data@.len() == 0
                ==> r matches Err(AudioFrameError::EmptyData),
            is_opus_sample_rate(sample_rate_hz) && is_valid_channel_count(channels) && data@.len() > 0
                ==> (r matches Ok(f) && f.codec == codec && f.sequence == sequence && f.timestamp_unix_ms
                == timestamp_unix_ms && f.sample_rate_hz == sample_rate_hz && f.channels == channels
                && f.data@ == data@),
            r is Ok ==> (sample_rate_hz == 8000 || sample_rate_hz == 12000 || sample_rate_hz == 16000
                || sample_rate_hz == 24000 || sample_rate_hz == 48000),
    {
        if !(sample_rate_hz == 8000 || sample_rate_hz == 12000 || sample_rate_hz == 16000 || sample_rate_hz
            == 24000 || sample_rate_hz == 48000) {
            return Err(AudioFrameError::InvalidSampleRate(sample_rate_hz));
        }
        if channels == 0 || channels > 2 {
            return Err(AudioFrameError::InvalidChannels(channels));
        }
        if data.len() == 0 {
            return Err(AudioFrameError::EmptyData);
        }
        Ok(AudioFramePayload { codec, sequence, timestamp_unix_ms, sample_rate_hz, channels, data })
    }
}

} // verus!
