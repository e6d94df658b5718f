//! Payloads of `MsgType::VideoFrame`: encoded frames of the Android
//! runtime's framebuffer.
use vstd::prelude::*;

verus! {

#[derive(Debug, Clone, Copy, PartialEq, Eq, Structural)]
pub enum VideoCodec {
    /// Preferred: better compression.
    H265,
    /// The most compatible fallback.
    H264,
}

#[derive(Debug, Clone, Copy, PartialEq, Eq, Structural)]
pub enum VideoFrameError {
    /// A zero width or height.
    InvalidDimensions { width: u16, height: u16 },
    /// The data is empty.
    EmptyData,
}

#[derive(Debug, Clone)]
pub struct VideoFramePayload {
    pub codec: VideoCodec,
    /// Whether a decoder can start from this frame.
    pub is_keyframe: bool,
    /// Monotonically increasing, to detect lost or reordered frames.
    pub sequence: u64,
    pub timestamp_unix_ms: u64,
    pub width: u16,
    pub height: u16,
    /// The encoder's raw bitstream (Annex-B).
    pub data: Vec<u8>,
}

impl VideoFramePayload {
    /// A video frame, refused when a dimension is zero, then when the data
    /// is empty.
    pub fn new(
        codec: VideoCodec,
        is_keyframe: bool,
        sequence: u64,
        timestamp_unix_ms: u64,
        width: u16,
        height: u16,
        data: Vec<u8>,
    ) -> (r: Result<Self, VideoFrameError>)
        ensures
            (width == 0 || height == 0) ==> r == Err::<Self, VideoFrameError>(
                VideoFrameError::InvalidDimensions { width, height },
            ),
            width != 0 && height != 0 && data@.len() == 0 ==> r == Err::<Self, VideoFrameError>(
                VideoFrameError::EmptyData,
            ),
            width != 0 && height != 0 && data@.len() > 0 ==> (r matches Ok(f) && f.codec == codec
                && f.is_keyframe == is_keyframe && f.sequence == sequence && f.timestamp_unix_ms
                == timestamp_unix_ms && f.width == width && f.height == height && f.data@ == data@),
    {
        if width == 0 || height == 0 {
            return Err(VideoFrameError::InvalidDimensions { width, height });
        }
        if data.len() == 0 {
            return Err(VideoFrameError::EmptyData);
        }
        Ok(VideoFramePayload { codec, is_keyframe, sequence, timestamp_unix_ms, width, height, data })
    }
}

} // verus!
