//! Video codec negotiation with hardware fallback.
//!
//! From the capabilities the device reports: AV1 in hardware when it is the
//! preferred codec; otherwise HEVC (low-latency), then VP9, and as the last
//! resort AVC/H.264, which every decoder supports.
use vstd::prelude::*;
use crate::protocol::services::{CodecNegotiationRequestPayload, CodecNegotiationResponsePayload, VideoCodecType};

verus! {

/// Stateless negotiator.
pub struct CodecNegotiator;

/// The codec chosen for a device that decodes `supported` in hardware and
/// prefers `preferred`.
pub open spec fn negotiated_codec(supported: Seq<VideoCodecType>, preferred: VideoCodecType) -> VideoCodecType {
    if preferred == VideoCodecType::Av1 && supported.contains(VideoCodecType::Av1) {
        VideoCodecType::Av1
    } else if supported.contains(VideoCodecType::HevcH265) {
        VideoCodecType::HevcH265
    } else if supported.contains(VideoCodecType::Vp9ZeroLag) {
        VideoCodecType::Vp9ZeroLag
    } else {
        VideoCodecType::AvcH264
    }
}

/// The decoder MIME description announced for each codec.
pub open spec fn decoder_mime_of(c: VideoCodecType) -> Seq<char> {
    match c {
        VideoCodecType::Av1 => "video/av01 (c2.android.av1.decoder)"@,
        VideoCodecType::HevcH265 => "video/hevc (c2.qcom.hevc.decoder / MediaCodec NDK)"@,
        VideoCodecType::Vp9ZeroLag => "video/x-vnd.on2.vp9 (c2.android.vp9.decoder)"@,
        VideoCodecType::AvcH264 => "video/avc (c2.android.avc.decoder)"@,
    }
}

/// The reason announced for each choice.
pub open spec fn negotiation_reason_of(c: VideoCodecType) -> Seq<char> {
    match c {
        VideoCodecType::Av1 => "AV1 Hardware Decoder disponible en SoC"@,
        VideoCodecType::HevcH265 => "AV1 HW no soportado por SoC -> Conmutado transparentemente a H.265 (HEVC Low-Latency NDK)"@,
        VideoCodecType::Vp9ZeroLag => "Conmutado a VP9 Zero-Lag MediaCodec NDK"@,
        VideoCodecType::AvcH264 => "Fallback a AVC/H.264 Universal Hardware"@,
    }
}

/// Whether `v` lists `c`.
fn lists_codec(v: &Vec<VideoCodecType>, c: VideoCodecType) -> (r: bool)
    ensures
        r == v@.contains(c),
{
    let mut i: usize = 0;
    while i < v.len()
        invariant
            0 <= i <= v@.len(),
            forall|j: int| 0 <= j < i ==> v@[j] != c,
        decreases v@.len() - i,
    {
        if v[i] == c {
            assert(v@[i as int] == c);
            return true;
        }
        i = i + 1;
    }
    false
}

impl CodecNegotiator {
    /// Picks the best codec the device decodes in hardware, with the
    /// decoder description and the reason for the choice. Every choice but
    /// AV1 counts as a fallback.
    pub fn negotiate(req: &CodecNegotiationRequestPayload) -> (r: CodecNegotiationResponsePayload)
        ensures
            r.active_codec == negotiated_codec(req.supported_hardware_codecs@, req.preferred_codec),
            r.is_hardware_accelerated,
            r.decoder_mime@ == decoder_mime_of(r.active_codec),
            r.fallback_triggered == (r.active_codec != VideoCodecType::Av1),
            r.reason@ == negotiation_reason_of(r.active_codec),
    {
        let supports_av1_hw = lists_codec(&req.supported_hardware_codecs, VideoCodecType::Av1);
        let supports_hevc_hw = lists_codec(&req.supported_hardware_codecs, VideoCodecType::HevcH265);
        let supports_vp9_hw = lists_codec(&req.supported_hardware_codecs, VideoCodecType::Vp9ZeroLag);

        if req.preferred_codec == VideoCodecType::Av1 && supports_av1_hw {
            return CodecNegotiationResponsePayload {
                active_codec: VideoCodecType::Av1,
                is_hardware_accelerated: true,
                decoder_mime: String::from_str("video/av01 (c2.android.av1.decoder)"),
                fallback_triggered: false,
                reason: String::from_str("AV1 Hardware Decoder disponible en SoC"),
            };
        }
        if supports_hevc_hw {
            return CodecNegotiationResponsePayload {
                active_codec: VideoCodecType::HevcH265,
                is_hardware_accelerated: true,
                decoder_mime: String::from_str("video/hevc (c2.qcom.hevc.decoder / MediaCodec NDK)"),
                fallback_triggered: true,
                reason: String::from_str(
                    "AV1 HW no soportado por SoC -> Conmutado transparentemente a H.265 (HEVC Low-Latency NDK)",
                ),
            };
        }
        if supports_vp9_hw {
            return CodecNegotiationResponsePayload {
                active_codec: VideoCodecType::Vp9ZeroLag,
                is_hardware_accelerated: true,
                decoder_mime: String::from_str("video/x-vnd.on2.vp9 (c2.android.vp9.decoder)"),
                fallback_triggered: true,
                reason: String::from_str("Conmutado a VP9 Zero-Lag MediaCodec NDK"),
            };
        }
        CodecNegotiationResponsePayload {
            active_codec: VideoCodecType::AvcH264,
            is_hardware_accelerated: true,
            decoder_mime: String::from_str("video/avc (c2.android.avc.decoder)"),
            fallback_triggered: true,
            reason: String::from_str("Fallback a AVC/H.264 Universal Hardware"),
        }
    }
}

/// The negotiated codec is one the device decodes in hardware, except for
/// the universal AVC fallback; and AV1 is chosen exactly when it is both
/// preferred and supported.
pub proof fn lemma_negotiation_uses_hardware(supported: Seq<VideoCodecType>, preferred: VideoCodecType)
    ensures
        supported.contains(negotiated_codec(supported, preferred)) || negotiated_codec(supported, preferred)
            == VideoCodecType::AvcH264,
        (negotiated_codec(supported, preferred) == VideoCodecType::Av1) == (preferred
            == VideoCodecType::Av1 && supported.contains(VideoCodecType::Av1)),
{
}

/// The priority list: AV1 when it is preferred and decoded in hardware;
/// otherwise HEVC whenever the device decodes it; VP9 only when HEVC is not
/// decoded; AVC only when neither HEVC nor VP9 is.
pub proof fn lemma_negotiation_priority(supported: Seq<VideoCodecType>, preferred: VideoCodecType)
    ensures
        !(preferred == VideoCodecType::Av1 && supported.contains(VideoCodecType::Av1)) && supported.contains(
            VideoCodecType::HevcH265,
        ) ==> negotiated_codec(supported, preferred) == VideoCodecType::HevcH265,
        negotiated_codec(supported, preferred) == VideoCodecType::Vp9ZeroLag ==> !supported.contains(
            VideoCodecType::HevcH265,
        ) && supported.contains(VideoCodecType::Vp9ZeroLag),
        !(preferred == VideoCodecType::Av1 && supported.contains(VideoCodecType::Av1)) && !supported.contains(
            VideoCodecType::HevcH265,
        ) && supported.contains(VideoCodecType::Vp9ZeroLag) ==> negotiated_codec(supported, preferred)
            == VideoCodecType::Vp9ZeroLag,
        negotiated_codec(supported, preferred) == VideoCodecType::AvcH264 <==> !(preferred
            == VideoCodecType::Av1 && supported.contains(VideoCodecType::Av1)) && !supported.contains(
            VideoCodecType::HevcH265,
        ) && !supported.contains(VideoCodecType::Vp9ZeroLag),
{
}

} // verus!
