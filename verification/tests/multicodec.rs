use vault::orchestration::multicodec::CodecNegotiator;
use vault::protocol::services::{CodecNegotiationRequestPayload, VideoCodecType};

#[test]
fn test_negotiate_av1_when_supported() {
    let req = CodecNegotiationRequestPayload {
        supported_hardware_codecs: vec![VideoCodecType::Av1, VideoCodecType::HevcH265],
        preferred_codec: VideoCodecType::Av1,
        soc_model: "Snapdragon 8 Gen 3".to_string(),
        mediacodec_ndk_acceleration: true,
    };

    let res = CodecNegotiator::negotiate(&req);
    assert_eq!(res.active_codec, VideoCodecType::Av1);
    assert!(!res.fallback_triggered);
    assert!(res.is_hardware_accelerated);
}

#[test]
fn test_fallback_to_hevc_when_av1_lacks_hw() {
    let req = CodecNegotiationRequestPayload {
        supported_hardware_codecs: vec![VideoCodecType::HevcH265, VideoCodecType::AvcH264],
        preferred_codec: VideoCodecType::Av1,
        soc_model: "Snapdragon 888".to_string(),
        mediacodec_ndk_acceleration: true,
    };

    let res = CodecNegotiator::negotiate(&req);
    assert_eq!(res.active_codec, VideoCodecType::HevcH265);
    assert!(res.fallback_triggered);
    assert!(res.reason.contains("H.265"));
}

#[test]
fn av1_supported_but_not_preferred_falls_back() {
    let req = CodecNegotiationRequestPayload {
        supported_hardware_codecs: vec![VideoCodecType::Av1, VideoCodecType::Vp9ZeroLag],
        preferred_codec: VideoCodecType::HevcH265,
        soc_model: "Tensor G3".to_string(),
        mediacodec_ndk_acceleration: true,
    };
    let res = CodecNegotiator::negotiate(&req);
    assert_eq!(res.active_codec, VideoCodecType::Vp9ZeroLag);
    assert_eq!(res.decoder_mime, "video/x-vnd.on2.vp9 (c2.android.vp9.decoder)");
    assert_eq!(res.reason, "Conmutado a VP9 Zero-Lag MediaCodec NDK");
}

#[test]
fn no_hardware_codec_falls_back_to_avc() {
    let req = CodecNegotiationRequestPayload {
        supported_hardware_codecs: vec![],
        preferred_codec: VideoCodecType::Av1,
        soc_model: "genérico".to_string(),
        mediacodec_ndk_acceleration: false,
    };
    let res = CodecNegotiator::negotiate(&req);
    assert_eq!(res.active_codec, VideoCodecType::AvcH264);
    assert!(res.fallback_triggered);
    assert_eq!(res.decoder_mime, "video/avc (c2.android.avc.decoder)");
    assert_eq!(res.reason, "Fallback a AVC/H.264 Universal Hardware");
}
