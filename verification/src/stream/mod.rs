//! Payload types of the media channels, with their basic validation. They
//! are the data contract, not the media pipeline: no encoding or decoding
//! happens here.
pub mod audio;
pub mod video;
