pub mod byte_buf;
pub mod clock;
pub mod digest;
pub mod entropy;
pub mod hex_codec;
pub mod kdf;
pub mod noise;
pub mod text;
pub mod fs_probe;
pub mod qr;
