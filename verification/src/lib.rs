pub mod crypto;
pub mod ext;
pub mod orchestration;
pub mod platform;
pub mod protocol;
pub mod stream;
pub mod text;
