pub mod anti_tamper;
pub mod handshake;
pub mod keys;
pub mod pairing;
pub mod pqc;
pub mod rekey;
pub mod wire;
