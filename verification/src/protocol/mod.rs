pub mod enrollment;
pub mod framing;
pub mod services;
