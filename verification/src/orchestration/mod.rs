pub mod cluster;
pub mod enrollment;
pub mod hotplug;
pub mod multicodec;
pub mod rate_limit;
pub mod sensor_passthrough;
pub mod services;
pub mod session;
pub mod traits;
