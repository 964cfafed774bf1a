//! Bodies, scenarios, the scenario registry and the double-buffered GPU
//! resources.

pub mod earth_moon;
pub mod encoding;
pub mod galaxy;
pub mod init;
pub mod manager;
pub mod resources;
pub mod scalar;
pub mod scenario;
pub mod solar_system;
pub mod trait_def;
pub mod types;
