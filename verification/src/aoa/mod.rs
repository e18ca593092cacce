//! The VHF datalink: application messages over its link layer.

pub mod frame;
pub mod ground_station_db;
pub mod module;
pub mod normalize;
pub mod session;
