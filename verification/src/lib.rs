//! Band and session orchestration for an aeronautical datalink receiver.

pub mod aoa;
pub mod arguments;
pub mod bands;
pub mod clock;
pub mod control;
pub mod elasticsearch;
pub mod events;
pub mod fixed;
pub mod formats;
pub mod frame;
pub mod hfdl;
pub mod manager;
pub mod normalize;
pub mod patterns;
pub mod random;
pub mod schedule;
pub mod server;
pub mod session;
pub mod settings;
pub mod sinks;
pub mod stations;
pub mod text;
pub mod utils;
pub mod validators;
pub mod value;
pub mod wkt;
