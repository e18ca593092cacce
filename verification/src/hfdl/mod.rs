//! The HF datalink: its system table, its frames, and the module that picks its bands.

pub mod airframes;
pub mod feedback;
pub mod frame;
pub mod module;
pub mod normalize;
pub mod planner;
pub mod rates;
pub mod session;
pub mod systable;
pub mod table_text;
