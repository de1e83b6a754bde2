//! Resolution of game version descriptors into install plans, and the
//! decision logic of the download engine that carries those plans out.

pub mod text;
pub mod rules;
pub mod layout;
pub mod manifest;
pub mod coordinate;
pub mod runtime;
pub mod planner;
pub mod integrity;
pub mod engine;
pub mod jvm;
pub mod versions;
