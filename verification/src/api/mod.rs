//! Source records and the features extracted from them.

pub mod api_extensions;
pub mod api_model;
pub mod background;
pub mod by_level;
pub mod class;
pub mod species;
pub mod weapon;
