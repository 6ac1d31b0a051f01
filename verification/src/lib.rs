pub mod types;
pub mod text;
pub mod builtins;
pub mod position;
pub mod syntax;
pub mod num;
pub mod big;
pub mod name_map;
pub mod fmt;
pub mod analysis;
