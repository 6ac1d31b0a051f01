//! The rules the analyzer applies to calls, statements and the document.

pub mod general;
pub mod math;
pub mod validation;
pub mod time;
pub mod request;
pub mod input;
pub mod plot;
pub mod draw;
pub mod ta;
pub mod orders;
pub mod strategy;
pub mod arrays;
pub mod matrices;
pub mod collections;
pub mod calls;
