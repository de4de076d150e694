pub mod handlers;
pub mod json;
pub mod numerals;
