//! Value types exchanged between the application shell and its
//! internal-api plugin, and their field-record wire form.
pub mod wire;
pub mod models;
