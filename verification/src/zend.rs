//! State that lives as long as the process and that the engine reaches by address.

pub mod api;
pub mod ini;
