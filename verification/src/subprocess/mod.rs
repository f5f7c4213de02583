//! Collection of energy samples from the operating system's sampler.
pub mod macos;
pub mod app_table;
