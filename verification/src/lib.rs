//! Parameter, metering, factory and editor logic of a VST3 gain plugin with a web UI.
//!
//! Floating-point values are carried as their IEEE-754 binary64 bit patterns (`u64`),
//! exactly as the plugin shares them between its audio and UI threads.
pub mod f64_bits;
pub mod json;
pub mod shared;
pub mod resources;
pub mod status;
pub mod controller;
pub mod processor;
pub mod factory;
pub mod view;
pub mod winpath;
