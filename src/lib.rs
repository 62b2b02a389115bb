pub mod completion;
pub mod config;
pub mod cpu;
pub mod driver;
pub mod ring;
pub mod setup;
