//! Weather report logic: configuration, provider response interpretation,
//! text rendering and the logging buffer, each with its contract.

pub mod config;
pub mod display;
pub mod errors;
pub mod http;
pub mod live;
pub mod logging;
pub mod models;
pub mod numbers;
pub mod text;
pub mod translations;
pub mod weather;
