//! Verified core of the Hadron antivirus engine: threat model, configuration,
//! PE inspection, heuristic rules, memory signatures and the decision logic
//! of the scanners.
pub mod clock;
pub mod config;
pub mod driver;
pub mod email_scanner;
pub mod error;
pub mod file_utils;
pub mod float_bits;
pub mod heuristic;
pub mod logging;
pub mod mapi_integration;
pub mod memory_scanner;
pub mod mock_api;
pub mod notifications;
pub mod pairs;
pub mod pe_analyzer;
pub mod ranking;
pub mod removable_media;
pub mod sandbox;
pub mod signature;
pub mod paths;
pub mod text;
pub mod traits;
pub mod types;
