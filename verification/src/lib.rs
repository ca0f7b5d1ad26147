//! Verified core of a screen-to-code discovery pipeline: pixel transforms,
//! QR decode orchestration, display-capture planning, and the bounded scan
//! loop that links a Signal Desktop instance from an on-screen pairing code.

pub mod capture;
pub mod config;
pub mod decode;
pub mod docker;
pub mod errors;
pub mod image_ops;
pub mod scan;
pub mod strutil;
pub mod system;
pub mod wizard;
