//! Parser for Betaflight and INAV blackbox flight logs.

pub mod betaflight;
pub mod common;
pub mod data;
pub mod decode;
pub mod event;
pub mod header_lines;
pub mod file;
pub mod frame;
pub mod filter;
pub mod frame_defs;
pub mod headers;
pub mod inav;
pub mod predictor;
pub mod reader;
pub mod text;
pub mod units;
