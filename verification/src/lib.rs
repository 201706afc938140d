//! hightower: plain-language verdicts about running Windows processes.

pub mod classify;
pub mod environment;
pub mod error;
pub mod explain;
pub mod knowledge;
pub mod ports;
pub mod procinfo;
pub mod process;
pub mod render;
pub mod report;
pub mod rules;
pub mod scan;
pub mod signature;
pub mod text;
