//! Adaptors: verification strategies that judge password candidates.

pub mod attempt_result;
pub mod base;
pub mod custom;
