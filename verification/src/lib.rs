//! Nightingale: a local, defensive security monitor. This crate holds its verified core:
//! the detection rules, deduplication and correlation decisions, policy and settings
//! validation, and the score and report arithmetic.

pub mod text;
pub mod domain;
pub mod application;
pub mod platform;
pub mod repository;
