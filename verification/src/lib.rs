//! Batch media compression engine: bounded-concurrency job scheduling,
//! external-process progress monitoring, and two-pass encode sequencing,
//! with the orchestration logic verified.

pub mod batch;
pub mod cli;
pub mod command;
pub mod config;
pub mod error;
pub mod files;
pub mod image;
pub mod parser;
pub mod presets;
pub mod progress;
pub mod runner;
pub mod scheduler;
pub mod sys;
pub mod text;
pub mod twopass;
pub mod video;
