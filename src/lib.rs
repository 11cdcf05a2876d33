//! Core of a terminal dashboard that monitors and controls a running proxy
//! service: backend selection, snapshot assembly, latency-test bookkeeping and
//! the keyboard-driven session state machine.
pub mod text;
pub mod models;
pub mod entities;
pub mod errors;
pub mod cli;
pub mod config;
pub mod http;
pub mod client;
pub mod policies;
pub mod requests;
pub mod i18n;
pub mod en_us;
pub mod zh_cn;
pub mod session;
pub mod system;
