//! Core logic of a frame-synchronous desktop wallet UI.
//!
//! An immediate-mode render loop is re-entered once per frame and must never
//! block, yet it originates slow background work (fee estimation, account
//! creation, transaction submission).  The pieces here make that safe:
//!
//! - [`cache`]: a keyed, single-slot memo cache that lets a repainting render
//!   pass start a background task once and observe its result exactly once;
//! - [`validation`]: pure helpers that parse human-entered amounts into
//!   minor-unit integers and check addresses against an expected network;
//! - [`wizard`]: the account-creation wizard state machine;
//! - [`flow`]: the send/transfer/estimate flow embedded in the account
//!   overview screen;
//! - [`registry`]: the shared list of accounts the wizard registers into;
//! - [`config`]: the node configuration record derived from user settings;
//! - [`once_slot`]: a container enforcing initialize-once process-wide state.
//!
//! Everything that performs I/O, awaits, or draws lives outside this crate;
//! the functions here take plain values in and hand plain values back.

pub mod cache;
pub mod config;
pub mod flow;
pub mod once_slot;
pub mod registry;
pub mod validation;
pub mod wizard;
