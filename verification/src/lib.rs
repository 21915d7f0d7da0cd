//! Messaging gateway core: one contract over six chat platforms, with the
//! state machines, token and reconnect policies, deduplication and registry
//! written as plain functions from state and event to state and action.

pub mod crypto;
pub mod filesystem;
pub mod goclaw;
pub mod im;
pub mod im_gateway;
pub mod shell;
pub mod storage;
