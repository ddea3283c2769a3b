//! Credential cache and deployment-status reconciliation for a tray
//! indicator that watches accounts on two deployment providers.
use vstd::prelude::*;

pub mod account;
pub mod state;
pub mod snapshot;
pub mod unified;
pub mod vercel;
pub mod railway;
pub mod railway_merge;
pub mod normalize;
pub mod aggregate;
pub mod reconcile;
pub mod onboard;
pub mod commands;
pub mod logs;
