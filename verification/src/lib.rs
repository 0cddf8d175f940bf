//! Verified routing logic for the Holochain notifications zomes: provider
//! discovery and selection, the link registries that hold service keys, email
//! credentials, addresses and settings, and the calls that forward requests
//! between cells.

use vstd::prelude::*;

pub mod hashes;
pub mod types;
pub mod errors;
pub mod host;
pub mod effects;
pub mod requests;
pub mod registry;
pub mod tags;
pub mod calls;
pub mod email_types;
pub mod pending;
pub mod runner;
pub mod providers;
pub mod notifications;
pub mod email_service;
pub mod fcm_provider;
pub mod email_provider;
pub mod fcm_recipient;
pub mod settings;
pub mod fcm_bridge;
pub mod fcm_service_bridge;
pub mod email_bridge;
