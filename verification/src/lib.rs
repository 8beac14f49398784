//! Decision logic, data model and text handling of the OpenHome plugin for
//! Homebridge Config UI, with its contracts proved by Verus.

pub mod text;
pub mod json;
pub mod models;
pub mod registry;
pub mod session;
pub mod state;
pub mod actions;
pub mod reconnect;
pub mod order;
pub mod catalog;
pub mod normalise;
pub mod decode;
pub mod errors;
pub mod address;
pub mod auth;
