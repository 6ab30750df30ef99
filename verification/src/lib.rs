//! Safe, verified control-plane logic for video capture and media-controller
//! devices.
//!
//! Every exchange with a device driver is a fixed-purpose request paired with
//! a fixed-layout record. This crate holds the verified side of that
//! protocol: the typed control/value model, the batching and validation rules
//! for control writes, the sentinel-terminated enumeration state machines for
//! controls, menu items, inputs, outputs and media-graph entities, and the
//! descriptor-ownership ledger. The thin layer that actually opens device
//! nodes and issues the requests drives these state machines and performs the
//! actions they decide on.

pub mod control;
pub mod device;
pub mod enumerate;
pub mod error;
pub mod handle;
pub mod media;
