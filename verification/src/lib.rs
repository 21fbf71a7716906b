//! Bulk-download client logic for an image-sharing site: where each image of an
//! artwork is stored, how a single transfer advances, how the progress of the
//! running transfers is recorded, and how batches and sweeps are decided.

pub mod batch;
pub mod cli;
pub mod config;
pub mod data;
pub mod destination;
pub mod json;
pub mod keys;
pub mod layout;
pub mod panels;
pub mod rank;
pub mod registry;
pub mod resolve;
pub mod sweep;
pub mod text;
pub mod transfer;
pub mod user;
