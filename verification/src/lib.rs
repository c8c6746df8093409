//! Core logic of a one-directional, checksum-driven file mirror together
//! with the air-quality rating rules that classify the sensor readings the
//! mirrored files contain.
//!
//! The mirror is remote-authoritative: each cycle compares a remote metadata
//! snapshot against a local one and transfers only the files whose content
//! digests differ, never deleting anything locally.

pub mod checksum;
pub mod controller;
pub mod metadata;
pub mod remote;
pub mod sensor_csv;
pub mod sensor_quality;
pub mod sync_error;
pub mod synchronize;
pub mod text;
