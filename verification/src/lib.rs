//! An over-the-air update client's decisions, verified: reading versions and
//! deciding whether a release is due, checking artifacts against their
//! digests, finding binaries in an unpacked archive, and installing a release
//! module by module. The library decides and says what is to be done on the
//! host; the program around it does it and reports back.

pub mod checksum;
pub mod config;
pub mod error;
pub mod host;
pub mod installer;
pub mod ledger;
pub mod manifest;
pub mod network;
pub mod paths;
pub mod stager;
pub mod text;
pub mod updater;
pub mod versions;
