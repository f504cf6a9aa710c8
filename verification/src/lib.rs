//! Copy a file under a new name that embeds a content fingerprint and a
//! timestamp, keeping the original extension.
//!
//! The library holds the logic of the tool: hex fingerprints of byte
//! streams (through MD5), timestamp formatting from a clock reading,
//! destination-name construction, and the mapping from failure class to
//! exit status. Reading files, the clock's raw value and the byte copy
//! are left to the surrounding binary.

pub mod fingerprint;
pub mod hex;
pub mod naming;
pub mod outcome;
pub mod timestamp;
