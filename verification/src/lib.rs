//! A minimal on-chain registry: creators register an identity, publish
//! content records, receive comments, and accumulate support-credit
//! counters. Records live at storage addresses derived deterministically
//! from a namespace tag and key material; every mutation is gated on the
//! record's authority, content indices are issued gaplessly, and the
//! embedded comment list is capacity-bounded.

pub mod address;
pub mod bytes;
pub mod content;
pub mod creator;
pub mod errors;
pub mod space;
pub mod state;
pub mod subscription;
