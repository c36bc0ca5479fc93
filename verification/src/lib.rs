//! Verified core of the Pappap AI Chain node: configuration, the post-quantum
//! message envelope, the language detector of the neural core, the routing
//! decisions of the node's managers and peer-to-peer layer, the multimodal
//! request planner and the desktop client's request bodies.

pub mod config;
pub mod text;
pub mod snn_core;
pub mod crypto_pqc;
pub mod managers;
pub mod p2p;
pub mod multimodal;
pub mod desktop;
