//! Grid state for a territory game kept in two trust domains: an authoritative
//! grid whose tiles carry a secret 256-bit key, and a public grid that carries
//! only owners and resources.

pub mod grid;
pub mod identity;
pub mod key;
pub mod secret;
pub mod text;
