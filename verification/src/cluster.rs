//! Cluster coordination: health gossip between nodes and the signed
//! passports that hand a client over from one node to another.

pub mod gossip;
pub mod passport;
