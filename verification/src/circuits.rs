//! Circuit tracking: the reputation of each circuit and the limit on its
//! request rate.

pub mod tracker;
