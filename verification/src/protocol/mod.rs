//! The data structures that the client offers.

pub mod pn_counter;
