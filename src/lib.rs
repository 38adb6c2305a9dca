//! Deep, auto-vivifying access into nested maps and sequences.
//!
//! A caller addresses a slot inside nested `HashMap`s and `Vec`s with one
//! composite key, `(k1, (k2, ... kn))`, and gets back a handle on that slot.
//! Every container missing along the path is created empty on the way, and a
//! sequence too short for an index is grown with default-constructed values.
pub mod deep;
pub mod laws;
pub mod map_entry;
pub mod seq_entry;
