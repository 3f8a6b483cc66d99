//! Randomly seeded hash builders for the xxHash family.
//!
//! A builder draws its keying material once, from the operating system, and
//! then mints any number of hashers that are all keyed alike. A table that
//! owns such a builder cannot be flooded with colliding keys by somebody who
//! does not know the seed.
pub mod entropy;
pub mod seed;
pub mod digest;
pub mod hasher;
pub mod buildhash;
