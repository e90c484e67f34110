//! A growable, contiguous array with manual capacity management: the caller
//! chooses the initial capacity, whether the array may grow at all, and the
//! policy by which it grows when an append overflows the allocated slots.

pub mod vector;
