//! Wraps a raw filesystem image in a GPT-partitioned disk image: a planner
//! turns (image length, padding, logical block size, ESP flag) into an exact
//! non-overlapping sector map, a builder commits that map to a partition
//! table with fixed identifiers, a dispatcher formats the optional EFI
//! system partition, and a small state tracker accounts for the data copy.

pub mod copy;
pub mod esp;
pub mod geometry;
pub mod partitions;
pub mod table;
