//! Enemies of the card-based combat model: each chooses the card it plays.
pub mod bomb;
pub mod copper_sides;
pub mod rose_buddies;
