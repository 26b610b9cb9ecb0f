//! The noise-router data model of the world generator: the operation and
//! wrapper kinds of the density-function graph, the integer-valued component
//! data, and the components whose behaviour is a matter of comparing doubles
//! (the weird-scaled mapper curves and clamping), which work on IEEE-754
//! binary64 values held as their bit patterns.
pub mod double_bits;
pub mod noise_router;
