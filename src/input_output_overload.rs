//! Overloading on the input type and the requested output type together:
//! one input type may resolve to several candidates, one per output type.
pub mod independent_fn;
pub mod struct_fn;
pub mod trait_fn;
