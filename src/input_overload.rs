//! Overloading on the input type alone: the input type determines the
//! candidate, and with it the output type.
pub mod independent_fn;
pub mod struct_fn;
pub mod trait_fn;
