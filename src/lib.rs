//! Overloading by static type: one operation name, several type-specific
//! candidate bodies, selected at the call site through trait resolution.
//! Each candidate states its outcome as a spec function of its input.
pub mod info;
pub mod outcome;
pub mod input_overload;
pub mod input_output_overload;
