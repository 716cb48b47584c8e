//! A bridge between a dynamically typed host language and a WebAssembly
//! engine: host callbacks become engine functions, and engine functions are
//! invoked with host values.
pub mod callable;
pub mod engine;
pub mod error;
pub mod func_type;
pub mod invoke;
pub mod laws;
pub mod params;
pub mod store;
pub mod trampoline;
pub mod text;
pub mod value;
