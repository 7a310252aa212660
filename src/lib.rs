//! A verified marshalling layer between a dynamically typed host and the
//! statically typed calling convention of a WebAssembly machine: typed values,
//! signatures inferred from annotations, calls in both directions, and typed
//! views over linear memory.
pub mod dispatch;
pub mod exports;
pub mod function;
pub mod memory_view;
pub mod signature;
pub mod text;
pub mod value;
