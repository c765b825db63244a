//! Single-shot GPU fences as a protocol core.
//!
//! A fence is a marker placed in a GPU command stream; it becomes signaled once
//! every command queued before it has finished. This crate holds the rules of
//! the fence's life: which driver entry points a context can use, which driver
//! request comes next, and who owns the native sync object at each moment.
//!
//! The crate never talks to a driver. Every operation returns the [`driver::Request`]
//! that has to be performed, and takes what the driver answered as a plain value.
//! The program around it performs the requests on the thread that owns the context.

pub mod version;
pub mod context;
pub mod driver;
pub mod sync;
pub mod lifecycle;
