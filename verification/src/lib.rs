//! The control layer of a container-runtime shim that runs WebAssembly applications.
//!
//! The library decides; the host does the input and output. It classifies the content
//! layers that the host supplies and materialises them in a content-addressed cache
//! ([`layer`], [`cache`], [`source`]), says how the application's descriptor is loaded
//! and completes it ([`loader`], [`descriptor`]), reads the run's settings from the
//! environment ([`env`], [`settings`]), selects the trigger types to launch
//! ([`trigger`]), supervises the launched triggers until the first of them ends
//! ([`supervisor`], [`engine`]), and compiles WebAssembly layers ahead of time
//! ([`compiler`]).

pub mod cache;
pub mod compiler;
pub mod descriptor;
pub mod engine;
pub mod env;
pub mod layer;
pub mod loader;
pub mod settings;
pub mod source;
pub mod supervisor;
pub mod text;
pub mod trigger;

pub use compiler::SpinCompiler;
pub use engine::{SpinSandbox, SpinShim};
pub use source::Source;
